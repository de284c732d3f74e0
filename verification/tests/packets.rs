use wado_compositor::capture::upright;
use wado_compositor::packets::{
    accepts, access_unit, i420_planes, receive_outcome, Drain, EncodeClock, Feed, FrameKind, ReceiveOutcome,
    AVERROR_EAGAIN, AVERROR_EOF,
};

#[test]
fn a_keyframe_carries_the_stream_headers() {
    let headers = [0, 0, 0, 1, 0x67, 0, 0, 0, 1, 0x68];
    let idr = [0, 0, 0, 1, 0x65, 9];
    let mut expected = headers.to_vec();
    expected.extend_from_slice(&idr);
    assert_eq!(access_unit(&headers, &idr, true), Some(expected));
    assert_eq!(access_unit(&headers, &[0, 0, 0, 1, 0x41], false), Some(vec![0, 0, 0, 1, 0x41]));
    assert_eq!(access_unit(&headers, &[], true), None);
}

#[test]
fn the_codec_answers_are_read_as_the_drain_loop_needs() {
    assert_eq!(receive_outcome(0), ReceiveOutcome::Produced);
    assert_eq!(receive_outcome(AVERROR_EAGAIN), ReceiveOutcome::Drained);
    assert_eq!(receive_outcome(AVERROR_EOF), ReceiveOutcome::Drained);
    assert_eq!(receive_outcome(-22), ReceiveOutcome::Failed);
    assert_eq!(AVERROR_EOF, -541_478_725);
}

#[test]
fn a_drained_frame_is_its_packets_in_order() {
    let mut d = Drain::new();
    d.push_packet(&[1, 2]);
    d.push_packet(&[]);
    d.push_packet(&[3]);
    assert_eq!(d.finish(), Some(vec![1, 2, 3]));
    assert_eq!(Drain::new().finish(), None);
}

#[test]
fn an_idr_request_applies_to_the_next_frame_only() {
    let mut c = EncodeClock::new();
    assert_eq!(c.stamp(), (0, false));
    c.request_idr();
    assert_eq!(c.stamp(), (1, true));
    assert_eq!(c.stamp(), (2, false));
}

#[test]
fn the_i420_planes_follow_the_luma() {
    assert_eq!(i420_planes(1280, 720), (921_600, 921_600 + 640 * 360));
    assert_eq!(i420_planes(3, 3), (9, 10));
}

#[test]
fn frames_go_only_to_a_matching_feed() {
    assert!(accepts(Feed::Cpu, FrameKind::Rgba));
    assert!(accepts(Feed::Dma, FrameKind::Dma));
    assert!(!accepts(Feed::Cpu, FrameKind::Dma));
    assert!(!accepts(Feed::Dma, FrameKind::Rgba));
}

#[test]
fn a_read_back_is_flipped_only_when_the_driver_did_not() {
    let data: Vec<u8> = (0..16).collect();
    assert_eq!(upright(data.clone(), 1, 4, true), data);
    let flipped = upright(data.clone(), 1, 4, false);
    assert_eq!(&flipped[..4], &data[12..]);
    assert_eq!(&flipped[12..], &data[..4]);
}
