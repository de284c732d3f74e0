//! What surrounds an encoder call: stamping frames, deciding what a codec's answer means, and
//! shaping what comes out into one Annex-B access unit per frame.
//!
//! Both encoders number their frames with a presentation timestamp that advances by one per
//! frame, and both honour a forced-IDR request on the next frame only. A keyframe from the
//! software encoder is preceded by the stream headers, so a decoder that joins at that
//! keyframe can start there. The hardware encoder is drained after every frame until the codec
//! says it needs more input or has finished; whatever was collected is the frame's output, and
//! nothing collected means the encoder held the frame.

use vstd::prelude::*;

verus! {

/// The codec's "needs more input" answer (`AVERROR(EAGAIN)` on Linux).
pub const AVERROR_EAGAIN: i32 = -11;

/// The codec's "no more output" answer (`AVERROR_EOF`).
pub const AVERROR_EOF: i32 = -0x20464F45;

/// What a codec's answer to "give me a packet" (or "give me a frame") means.
#[derive(Debug, Clone, Copy, PartialEq, Eq, Structural)]
pub enum ReceiveOutcome {
    /// Output was produced; take it and ask again.
    Produced,
    /// Nothing more for now: the codec wants more input, or has finished.
    Drained,
    /// A real failure: stop asking.
    Failed,
}

/// What a codec's return code means.
pub open spec fn spec_receive_outcome(ret: i32) -> ReceiveOutcome {
    if ret == 0 {
        ReceiveOutcome::Produced
    } else if ret == AVERROR_EAGAIN || ret == AVERROR_EOF {
        ReceiveOutcome::Drained
    } else {
        ReceiveOutcome::Failed
    }
}

/// What a codec's return code means.
pub fn receive_outcome(ret: i32) -> (o: ReceiveOutcome)
    ensures
        o == spec_receive_outcome(ret),
{
    if ret == 0 {
        ReceiveOutcome::Produced
    } else if ret == AVERROR_EAGAIN || ret == AVERROR_EOF {
        ReceiveOutcome::Drained
    } else {
        ReceiveOutcome::Failed
    }
}

/// The packets drained from an encoder for one frame, in the order they came.
pub struct Drain {
    out: Vec<u8>,
}

impl View for Drain {
    type V = Seq<u8>;

    closed spec fn view(&self) -> Seq<u8> {
        self.out@
    }
}

/// A frame's output: `None` when nothing was collected.
pub open spec fn spec_frame_output(collected: Seq<u8>) -> Option<Seq<u8>> {
    if collected.len() == 0 {
        None
    } else {
        Some(collected)
    }
}

impl Drain {
    /// Nothing collected yet.
    pub fn new() -> (d: Self)
        ensures
            d@ == Seq::<u8>::empty(),
    {
        Drain { out: Vec::new() }
    }

    /// Append one packet's bytes.
    pub fn push_packet(&mut self, packet: &[u8])
        ensures
            final(self)@ == old(self)@ + packet@,
    {
        let mut i: usize = 0;
        while i < packet.len()
            invariant
                i <= packet@.len(),
                self.out@ == old(self)@ + packet@.subrange(0, i as int),
            decreases packet@.len() - i,
        {
            self.out.push(packet[i]);
            i = i + 1;
            proof {
                assert(self.out@ =~= old(self)@ + packet@.subrange(0, i as int));
            }
        }
        proof {
            assert(packet@.subrange(0, i as int) =~= packet@);
        }
    }

    /// The frame's output: everything collected, or `None` when the encoder held the frame.
    pub fn finish(self) -> (r: Option<Vec<u8>>)
        ensures
            match r {
                Some(v) => spec_frame_output(self@) == Some(v@),
                None => spec_frame_output(self@) is None,
            },
    {
        if self.out.len() == 0 {
            None
        } else {
            Some(self.out)
        }
    }
}

/// The software encoder's access unit for one frame: nothing for an empty frame, the stream
/// headers then the frame for a keyframe, the frame alone otherwise.
pub open spec fn spec_access_unit(headers: Seq<u8>, nal: Seq<u8>, keyframe: bool) -> Option<Seq<u8>> {
    if nal.len() == 0 {
        None
    } else if keyframe {
        Some(headers + nal)
    } else {
        Some(nal)
    }
}

/// The software encoder's access unit for one frame.
pub fn access_unit(headers: &[u8], nal: &[u8], keyframe: bool) -> (r: Option<Vec<u8>>)
    ensures
        match r {
            Some(v) => spec_access_unit(headers@, nal@, keyframe) == Some(v@),
            None => spec_access_unit(headers@, nal@, keyframe) is None,
        },
{
    if nal.len() == 0 {
        return None;
    }
    let mut d = Drain::new();
    if keyframe {
        d.push_packet(headers);
    }
    d.push_packet(nal);
    proof {
        if !keyframe {
            assert(d@ =~= nal@);
        }
    }
    Some(d.out)
}

/// Where the U and V planes of an I420 image start: after `width × height` luma bytes, and
/// after a further `(width / 2) × (height / 2)` U bytes.
pub fn i420_planes(width: usize, height: usize) -> (r: (usize, usize))
    requires
        width * height + (width / 2) * (height / 2) <= usize::MAX,
    ensures
        r.0 == width * height,
        r.1 == width * height + (width / 2) * (height / 2),
{
    proof {
        assert((width / 2) * (height / 2) <= width * height) by (nonlinear_arith)
            requires
                width / 2 <= width,
                height / 2 <= height,
        ;
    }
    let y = width * height;
    (y, y + (width / 2) * (height / 2))
}

/// An encoder's frame clock: the next presentation timestamp, and whether the next frame must
/// be an IDR.
#[derive(Debug, Clone, Copy, PartialEq, Eq, Structural)]
pub struct EncodeClock {
    pub pts: i64,
    pub force_idr: bool,
}

/// The clock after stamping one frame, the frame's timestamp, and whether it must be an IDR.
pub open spec fn spec_stamp(c: EncodeClock) -> (EncodeClock, i64, bool) {
    (EncodeClock { pts: (c.pts + 1) as i64, force_idr: false }, c.pts, c.force_idr)
}

impl EncodeClock {
    /// A new encoder's clock: timestamp zero, no IDR asked for.
    pub fn new() -> (c: Self)
        ensures
            c == (EncodeClock { pts: 0, force_idr: false }),
    {
        EncodeClock { pts: 0, force_idr: false }
    }

    /// Ask for the next frame to be an IDR keyframe (a viewer joined, or lost a picture).
    pub fn request_idr(&mut self)
        ensures
            *final(self) == (EncodeClock { force_idr: true, ..*old(self) }),
    {
        self.force_idr = true;
    }

    /// Stamp one frame: its timestamp, and whether it must be an IDR. The request is used up.
    pub fn stamp(&mut self) -> (r: (i64, bool))
        requires
            old(self).pts < i64::MAX,
        ensures
            (*final(self), r.0, r.1) == spec_stamp(*old(self)),
    {
        let pts = self.pts;
        let idr = self.force_idr;
        self.pts = self.pts + 1;
        self.force_idr = false;
        (pts, idr)
    }
}

/// An IDR request is honoured by exactly the next frame: that frame is an IDR and the one
/// after it is not, unless asked again. Timestamps rise by one per frame.
pub proof fn law_an_idr_request_is_used_once(c: EncodeClock)
    requires
        c.pts < i64::MAX - 1,
    ensures
        spec_stamp(EncodeClock { force_idr: true, ..c }).2,
        !spec_stamp(spec_stamp(EncodeClock { force_idr: true, ..c }).0).2,
        spec_stamp(spec_stamp(c).0).1 == spec_stamp(c).1 + 1,
{
}

/// What an encoder is fed from.
#[derive(Debug, Clone, Copy, PartialEq, Eq, Structural)]
pub enum Feed {
    /// Pixels read back into memory.
    Cpu,
    /// DMA-BUFs straight from the GPU.
    Dma,
}

/// The kind of a captured frame.
#[derive(Debug, Clone, Copy, PartialEq, Eq, Structural)]
pub enum FrameKind {
    Rgba,
    Dma,
}

/// Whether an encoder fed from `feed` can take a frame of `kind`: memory frames go to a memory
/// feed and DMA-BUFs to a DMA feed; anything else is a pipeline built wrong and is refused.
pub fn accepts(feed: Feed, kind: FrameKind) -> (ok: bool)
    ensures
        ok == ((feed == Feed::Cpu && kind == FrameKind::Rgba) || (feed == Feed::Dma && kind == FrameKind::Dma)),
{
    match (feed, kind) {
        (Feed::Cpu, FrameKind::Rgba) => true,
        (Feed::Dma, FrameKind::Dma) => true,
        _ => false,
    }
}

} // verus!
