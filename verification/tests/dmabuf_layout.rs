use wado_compositor::dmabuf_layout::{plane_layout, LayoutError};

#[test]
fn a_linear_rgba_buffer_has_one_plane() {
    let v = plane_layout(1, 1, &vec![0], &vec![7680]).expect("importable");
    assert_eq!(v, vec![(0, 7680)]);
}

#[test]
fn missing_offsets_and_pitches_are_zero() {
    let v = plane_layout(3, 1, &vec![0, 4096], &vec![256]).expect("importable");
    assert_eq!(v, vec![(0, 256), (4096, 0), (0, 0)]);
}

#[test]
fn the_plane_count_is_one_to_four() {
    assert_eq!(plane_layout(0, 1, &vec![], &vec![]), Err(LayoutError::PlaneCount(0)));
    assert_eq!(plane_layout(5, 1, &vec![], &vec![]), Err(LayoutError::PlaneCount(5)));
    assert_eq!(plane_layout(4, 1, &vec![], &vec![]).map(|v| v.len()), Ok(4));
    // The plane count is checked before the objects.
    assert_eq!(plane_layout(0, 3, &vec![], &vec![]), Err(LayoutError::PlaneCount(0)));
}

#[test]
fn only_single_object_buffers_are_imported() {
    assert_eq!(plane_layout(2, 2, &vec![0, 0], &vec![64, 64]), Err(LayoutError::MultiObject(2)));
    assert_eq!(plane_layout(1, 0, &vec![0], &vec![64]), Err(LayoutError::NoObject));
}

#[test]
fn layout_errors_describe_themselves() {
    assert_eq!(LayoutError::PlaneCount(7).message(), "unsupported dmabuf plane count 7");
    assert_eq!(
        LayoutError::MultiObject(12).message(),
        "multi-fd dmabuf (12 objects) unsupported by DRM-PRIME import — only single-object (Linear) dmabufs are supported"
    );
    assert_eq!(LayoutError::NoObject.message(), "dmabuf has no fd");
}
