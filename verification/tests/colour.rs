use wado_compositor::capture::flip_rows;
use wado_compositor::colour::{rgba_to_i420, rgba_to_nv12};

fn solid(w: usize, h: usize, rgba: [u8; 4]) -> Vec<u8> {
    rgba.iter().copied().cycle().take(w * h * 4).collect()
}

#[test]
fn white_black_and_red_have_their_bt601_values() {
    assert_eq!(rgba_to_nv12(&solid(2, 2, [255, 255, 255, 255]), 2, 2), vec![235, 235, 235, 235, 128, 128]);
    assert_eq!(rgba_to_nv12(&solid(2, 2, [0, 0, 0, 255]), 2, 2), vec![16, 16, 16, 16, 128, 128]);
    assert_eq!(rgba_to_nv12(&solid(2, 2, [255, 0, 0, 255]), 2, 2), vec![82, 82, 82, 82, 90, 240]);
}

#[test]
fn i420_holds_the_same_samples_in_planar_order() {
    let red = solid(4, 2, [255, 0, 0, 0]);
    assert_eq!(rgba_to_i420(&red, 4, 2), vec![82, 82, 82, 82, 82, 82, 82, 82, 90, 90, 240, 240]);
    let nv12 = rgba_to_nv12(&red, 4, 2);
    assert_eq!(nv12, vec![82, 82, 82, 82, 82, 82, 82, 82, 90, 240, 90, 240]);
}

#[test]
fn chroma_is_the_average_of_each_block() {
    // Left column white, right column black: each 2x2 block averages to mid grey.
    let mut px = Vec::new();
    for _ in 0..2 {
        px.extend_from_slice(&[255, 255, 255, 255]);
        px.extend_from_slice(&[0, 0, 0, 255]);
    }
    let out = rgba_to_nv12(&px, 2, 2);
    assert_eq!(&out[..4], &[235, 16, 235, 16]);
    assert_eq!(&out[4..], &[128, 128]);
}

#[test]
fn an_odd_width_leaves_the_last_chroma_byte_zero() {
    let out = rgba_to_nv12(&solid(3, 2, [255, 0, 0, 255]), 3, 2);
    assert_eq!(out.len(), 9);
    assert_eq!(&out[6..], &[90, 240, 0]);
}

#[test]
fn flipping_reverses_the_rows_and_flipping_again_restores_them() {
    let data: Vec<u8> = (0..24).collect();
    let once = flip_rows(data.clone(), 2, 3);
    assert_eq!(&once[..8], &data[16..24]);
    assert_eq!(&once[8..16], &data[8..16]);
    assert_eq!(&once[16..], &data[..8]);
    assert_eq!(flip_rows(once, 2, 3), data);
}

#[test]
fn grey_carries_no_colour() {
    assert_eq!(rgba_to_nv12(&solid(2, 2, [128, 128, 128, 255]), 2, 2), vec![126, 126, 126, 126, 128, 128]);
    assert_eq!(rgba_to_i420(&solid(2, 2, [7, 7, 7, 0]), 2, 2)[4..], [128, 128]);
}

#[test]
fn saturated_blue_reaches_the_top_of_the_chroma_range() {
    let out = rgba_to_nv12(&solid(2, 2, [0, 0, 255, 255]), 2, 2);
    // Y = (25 * 255 + 128) >> 8 + 16 = 41; U = 240; V = (-18 * 255 + 128) >> 8 + 128 = 110.
    assert_eq!(out, vec![41, 41, 41, 41, 240, 110]);
}
