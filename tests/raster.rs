use tileview::color::HUE_STEPS;
use tileview::raster::{pixel_count, pixel_position, render_frame};

#[test]
fn pixel_count_of_frames() {
    assert_eq!(pixel_count(0, 480), 0);
    assert_eq!(pixel_count(640, 480), 307_200);
    assert_eq!(pixel_count(u16::MAX, u16::MAX), 65_535 * 65_535);
}

#[test]
fn pixel_positions_are_row_major() {
    assert_eq!(pixel_position(0, 4, 3), (0, 0));
    assert_eq!(pixel_position(3, 4, 3), (3, 0));
    assert_eq!(pixel_position(4, 4, 3), (0, 1));
    assert_eq!(pixel_position(11, 4, 3), (3, 2));
}

#[test]
fn empty_frame_has_no_bytes() {
    assert!(render_frame(&Vec::new()).is_empty());
}

#[test]
fn frame_bytes_are_rgba_per_pixel() {
    let hues = vec![0, 510, 1020, HUE_STEPS];
    let bytes = render_frame(&hues);
    assert_eq!(
        bytes,
        vec![255, 0, 0, 255, 0, 255, 0, 255, 0, 0, 255, 255, 255, 0, 0, 255]
    );
}

#[test]
fn renders_are_bit_identical() {
    let hues: Vec<u32> = (0..4096u32).map(|i| (i * 37) % 1600).collect();
    assert_eq!(render_frame(&hues), render_frame(&hues.clone()));
}

#[test]
fn pixel_bytes_depend_on_own_hue_only() {
    let a = vec![10, 20, 30];
    let b = vec![10, 900, 30];
    let ra = render_frame(&a);
    let rb = render_frame(&b);
    assert_eq!(ra[0..4], rb[0..4]);
    assert_ne!(ra[4..8], rb[4..8]);
    assert_eq!(ra[8..12], rb[8..12]);
}
