use tileview::color::HUE_STEPS;
use tileview::field::{
    escape_hue, FieldKind, Interior, SET_ITERATIONS, SHIP_ITERATIONS,
};

#[test]
fn caps_of_the_fields() {
    assert_eq!(FieldKind::Mandelbrot.iteration_cap(), Some(100));
    assert_eq!(FieldKind::Julia.iteration_cap(), Some(100));
    assert_eq!(FieldKind::BurningShip.iteration_cap(), Some(1000));
    assert_eq!(FieldKind::Noise.iteration_cap(), None);
}

#[test]
fn interior_policies_of_the_fields() {
    assert_eq!(FieldKind::Mandelbrot.interior(), Interior::Flatten);
    assert_eq!(FieldKind::Julia.interior(), Interior::Flatten);
    assert_eq!(FieldKind::BurningShip.interior(), Interior::Saturate);
}

#[test]
fn mandelbrot_interior_point_is_flattened_to_zero() {
    // The origin never escapes: it runs to the cap.
    assert_eq!(escape_hue(SET_ITERATIONS, SET_ITERATIONS, Interior::Flatten), 0);
}

#[test]
fn burning_ship_interior_point_is_full_scale() {
    assert_eq!(
        escape_hue(SHIP_ITERATIONS, SHIP_ITERATIONS, Interior::Saturate),
        HUE_STEPS
    );
}

#[test]
fn escape_count_is_a_fraction_of_the_wheel() {
    assert_eq!(escape_hue(0, 100, Interior::Flatten), 0);
    assert_eq!(escape_hue(1, 100, Interior::Flatten), 15);
    assert_eq!(escape_hue(50, 100, Interior::Flatten), 765);
    assert_eq!(escape_hue(99, 100, Interior::Flatten), 1514);
    assert_eq!(escape_hue(333, 1000, Interior::Saturate), 509);
    assert_eq!(escape_hue(u32::MAX, u32::MAX, Interior::Saturate), HUE_STEPS);
}
