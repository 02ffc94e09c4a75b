use teapot_grid::color::AnimatedColor;
use teapot_grid::color::Channel;
use teapot_grid::color::COLOR_SCALE;

#[test]
fn bounce_at_upper_boundary() {
    // 0.999 plus a delta of +0.003 clamps to 1.0 and flips the delta.
    let mut c = Channel { value: 999, delta: 3 };
    c.step();
    assert_eq!(c.value, 1000);
    assert_eq!(c.delta, -3);
}

#[test]
fn bounce_at_lower_boundary() {
    // 0.001 plus a delta of -0.003 clamps to 0.0 and flips the delta.
    let mut c = Channel { value: 1, delta: -3 };
    c.step();
    assert_eq!(c.value, 0);
    assert_eq!(c.delta, 3);
}

#[test]
fn step_without_boundary_contact() {
    let mut c = Channel { value: 500, delta: 3 };
    c.step();
    assert_eq!(c.value, 503);
    assert_eq!(c.delta, 3);
}

#[test]
fn initial_color_is_black_with_demo_deltas() {
    let c = AnimatedColor::new();
    assert_eq!(c.r, Channel { value: 0, delta: 1 });
    assert_eq!(c.g, Channel { value: 0, delta: 2 });
    assert_eq!(c.b, Channel { value: 0, delta: 3 });
}

#[test]
fn channels_stay_in_unit_interval_for_many_steps() {
    let mut c = AnimatedColor::new();
    for _ in 0..100_000 {
        c.step();
        for ch in [c.r, c.g, c.b] {
            assert!(0 <= ch.value && ch.value <= COLOR_SCALE);
        }
    }
}

#[test]
fn channel_converts_to_unit_float() {
    let mut c = Channel { value: 999, delta: 3 };
    c.step();
    let f = c.value as f32 / COLOR_SCALE as f32;
    assert!((f - 1.0).abs() < 1e-6);
}
