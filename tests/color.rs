use planet_shaders::color::Color;
use planet_shaders::fixed::{floor_div, isqrt, FX_ONE};

fn rgb(c: Color) -> (u8, u8, u8) {
    (c.r, c.g, c.b)
}

#[test]
fn lerp_at_zero_is_first_color() {
    let a = Color::new(12, 200, 77);
    let b = Color::new(250, 3, 140);
    assert_eq!(a.lerp(&b, 0), a);
}

#[test]
fn lerp_at_one_is_second_color() {
    let a = Color::new(12, 200, 77);
    let b = Color::new(250, 3, 140);
    assert_eq!(a.lerp(&b, FX_ONE), b);
}

#[test]
fn lerp_halfway_rounds_down() {
    let a = Color::new(0, 0, 0);
    let b = Color::new(255, 100, 10);
    assert_eq!(rgb(a.lerp(&b, FX_ONE / 2)), (127, 50, 5));
}

#[test]
fn lerp_extrapolates_and_clamps() {
    let a = Color::new(10, 20, 30);
    assert_eq!(rgb(a.lerp(&Color::new(20, 40, 60), 2 * FX_ONE)), (30, 60, 90));
    assert_eq!(rgb(a.lerp(&Color::new(200, 40, 60), -FX_ONE)), (0, 0, 0));
    assert_eq!(rgb(a.lerp(&Color::new(250, 250, 250), 4 * FX_ONE)), (255, 255, 255));
    assert_eq!(rgb(a.lerp(&Color::new(250, 250, 250), i64::MAX)), (255, 255, 255));
    assert_eq!(rgb(a.lerp(&Color::new(250, 250, 250), i64::MIN)), (0, 0, 0));
}

#[test]
fn scale_by_intensity() {
    let c = Color::new(200, 100, 50);
    assert_eq!(rgb(c.scale(FX_ONE / 2)), (100, 50, 25));
    assert_eq!(rgb(c.scale(2 * FX_ONE)), (255, 200, 100));
    assert_eq!(rgb(c.scale(-FX_ONE)), (0, 0, 0));
    assert_eq!(c.scale(FX_ONE), c);
}

#[test]
fn hex_packs_channels() {
    assert_eq!(Color::new(0xAB, 0xCD, 0xEF).to_hex(), 0xABCDEF);
    assert_eq!(Color::new(0, 0, 0).to_hex(), 0);
    assert_eq!(Color::new(255, 255, 255).to_hex(), 0xFFFFFF);
}

#[test]
fn floor_division_rounds_toward_negative_infinity() {
    assert_eq!(floor_div(7, 2), 3);
    assert_eq!(floor_div(-7, 2), -4);
    assert_eq!(floor_div(-6, 2), -3);
    assert_eq!(floor_div(-1, 65536), -1);
    assert_eq!(floor_div(0, 5), 0);
}

#[test]
fn integer_square_root() {
    assert_eq!(isqrt(0), 0);
    assert_eq!(isqrt(1), 1);
    assert_eq!(isqrt(15), 3);
    assert_eq!(isqrt(16), 4);
    assert_eq!(isqrt(2 * 65536 * 65536), 92681);
    assert_eq!(isqrt(u64::MAX), 4294967295);
}
