use atom_simulator::color::{glow, Color, ALPHA_FLOOR, FULL_SCALE};

#[test]
fn no_density_is_black_at_the_alpha_floor() {
    assert_eq!(glow(0), Color { r: 0, g: 0, b: 0, a: 64 });
    assert_eq!(ALPHA_FLOOR, 64);
}

#[test]
fn the_bound_is_opaque_white() {
    assert_eq!(glow(FULL_SCALE), Color { r: 255, g: 255, b: 255, a: 255 });
    assert_eq!(FULL_SCALE, 1_000_000);
}

#[test]
fn densities_above_the_bound_are_clamped() {
    assert_eq!(glow(FULL_SCALE + 1), glow(FULL_SCALE));
    assert_eq!(glow(u32::MAX), Color { r: 255, g: 255, b: 255, a: 255 });
}

#[test]
fn the_ramp_goes_through_red_and_yellow() {
    // heat = density * 765 / 1_000_000, rounded down
    assert_eq!(glow(100_000), Color { r: 76, g: 0, b: 0, a: 83 });
    assert_eq!(glow(333_334), Color { r: 255, g: 0, b: 0, a: 127 });
    assert_eq!(glow(500_000), Color { r: 255, g: 127, b: 0, a: 159 });
    assert_eq!(glow(666_667), Color { r: 255, g: 255, b: 0, a: 191 });
    assert_eq!(glow(900_000), Color { r: 255, g: 255, b: 178, a: 235 });
}

#[test]
fn mapping_twice_gives_the_same_bytes() {
    let mut density: u32 = 0;
    while density <= 1_200_000 {
        assert_eq!(glow(density).to_bytes(), glow(density).to_bytes());
        assert_eq!(glow(density), glow(density));
        density += 7_919;
    }
}

#[test]
fn alpha_is_never_zero() {
    let mut density: u32 = 0;
    while density <= 1_200_000 {
        assert!(glow(density).a >= 64);
        density += 1_013;
    }
    assert!(glow(u32::MAX).a > 0);
}

#[test]
fn a_denser_point_is_never_darker() {
    let mut before = glow(0);
    let mut density: u32 = 0;
    while density <= 1_100_000 {
        let after = glow(density);
        assert!(before.r <= after.r);
        assert!(before.g <= after.g);
        assert!(before.b <= after.b);
        assert!(before.a <= after.a);
        before = after;
        density += 997;
    }
}

#[test]
fn channels_stand_for_numbers_in_the_unit_interval() {
    let color = glow(421_337);
    for byte in color.to_bytes() {
        let value = byte as f32 / 255.0;
        assert!((0.0..=1.0).contains(&value));
    }
    assert!(color.a as f32 / 255.0 > 0.0);
}

#[test]
fn bytes_come_in_rgba_order() {
    let color = Color { r: 1, g: 2, b: 3, a: 4 };
    assert_eq!(color.to_bytes(), [1, 2, 3, 4]);
}
