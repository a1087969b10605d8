use ball_in_a_box::fx::Fx;
use ball_in_a_box::vec2::Vec2;

fn units(u: i64) -> Fx {
    Fx::from_units(u)
}

#[test]
fn from_units_scales_and_saturates() {
    assert_eq!(units(3).raw, 3_000_000);
    assert_eq!(units(-2).raw, -2_000_000);
    assert_eq!(Fx::from_units(10_000_000_000_000).raw, i64::MAX);
    assert_eq!(Fx::from_units(-10_000_000_000_000).raw, i64::MIN);
}

#[test]
fn add_sub_saturate_at_the_ends() {
    assert_eq!(Fx { raw: i64::MAX }.add(Fx { raw: 1 }).raw, i64::MAX);
    assert_eq!(Fx { raw: i64::MIN }.sub(Fx { raw: 1 }).raw, i64::MIN);
    assert_eq!(Fx { raw: 5 }.add(Fx { raw: -7 }).raw, -2);
    assert_eq!(Fx { raw: i64::MIN }.neg().raw, i64::MAX);
    assert_eq!(Fx { raw: -41 }.neg().raw, 41);
}

#[test]
fn mul_truncates_toward_zero() {
    assert_eq!(units(3).mul(Fx { raw: 500_000 }).raw, 1_500_000);
    assert_eq!(Fx { raw: 1 }.mul(Fx { raw: 1 }).raw, 0);
    assert_eq!(Fx { raw: -1 }.mul(Fx { raw: 1 }).raw, 0);
    assert_eq!(units(-3).mul(Fx { raw: 500_000 }).raw, -1_500_000);
}

#[test]
fn div_truncates_toward_zero() {
    assert_eq!(units(1).div(units(3)).raw, 333_333);
    assert_eq!(units(-1).div(units(3)).raw, -333_333);
    assert_eq!(units(1).div(units(-3)).raw, -333_333);
}

#[test]
fn lerp_walks_the_segment() {
    assert_eq!(units(0).lerp(units(10), Fx { raw: 250_000 }).raw, 2_500_000);
    assert_eq!(units(4).lerp(units(8), Fx { raw: 1_000_000 }).raw, 8_000_000);
    assert_eq!(units(4).lerp(units(8), Fx { raw: 0 }).raw, 4_000_000);
}

#[test]
fn min_max_abs_clamp() {
    assert_eq!(units(2).min(units(-3)).raw, -3_000_000);
    assert_eq!(units(2).max(units(-3)).raw, 2_000_000);
    assert_eq!(units(-7).abs().raw, 7_000_000);
    assert_eq!(units(9).clamp(units(-1), units(4)).raw, 4_000_000);
    assert_eq!(units(-9).clamp(units(-1), units(4)).raw, -1_000_000);
}

#[test]
fn sqrt_is_the_floor_root() {
    assert_eq!(units(4).sqrt().raw, 2_000_000);
    assert_eq!(Fx { raw: 2_000_000 }.sqrt().raw, 1_414_213);
    assert_eq!(Fx { raw: 0 }.sqrt().raw, 0);
}

#[test]
fn vector_length_is_exact_on_a_pythagorean_triple() {
    let v = Vec2::new(units(3), units(4));
    assert_eq!(v.length().raw, 5_000_000);
}

#[test]
fn clamp_length_rescales_both_axes() {
    let v = Vec2::new(units(3), units(4));
    let c = v.clamp_length(Fx { raw: 2_500_000 });
    assert_eq!(c.x.raw, 1_500_000);
    assert_eq!(c.y.raw, 2_000_000);
    let untouched = v.clamp_length(units(6));
    assert_eq!(untouched, v);
}
