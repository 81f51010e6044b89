use vehicle_dynamics::fixed::{wide_product, Num, LIMIT, SCALE};
use vehicle_dynamics::root::isqrt;
use vehicle_dynamics::steering::limit;
use vehicle_dynamics::vector::{NumVec2, Vec2};

fn q(raw: i64) -> Num {
    Num::of(raw)
}

#[test]
fn of_keeps_values_in_range_and_drops_the_rest() {
    assert_eq!(q(0).raw, Some(0));
    assert_eq!(q(LIMIT).raw, Some(LIMIT));
    assert_eq!(q(-LIMIT).raw, Some(-LIMIT));
    assert_eq!(q(LIMIT + 1).raw, None);
    assert_eq!(q(-LIMIT - 1).raw, None);
    assert_eq!(q(i64::MIN).raw, None);
    assert_eq!(Num::narrow(LIMIT as i128 * 5).raw, None);
    assert_eq!(Num::narrow(-42).raw, Some(-42));
}

#[test]
fn sums_and_differences_are_exact() {
    assert_eq!(q(1_500_000).plus(q(2_250_000)).raw, Some(3_750_000));
    assert_eq!(q(1_500_000).minus(q(2_250_000)).raw, Some(-750_000));
    assert_eq!(q(LIMIT).plus(q(1)).raw, None);
    assert_eq!(q(-LIMIT).minus(q(1)).raw, None);
    assert_eq!(q(LIMIT).minus(q(LIMIT)).raw, Some(0));
}

#[test]
fn products_round_toward_zero() {
    assert_eq!(q(1_500_000).times(q(2_500_000)).raw, Some(3_750_000));
    assert_eq!(q(-1_500_000).times(q(2_500_000)).raw, Some(-3_750_000));
    assert_eq!(q(1).times(q(999_999)).raw, Some(0));
    assert_eq!(q(-1).times(q(999_999)).raw, Some(0));
    assert_eq!(q(3).times(q(500_000)).raw, Some(1));
    assert_eq!(q(-3).times(q(500_000)).raw, Some(-1));
    assert_eq!(q(LIMIT).times(q(SCALE)).raw, Some(LIMIT));
    assert_eq!(q(LIMIT).times(q(SCALE + 1)).raw, None);
    assert_eq!(q(1_000_000_000_000).times(q(1_000_000_000_000)).raw, Some(LIMIT));
    assert_eq!(q(1_000_000_000_001).times(q(1_000_000_000_000)).raw, None);
}

#[test]
fn quotients_round_toward_zero() {
    assert_eq!(q(1_000_000).over(q(3_000_000)).raw, Some(333_333));
    assert_eq!(q(-1_000_000).over(q(3_000_000)).raw, Some(-333_333));
    assert_eq!(q(1_000_000).over(q(-3_000_000)).raw, Some(-333_333));
    assert_eq!(q(-1_000_000).over(q(-3_000_000)).raw, Some(333_333));
    assert_eq!(q(12_000_000_000).over(q(2_500_000)).raw, Some(4_800_000_000));
    assert_eq!(q(0).over(q(7)).raw, Some(0));
}

#[test]
fn division_by_zero_and_overflow_are_undefined() {
    assert_eq!(q(1_000_000).over(q(0)).raw, None);
    assert_eq!(q(0).over(q(0)).raw, None);
    assert_eq!(q(LIMIT).over(q(1)).raw, None);
    assert_eq!(q(2_000_000_000_000).over(q(1)).raw, None);
    assert_eq!(q(1_000_000_000_000).over(q(1)).raw, Some(LIMIT));
}

#[test]
fn undefined_operands_give_undefined_results() {
    let none = Num { raw: None };
    assert_eq!(none.plus(q(1)).raw, None);
    assert_eq!(q(1).minus(none).raw, None);
    assert_eq!(none.times(q(0)).raw, None);
    assert_eq!(q(0).times(none).raw, None);
    assert_eq!(q(0).over(none).raw, None);
    assert_eq!(none.neg().raw, None);
    assert_eq!(none.abs().raw, None);
    assert_eq!(none.signum().raw, None);
    assert_eq!(none.smaller(q(1)).raw, None);
    assert_eq!(q(1).clamp(none, q(2)).raw, None);
    assert_eq!(q(1).clamp(q(0), none).raw, None);
    assert_eq!(none.sin().raw, None);
    assert_eq!(none.cos().raw, None);
    assert_eq!(none.atan2(q(1)).raw, None);
    assert_eq!(q(1).atan2(none).raw, None);
    assert!(!none.below(q(1)));
    assert!(!q(1).below(none));
    assert!(!none.is_zero());
}

#[test]
fn sign_magnitude_and_order() {
    assert_eq!(q(-7).neg().raw, Some(7));
    assert_eq!(q(-7).abs().raw, Some(7));
    assert_eq!(q(7).abs().raw, Some(7));
    assert_eq!(q(-7).signum().raw, Some(-SCALE));
    assert_eq!(q(7).signum().raw, Some(SCALE));
    assert_eq!(q(0).signum().raw, Some(0));
    assert_eq!(q(3).smaller(q(-4)).raw, Some(-4));
    assert_eq!(q(-4).smaller(q(3)).raw, Some(-4));
    assert!(q(3).below(q(4)));
    assert!(!q(4).below(q(4)));
    assert!(q(0).is_zero());
    assert!(!q(1).is_zero());
}

#[test]
fn clamp_raises_then_lowers() {
    assert_eq!(q(5).clamp(q(-2), q(2)).raw, Some(2));
    assert_eq!(q(-5).clamp(q(-2), q(2)).raw, Some(-2));
    assert_eq!(q(1).clamp(q(-2), q(2)).raw, Some(1));
    // With the bounds crossed the upper bound wins.
    assert_eq!(q(0).clamp(q(2), q(-2)).raw, Some(-2));
    assert_eq!(limit(9, -3, 3), 3);
    assert_eq!(limit(-9, -3, 3), -3);
    assert_eq!(limit(0, 3, -3), -3);
}

#[test]
fn wide_product_is_exact() {
    assert_eq!(wide_product(i64::MAX, i64::MAX), (i64::MAX as i128) * (i64::MAX as i128));
    assert_eq!(wide_product(i64::MIN, i64::MIN), (i64::MIN as i128) * (i64::MIN as i128));
    assert_eq!(wide_product(-3, 7), -21);
}

#[test]
fn integer_square_roots_round_down() {
    assert_eq!(isqrt(0), 0);
    assert_eq!(isqrt(1), 1);
    assert_eq!(isqrt(3), 1);
    assert_eq!(isqrt(4), 2);
    assert_eq!(isqrt(99), 9);
    assert_eq!(isqrt(100), 10);
    assert_eq!(isqrt(1_000_000_000_000), 1_000_000);
    assert_eq!(isqrt(999_999_999_999), 999_999);
    assert_eq!(isqrt(u128::MAX), u64::MAX);
    assert_eq!(isqrt((u64::MAX as u128) * (u64::MAX as u128) - 1), u64::MAX - 1);
}

#[test]
fn isqrt_brackets_its_argument() {
    let mut n: u128 = 1;
    for _ in 0..120 {
        let r = isqrt(n) as u128;
        assert!(r * r <= n);
        assert!((r + 1) * (r + 1) > n);
        n = n * 2 + 1;
    }
}

#[test]
fn length_of_vectors() {
    let v = NumVec2::of(Vec2 { x: 3_000_000, y: -4_000_000 });
    assert_eq!(v.length().raw, Some(5_000_000));
    let w = NumVec2::of(Vec2 { x: 20_000_000, y: 1_000_000 });
    assert_eq!(w.length().raw, Some(20_024_984));
    assert_eq!(NumVec2::of(Vec2::zero()).length().raw, Some(0));
    // The diagonal of the largest square leaves the range.
    assert_eq!(NumVec2::of(Vec2 { x: LIMIT, y: LIMIT }).length().raw, None);
    assert_eq!(NumVec2::of(Vec2 { x: LIMIT, y: 0 }).length().raw, Some(LIMIT));
    assert_eq!(NumVec2 { x: Num { raw: None }, y: Num::of(1) }.length().raw, None);
}

#[test]
fn frames_turn_with_the_heading() {
    let v = NumVec2::of(Vec2 { x: 20_000_000, y: 1_000_000 });
    let local = v.to_local(Num::of(300_000));
    assert_eq!(local.x.raw, Some(19_402_240));
    assert_eq!(local.y.raw, Some(-4_955_064));
    let same = v.to_local(Num::of(0));
    assert_eq!((same.x.raw, same.y.raw), (Some(20_000_000), Some(1_000_000)));
    let back = v.to_world(Num::of(0));
    assert_eq!((back.x.raw, back.y.raw), (Some(20_000_000), Some(1_000_000)));
    // A quarter turn to the left: what lies ahead of the car lies along the world's y axis.
    let ahead = NumVec2::of(Vec2 { x: 1_000_000, y: 0 }).to_world(Num::of(1_570_796));
    assert_eq!((ahead.x.raw, ahead.y.raw), (Some(0), Some(1_000_000)));
    let sum = v.plus(NumVec2::of(Vec2 { x: -1, y: 1 }));
    assert_eq!((sum.x.raw, sum.y.raw), (Some(19_999_999), Some(1_000_001)));
}
