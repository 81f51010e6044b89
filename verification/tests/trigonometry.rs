use vehicle_dynamics::trig::{atan2, cos, sin};

#[test]
fn sine_and_cosine_landmarks() {
    assert_eq!(sin(0), 0);
    assert_eq!(cos(0), 1_000_000);
    assert_eq!(sin(1_570_796), 1_000_000);
    assert_eq!(cos(1_570_796), 0);
    assert_eq!(sin(3_141_593), 0);
    assert_eq!(cos(3_141_593), -1_000_000);
    assert_eq!(sin(-1_570_796), -1_000_000);
    assert_eq!(sin(785_398), 707_107);
    assert_eq!(cos(785_398), 707_107);
    assert_eq!(sin(600_000), 564_642);
    assert_eq!(cos(600_000), 825_336);
    assert_eq!(sin(523_599), 500_000);
    assert_eq!(cos(1_047_198), 500_000);
    assert_eq!(sin(1), 1);
}

#[test]
fn sine_and_cosine_follow_the_real_functions() {
    let mut x: i64 = -20_000_000;
    while x <= 20_000_000 {
        let angle = x as f64 / 1e6;
        let s = sin(x) as f64;
        let c = cos(x) as f64;
        assert!((s - angle.sin() * 1e6).abs() <= 1.0, "sin({}) = {}", x, s);
        assert!((c - angle.cos() * 1e6).abs() <= 1.0, "cos({}) = {}", x, c);
        x += 7_919;
    }
}

#[test]
fn sine_is_odd_and_cosine_is_even() {
    let mut x: i64 = 0;
    while x <= 40_000_000 {
        assert_eq!(sin(-x), -sin(x));
        assert_eq!(cos(-x), cos(x));
        x += 104_729;
    }
}

#[test]
fn sine_and_cosine_stay_within_one() {
    for x in [i64::MIN, i64::MIN + 1, -1_000_000_000_000_000_000, 1_000_000_000_000_000_000, i64::MAX] {
        assert!(sin(x).abs() <= 1_000_000);
        assert!(cos(x).abs() <= 1_000_000);
    }
    assert_eq!(sin(i64::MIN + 1), -sin(i64::MAX));
}

#[test]
fn sine_and_cosine_have_the_period_of_a_turn() {
    // One thousand turns are 6283.185307 radians.
    let turns: i64 = 6_283_185_307;
    for x in [0i64, 250_000, 1_000_000, 2_000_000, 4_000_000] {
        assert!((sin(x + turns) - sin(x)).abs() <= 1);
        assert!((cos(x + turns) - cos(x)).abs() <= 1);
    }
}

#[test]
fn arctangent_landmarks() {
    assert_eq!(atan2(0, 0), 0);
    assert_eq!(atan2(0, 1), 0);
    assert_eq!(atan2(0, 5_000_000), 0);
    assert_eq!(atan2(1, 0), 1_570_796);
    assert_eq!(atan2(-1, 0), -1_570_796);
    assert_eq!(atan2(0, -1), 3_141_593);
    assert_eq!(atan2(1, 1), 785_398);
    assert_eq!(atan2(-1, 1), -785_398);
    assert_eq!(atan2(1, -1), 2_356_194);
    assert_eq!(atan2(-1, -1), -2_356_194);
    assert_eq!(atan2(1_000_000, 1_732_051), 523_599);
    assert_eq!(atan2(62_500, 400_000), 154_997);
}

#[test]
fn arctangent_follows_the_real_function() {
    let steps: [i64; 9] = [-1_000_000_000, -31_415_926, -1_000_000, -577, 0, 3, 414_214, 2_718_281, 800_000_000];
    for &y in steps.iter() {
        for &x in steps.iter() {
            if x == 0 && y == 0 {
                continue;
            }
            let expected = (y as f64).atan2(x as f64) * 1e6;
            let got = atan2(y, x) as f64;
            assert!((got - expected).abs() <= 1.0, "atan2({}, {}) = {}", y, x, got);
        }
    }
}

#[test]
fn arctangent_is_odd_in_the_ordinate() {
    for &x in [0i64, 1, 999, 1_000_000, i64::MAX].iter() {
        for &y in [0i64, 1, 5, 414_213, 1_000_000, 77_000_000, i64::MAX].iter() {
            assert_eq!(atan2(-y, x), -atan2(y, x));
        }
    }
    assert_eq!(atan2(-3, -4), -atan2(3, -4));
}

#[test]
fn arctangent_takes_the_widest_arguments() {
    assert_eq!(atan2(i64::MAX, i64::MAX), 785_398);
    assert_eq!(atan2(i64::MIN, i64::MIN), -2_356_194);
    assert_eq!(atan2(i64::MIN, 0), -1_570_796);
    assert_eq!(atan2(1, i64::MAX), 0);
    assert_eq!(atan2(1, i64::MIN), 3_141_593);
}
