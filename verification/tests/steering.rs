use vehicle_dynamics::control::{ControlInput, KeyState, SteerIntent};
use vehicle_dynamics::steering::{smooth_steer, STEER_DECAY, STEER_RATE};

#[test]
fn rates_are_two_and_one_per_second() {
    assert_eq!(STEER_RATE, 2_000_000);
    assert_eq!(STEER_DECAY, 1_000_000);
}

#[test]
fn held_intent_reaches_full_lock_in_five_ticks_and_stays() {
    let mut steer: i64 = 0;
    let expected: [i64; 7] = [200_000, 400_000, 600_000, 800_000, 1_000_000, 1_000_000, 1_000_000];
    for want in expected.iter() {
        steer = smooth_steer(steer, SteerIntent::Left, 100_000);
        assert_eq!(steer, *want);
        assert!(steer <= 1_000_000);
    }
}

#[test]
fn held_intent_to_the_right_mirrors_the_left() {
    let mut left: i64 = 0;
    let mut right: i64 = 0;
    for _ in 0..8 {
        left = smooth_steer(left, SteerIntent::Left, 70_000);
        right = smooth_steer(right, SteerIntent::Right, 70_000);
        assert_eq!(right, -left);
        assert!(right >= -1_000_000);
    }
    assert_eq!(right, -1_000_000);
}

#[test]
fn released_steering_returns_to_zero_in_one_second_and_stays() {
    let mut steer: i64 = 1_000_000;
    steer = smooth_steer(steer, SteerIntent::Straight, 1_000_000);
    assert_eq!(steer, 0);
    for _ in 0..3 {
        steer = smooth_steer(steer, SteerIntent::Straight, 1_000_000);
        assert_eq!(steer, 0);
    }
}

#[test]
fn released_steering_never_passes_zero() {
    assert_eq!(smooth_steer(300_000, SteerIntent::Straight, 1_000_000), 0);
    assert_eq!(smooth_steer(-300_000, SteerIntent::Straight, 1_000_000), 0);
    assert_eq!(smooth_steer(300_000, SteerIntent::Straight, 100_000), 200_000);
    assert_eq!(smooth_steer(-300_000, SteerIntent::Straight, 100_000), -200_000);
    assert_eq!(smooth_steer(300_000, SteerIntent::Straight, i64::MAX), 0);
    assert_eq!(smooth_steer(-300_000, SteerIntent::Straight, i64::MAX), 0);
}

#[test]
fn intent_against_the_steer_value_turns_it_back() {
    assert_eq!(smooth_steer(1_000_000, SteerIntent::Right, 100_000), 800_000);
    assert_eq!(smooth_steer(-1_000_000, SteerIntent::Left, 600_000), 200_000);
    assert_eq!(smooth_steer(500_000, SteerIntent::Right, i64::MAX), -1_000_000);
}

#[test]
fn no_time_or_negative_time_changes_nothing() {
    for intent in [SteerIntent::Left, SteerIntent::Straight, SteerIntent::Right] {
        for steer in [-1_000_000i64, -1, 0, 250_000, 1_000_000] {
            assert_eq!(smooth_steer(steer, intent, 0), steer);
            assert_eq!(smooth_steer(steer, intent, -5_000_000), steer);
        }
    }
}

#[test]
fn steering_keys_count_only_with_accelerator_or_brake() {
    let keys = |accelerate, decelerate, steer_left, steer_right, ebrake| KeyState {
        accelerate,
        decelerate,
        steer_left,
        steer_right,
        ebrake,
    };
    let parked = ControlInput::from_keys(keys(false, false, true, false, false));
    assert_eq!(parked, ControlInput::idle());
    let held = ControlInput::from_keys(keys(false, false, false, true, true));
    assert_eq!(
        held,
        ControlInput { throttle: false, brake: false, ebrake: true, steer: SteerIntent::Straight }
    );
    let left = ControlInput::from_keys(keys(true, false, true, false, false));
    assert_eq!(left, ControlInput { throttle: true, brake: false, ebrake: false, steer: SteerIntent::Left });
    let right = ControlInput::from_keys(keys(false, true, false, true, false));
    assert_eq!(right, ControlInput { throttle: false, brake: true, ebrake: false, steer: SteerIntent::Right });
    let both = ControlInput::from_keys(keys(true, true, true, true, true));
    assert_eq!(both, ControlInput { throttle: true, brake: true, ebrake: true, steer: SteerIntent::Straight });
    let none = ControlInput::from_keys(keys(true, false, false, false, false));
    assert_eq!(none.steer, SteerIntent::Straight);
}

#[test]
fn mirrored_commands_reverse_the_steering_only() {
    let input = ControlInput { throttle: true, brake: false, ebrake: true, steer: SteerIntent::Left };
    let other = input.mirrored();
    assert_eq!(other, ControlInput { throttle: true, brake: false, ebrake: true, steer: SteerIntent::Right });
    assert_eq!(other.mirrored(), input);
    assert_eq!(SteerIntent::Straight.mirrored(), SteerIntent::Straight);
    assert_eq!(ControlInput::idle().mirrored(), ControlInput::idle());
}
