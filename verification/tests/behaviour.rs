use vehicle_dynamics::config::VehicleConfig;
use vehicle_dynamics::control::{ControlInput, SteerIntent};
use vehicle_dynamics::dynamics::{update, TickError};
use vehicle_dynamics::mirror::flipped;
use vehicle_dynamics::state::VehicleState;
use vehicle_dynamics::vector::Vec2;
use vehicle_dynamics::vehicle::Vehicle;

fn standard() -> VehicleConfig {
    Vehicle::default().config
}

fn heavy() -> VehicleConfig {
    let mut p = standard().params();
    p.mass = 10_000_000_000;
    VehicleConfig::new(&p).unwrap()
}

fn commands(throttle: bool, brake: bool, ebrake: bool, steer: SteerIntent) -> ControlInput {
    ControlInput { throttle, brake, ebrake, steer }
}

fn moving() -> VehicleState {
    VehicleState {
        heading: 300_000,
        position: Vec2 { x: 5_000_000, y: -3_000_000 },
        velocity: Vec2 { x: 20_000_000, y: 1_000_000 },
        local_velocity: Vec2 { x: 0, y: 0 },
        acceleration: Vec2 { x: 0, y: 0 },
        local_acceleration: Vec2 { x: 0, y: 0 },
        absolute_velocity: 20_024_984,
        yaw_rate: 100_000,
        steer: 500_000,
        steer_angle: 0,
    }
}

#[test]
fn a_car_at_rest_stays_at_rest() {
    for c in [standard(), heavy()] {
        let start = VehicleState::standing(1_234_567, Vec2 { x: 40_000_000, y: -70_000_000 });
        let mut s = start;
        for dt in [0i64, 1, 16_000, 100_000, 1_000_000, 3_600_000_000] {
            assert_eq!(update(&c, &mut s, ControlInput::idle(), dt), Ok(()));
            assert_eq!(s, start);
        }
    }
}

#[test]
fn brakes_do_not_move_a_car_at_rest() {
    let start = VehicleState::standing(-2_000_000, Vec2 { x: 1, y: 2 });
    let mut s = start;
    for _ in 0..20 {
        assert_eq!(update(&standard(), &mut s, commands(false, true, true, SteerIntent::Straight), 16_000), Ok(()));
        assert_eq!(s, start);
    }
}

#[test]
fn rest_forgets_what_the_last_tick_left_behind() {
    let mut s = VehicleState::standing(500_000, Vec2 { x: 3, y: 4 });
    s.local_velocity = Vec2 { x: 7_000_000, y: -1_000_000 };
    s.acceleration = Vec2 { x: 1_000_000, y: 1_000_000 };
    s.local_acceleration = Vec2 { x: -3_000_000, y: 2_000_000 };
    s.steer_angle = 100_000;
    assert_eq!(update(&standard(), &mut s, ControlInput::idle(), 16_000), Ok(()));
    assert_eq!(s, VehicleState::standing(500_000, Vec2 { x: 3, y: 4 }));
}

#[test]
fn rest_is_kept_even_where_the_tick_is_refused() {
    let mut p = standard().params();
    p.mass = 1_000_000_000_000_000_000;
    let c = VehicleConfig::new(&p).unwrap();
    let start = VehicleState::standing(0, Vec2::zero());
    let mut s = start;
    assert_eq!(update(&c, &mut s, ControlInput::idle(), 16_000), Err(TickError::OutOfRange));
    assert_eq!(s, start);
}

#[test]
fn no_time_moves_neither_car_nor_steering() {
    let c = heavy();
    let start = moving();
    for steer in [SteerIntent::Left, SteerIntent::Straight, SteerIntent::Right] {
        let mut s = start;
        assert_eq!(update(&c, &mut s, commands(true, false, false, steer), 0), Ok(()));
        assert_eq!(s.position, start.position);
        assert_eq!(s.steer, start.steer);
        assert_eq!(s.yaw_rate, start.yaw_rate);
        // The heading takes up the yaw rate and the velocity the acceleration all the same.
        assert_eq!(s.heading, start.heading + start.yaw_rate);
        assert_eq!(s.velocity, Vec2 { x: 15_956_767, y: 16_406_778 });
        assert_eq!(s.local_acceleration, Vec2 { x: 690_366, y: 15_913_524 });
        assert_eq!(s.steer_angle, 300_000);
    }
}

#[test]
fn no_time_still_lets_the_engine_push() {
    let mut s = Vehicle::default().state;
    assert_eq!(update(&standard(), &mut s, commands(true, false, false, SteerIntent::Straight), 0), Ok(()));
    assert_eq!(s.velocity, Vec2 { x: 800_000_000, y: 0 });
    assert_eq!(s.position, Vec2 { x: 0, y: 0 });
    assert_eq!(s.heading, 0);
}

#[test]
fn full_throttle_on_a_heavy_car_approaches_the_terminal_speed() {
    let c = heavy();
    let mut s = Vehicle::default().state;
    let input = commands(true, false, false, SteerIntent::Straight);
    let first: [i64; 3] = [800_000, 1_599_200, 2_397_281];
    let mut last: i64 = 0;
    for tick in 0..350 {
        assert_eq!(update(&c, &mut s, input, 100_000), Ok(()));
        if tick < 3 {
            assert_eq!(s.velocity.x, first[tick]);
        }
        assert!(s.velocity.x > last);
        assert_eq!(s.local_velocity.x, last);
        // Never beyond the speed at which drag balances the engine, just under 55.
        assert!(s.velocity.x < 54_991_200);
        assert_eq!((s.velocity.y, s.heading, s.yaw_rate, s.steer), (0, 0, 0, 0));
        assert_eq!(s.absolute_velocity, s.velocity.x);
        last = s.velocity.x;
    }
    assert_eq!(last, 54_986_422);
    // Close to the balance the speed creeps up by ever smaller steps and then stays.
    let mut steps: u32 = 0;
    loop {
        let before = s.velocity.x;
        assert_eq!(update(&c, &mut s, input, 100_000), Ok(()));
        assert!(s.velocity.x >= before);
        if s.velocity.x == before {
            break;
        }
        steps += 1;
        assert!(steps < 10_000);
    }
    assert_eq!(s.velocity.x, 54_991_131);
    assert_eq!(steps, 192);
}

#[test]
fn mirrored_cars_drive_mirrored_paths() {
    let c = heavy();
    let script = [
        (commands(true, false, false, SteerIntent::Left), 16_000i64),
        (commands(true, false, false, SteerIntent::Left), 16_000),
        (commands(true, false, true, SteerIntent::Left), 33_000),
        (commands(false, true, false, SteerIntent::Right), 16_000),
        (commands(false, false, false, SteerIntent::Straight), 50_000),
        (commands(true, true, false, SteerIntent::Right), 16_000),
        (commands(false, false, true, SteerIntent::Straight), 16_000),
        (commands(true, false, false, SteerIntent::Left), 0),
    ];
    let mut start = VehicleState::standing(0, Vec2::zero());
    start.velocity = Vec2 { x: 12_000_000, y: 2_500_000 };
    start.absolute_velocity = 12_257_650;
    let mut car = start;
    let mut twin = start;
    twin.velocity.y = -2_500_000;
    assert_eq!(twin, start.mirrored());
    let mut turned = false;
    for (input, dt) in script.iter() {
        let a = update(&c, &mut car, *input, *dt);
        let b = update(&c, &mut twin, input.mirrored(), *dt);
        assert_eq!(a, Ok(()));
        assert_eq!(b, Ok(()));
        assert_eq!(twin, car.mirrored());
        assert_eq!(twin.heading, -car.heading);
        assert_eq!(twin.yaw_rate, -car.yaw_rate);
        assert_eq!(twin.steer, -car.steer);
        assert_eq!(twin.velocity, Vec2 { x: car.velocity.x, y: -car.velocity.y });
        assert_eq!(twin.local_velocity, Vec2 { x: car.local_velocity.x, y: -car.local_velocity.y });
        assert_eq!(twin.position, Vec2 { x: -car.position.x, y: -car.position.y });
        assert_eq!(twin.absolute_velocity, car.absolute_velocity);
        turned = turned || car.heading != 0;
    }
    assert!(turned);
}

#[test]
fn mirrored_cars_are_refused_together() {
    let c = standard();
    let mut car = moving();
    let mut twin = moving().mirrored();
    let input = commands(true, false, false, SteerIntent::Right);
    let mut refused = false;
    for _ in 0..10 {
        let a = update(&c, &mut car, input, 16_000);
        let b = update(&c, &mut twin, input.mirrored(), 16_000);
        assert_eq!(a, b);
        assert_eq!(twin, car.mirrored());
        refused = refused || a == Err(TickError::OutOfRange);
    }
    assert!(refused);
}

#[test]
fn mirroring_twice_gives_the_state_back() {
    let s = moving();
    let m = s.mirrored();
    assert_eq!(m.heading, -300_000);
    assert_eq!(m.position, Vec2 { x: -5_000_000, y: 3_000_000 });
    assert_eq!(m.velocity, Vec2 { x: 20_000_000, y: -1_000_000 });
    assert_eq!((m.yaw_rate, m.steer, m.absolute_velocity), (-100_000, -500_000, 20_024_984));
    assert_eq!(m.mirrored(), s);
    assert_eq!(flipped(5), -5);
    assert_eq!(flipped(i64::MIN), i64::MAX);
    assert_eq!(Vec2 { x: 1, y: 2 }.mirrored(), Vec2 { x: 1, y: -2 });
    assert_eq!(Vec2 { x: 1, y: 2 }.reversed(), Vec2 { x: -1, y: -2 });
}

#[test]
fn a_slow_car_without_throttle_is_stopped() {
    // Little grip, so that the tires do not push the car beyond the limit.
    let mut c = standard();
    c.tire_grip = 10;
    let mut s = VehicleState::standing(0, Vec2 { x: 9_000_000, y: -9_000_000 });
    s.velocity = Vec2 { x: 400_000, y: 0 };
    s.absolute_velocity = 400_000;
    s.yaw_rate = 50_000;
    assert_eq!(update(&c, &mut s, ControlInput::idle(), 16_000), Ok(()));
    assert_eq!(s.velocity, Vec2 { x: 0, y: 0 });
    assert_eq!(s.absolute_velocity, 0);
    assert_eq!(s.yaw_rate, 0);
    assert_eq!(s.heading, 0);
    assert_eq!(s.position, Vec2 { x: 9_000_000, y: -9_000_000 });
    // What the tick found before it stopped the car is still on record.
    assert_eq!(s.local_velocity, Vec2 { x: 400_000, y: 0 });
    assert_eq!(s.local_acceleration, Vec2 { x: -360_000, y: 0 });
}

#[test]
fn throttle_keeps_a_slow_car_going() {
    let mut c = standard();
    c.tire_grip = 10;
    let mut s = VehicleState::standing(0, Vec2::zero());
    s.velocity = Vec2 { x: 400_000, y: 0 };
    s.absolute_velocity = 400_000;
    s.yaw_rate = 50_000;
    assert_eq!(update(&c, &mut s, commands(true, false, false, SteerIntent::Straight), 16_000), Ok(()));
    assert_eq!(s.velocity, Vec2 { x: 800_040_000, y: 0 });
    assert_eq!(s.yaw_rate, 49_999);
    assert_eq!(s.heading, 49_999);
    assert_eq!(s.position, Vec2 { x: -639_750, y: 0 });
}

#[test]
fn a_car_pushed_beyond_the_limit_is_not_stopped() {
    // With the grip of the standard car the tires take the slow car beyond the limit.
    let c = heavy();
    let mut s = VehicleState::standing(1_000_000, Vec2 { x: 1, y: 2 });
    s.velocity = Vec2 { x: 400_000, y: 0 };
    s.absolute_velocity = 400_000;
    s.yaw_rate = 50_000;
    assert_eq!(update(&c, &mut s, ControlInput::idle(), 16_000), Ok(()));
    assert_eq!(s.velocity, Vec2 { x: -16_110_009, y: 10_600_731 });
    assert_eq!(s.absolute_velocity, 19_284_913);
    assert_eq!(s.yaw_rate, 50_000);
    assert_eq!(s.heading, 1_050_000);
    assert_eq!(s.position, Vec2 { x: 223_588, y: 84_395 });
}

#[test]
fn the_steer_value_never_leaves_its_range() {
    let c = heavy();
    let mut s = Vehicle::default().state;
    for tick in 0..40 {
        let steer = if tick < 25 { SteerIntent::Right } else { SteerIntent::Left };
        let r = update(&c, &mut s, commands(true, false, false, steer), 50_000);
        assert!(s.steer >= -1_000_000 && s.steer <= 1_000_000);
        assert!(s.is_valid());
        if r.is_ok() && tick == 9 {
            assert_eq!(s.steer, -1_000_000);
            assert_eq!(s.steer_angle, -600_000);
        }
    }
}
