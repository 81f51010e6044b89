use vehicle_dynamics::config::{within, ConfigError, VehicleConfig, VehicleParams};
use vehicle_dynamics::fixed::LIMIT;
use vehicle_dynamics::state::VehicleState;
use vehicle_dynamics::vector::Vec2;
use vehicle_dynamics::vehicle::Vehicle;

fn standard_params() -> VehicleParams {
    VehicleParams {
        gravity: 9_810_000,
        mass: 10_000_000,
        center_to_front_axle: 1_250_000,
        center_to_rear_axle: 1_250_000,
        center_height: 550_000,
        tire_grip: 2_000_000,
        lock_grip: 700_000,
        engine_force: 8_000_000_000,
        brake_force: 12_000_000_000,
        ebrake_force: 4_800_000_000,
        weight_transfer: 200_000,
        max_steer: 600_000,
        corner_stiffness_front: 5_000_000,
        corner_stiffness_rear: 5_200_000,
        air_resistance: 2_500_000,
        roll_resistance: 8_000_000,
    }
}

#[test]
fn default_vehicle_is_the_standard_car_at_rest() {
    let car = Vehicle::default();
    let c = car.config;
    assert_eq!(c.gravity, 9_810_000);
    assert_eq!(c.mass, 10_000_000);
    assert_eq!(c.inertia, 10_000_000);
    assert_eq!(c.center_to_front_axle, 1_250_000);
    assert_eq!(c.center_to_rear_axle, 1_250_000);
    assert_eq!(c.wheel_base, 2_500_000);
    assert_eq!(c.axle_weight_ratio_front, 500_000);
    assert_eq!(c.axle_weight_ratio_rear, 500_000);
    assert_eq!(c.center_height, 550_000);
    assert_eq!(c.tire_grip, 2_000_000);
    assert_eq!(c.lock_grip, 700_000);
    assert_eq!(c.engine_force, 8_000_000_000);
    assert_eq!(c.brake_force, 12_000_000_000);
    assert_eq!(c.ebrake_force, 4_800_000_000);
    assert_eq!(c.weight_transfer, 200_000);
    assert_eq!(c.max_steer, 600_000);
    assert_eq!(c.corner_stiffness_front, 5_000_000);
    assert_eq!(c.corner_stiffness_rear, 5_200_000);
    assert_eq!(c.air_resistance, 2_500_000);
    assert_eq!(c.roll_resistance, 8_000_000);
    assert!(c.is_valid());
    assert_eq!(car.state, VehicleState::standing(0, Vec2::zero()));
    assert!(car.state.is_valid());
    let s = car.state;
    assert_eq!((s.heading, s.yaw_rate, s.steer, s.steer_angle, s.absolute_velocity), (0, 0, 0, 0, 0));
    assert_eq!(s.velocity, Vec2 { x: 0, y: 0 });
    assert_eq!(s.position, Vec2 { x: 0, y: 0 });
}

#[test]
fn standard_parameters_build_the_standard_configuration() {
    let built = VehicleConfig::new(&standard_params());
    assert_eq!(built, Ok(Vehicle::default().config));
    assert_eq!(Vehicle::default().config.params(), standard_params());
}

#[test]
fn weight_shares_follow_the_axle_distances() {
    let mut p = standard_params();
    p.center_to_front_axle = 1_000_000;
    p.center_to_rear_axle = 2_000_000;
    let c = VehicleConfig::new(&p).unwrap();
    assert_eq!(c.wheel_base, 3_000_000);
    assert_eq!(c.axle_weight_ratio_front, 666_666);
    assert_eq!(c.axle_weight_ratio_rear, 333_333);
    assert_eq!(c.inertia, c.mass);
    p.center_to_front_axle = 0;
    let c = VehicleConfig::new(&p).unwrap();
    assert_eq!((c.axle_weight_ratio_front, c.axle_weight_ratio_rear), (1_000_000, 0));
}

#[test]
fn a_parameter_out_of_range_is_refused() {
    let mut p = standard_params();
    p.engine_force = LIMIT + 1;
    assert_eq!(VehicleConfig::new(&p), Err(ConfigError::OutOfRange));
    let mut p = standard_params();
    p.roll_resistance = i64::MIN;
    assert_eq!(VehicleConfig::new(&p), Err(ConfigError::OutOfRange));
    // Out of range is told before a negative value or a zero mass.
    let mut p = standard_params();
    p.mass = 0;
    p.gravity = -1;
    p.brake_force = -LIMIT - 1;
    assert_eq!(VehicleConfig::new(&p), Err(ConfigError::OutOfRange));
}

#[test]
fn a_wheel_base_out_of_range_is_refused() {
    let mut p = standard_params();
    p.center_to_front_axle = LIMIT;
    p.center_to_rear_axle = 1;
    assert_eq!(VehicleConfig::new(&p), Err(ConfigError::OutOfRange));
    p.center_to_rear_axle = 0;
    assert!(VehicleConfig::new(&p).is_ok());
}

#[test]
fn a_negative_coefficient_is_refused() {
    let fields: [fn(&mut VehicleParams); 13] = [
        |p| p.gravity = -1,
        |p| p.mass = -1,
        |p| p.center_to_front_axle = -1,
        |p| p.center_to_rear_axle = -1,
        |p| p.center_height = -1,
        |p| p.tire_grip = -1,
        |p| p.lock_grip = -1,
        |p| p.weight_transfer = -1,
        |p| p.max_steer = -1,
        |p| p.corner_stiffness_front = -1,
        |p| p.corner_stiffness_rear = -1,
        |p| p.air_resistance = -1,
        |p| p.roll_resistance = -1,
    ];
    for set in fields.iter() {
        let mut p = standard_params();
        set(&mut p);
        assert_eq!(VehicleConfig::new(&p), Err(ConfigError::Negative));
    }
    // Negative is told before a zero wheel base.
    let mut p = standard_params();
    p.center_to_front_axle = 0;
    p.center_to_rear_axle = 0;
    p.lock_grip = -5;
    assert_eq!(VehicleConfig::new(&p), Err(ConfigError::Negative));
}

#[test]
fn forces_may_be_negative() {
    let mut p = standard_params();
    p.engine_force = -8_000_000_000;
    p.brake_force = -1;
    p.ebrake_force = -LIMIT;
    assert!(VehicleConfig::new(&p).is_ok());
}

#[test]
fn a_zero_mass_is_refused() {
    let mut p = standard_params();
    p.mass = 0;
    assert_eq!(VehicleConfig::new(&p), Err(ConfigError::ZeroMass));
    p.center_to_front_axle = 0;
    p.center_to_rear_axle = 0;
    assert_eq!(VehicleConfig::new(&p), Err(ConfigError::ZeroMass));
}

#[test]
fn a_zero_wheel_base_is_refused() {
    let mut p = standard_params();
    p.center_to_front_axle = 0;
    p.center_to_rear_axle = 0;
    assert_eq!(VehicleConfig::new(&p), Err(ConfigError::ZeroWheelBase));
}

#[test]
fn a_derived_field_that_does_not_fit_is_told() {
    let good = Vehicle::default().config;
    assert!(good.is_valid());
    let mut c = good;
    c.wheel_base = 2_400_000;
    assert!(!c.is_valid());
    let mut c = good;
    c.axle_weight_ratio_front = 600_000;
    assert!(!c.is_valid());
    let mut c = good;
    c.inertia = 1;
    assert!(!c.is_valid());
    let mut c = good;
    c.mass = 0;
    c.inertia = 0;
    assert!(!c.is_valid());
    let mut c = good;
    c.tire_grip = -1;
    assert!(!c.is_valid());
}

#[test]
fn a_valid_state_bounds_every_field_and_the_steer_value() {
    let good = VehicleState::standing(1_000_000, Vec2 { x: -5, y: LIMIT });
    assert!(good.is_valid());
    let edits: [fn(&mut VehicleState); 17] = [
        |s| s.heading = LIMIT + 1,
        |s| s.position.x = -LIMIT - 1,
        |s| s.position.y = LIMIT + 1,
        |s| s.velocity.x = LIMIT + 1,
        |s| s.velocity.y = i64::MIN,
        |s| s.local_velocity.x = i64::MAX,
        |s| s.local_velocity.y = LIMIT + 1,
        |s| s.acceleration.x = LIMIT + 1,
        |s| s.acceleration.y = LIMIT + 1,
        |s| s.local_acceleration.x = LIMIT + 1,
        |s| s.local_acceleration.y = LIMIT + 1,
        |s| s.absolute_velocity = LIMIT + 1,
        |s| s.yaw_rate = LIMIT + 1,
        |s| s.steer = 1_000_001,
        |s| s.steer = -1_000_001,
        |s| s.steer_angle = LIMIT + 1,
        |s| s.steer_angle = -LIMIT - 1,
    ];
    for edit in edits.iter() {
        let mut s = good;
        edit(&mut s);
        assert!(!s.is_valid());
    }
    let mut s = good;
    s.steer = -1_000_000;
    s.heading = -LIMIT;
    assert!(s.is_valid());
}

#[test]
fn within_is_the_range_of_quantities() {
    assert!(within(0));
    assert!(within(LIMIT));
    assert!(within(-LIMIT));
    assert!(!within(LIMIT + 1));
    assert!(!within(-LIMIT - 1));
}
