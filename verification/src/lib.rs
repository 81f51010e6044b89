//! A two-dimensional rigid-body model of a car, advanced one tick at a time.
//!
//! A [`vehicle::Vehicle`] is a fixed [`config::VehicleConfig`] and a moving
//! [`state::VehicleState`]. Each tick takes the driver's
//! [`control::ControlInput`] and the elapsed time and gives the next state:
//! the steer value is smoothed ([`steering`]), the loads on the axles and the
//! slip of the tires give the lateral forces ([`tire`]), engine, brakes and
//! drag give the force along the car ([`drive`]), and the forces are
//! integrated into velocity, yaw rate, heading and position ([`dynamics`]).
//! A car that has become slow without throttle is brought to a full stop.
//!
//! All quantities are decimal fixed-point numbers with six places
//! ([`fixed`]); square roots ([`root`]) and the trigonometric functions
//! ([`trig`]) are computed on integers, the latter by power series whose
//! distance from the exact polynomials is bounded in [`taylor`]. A tick in
//! which a quantity would leave the range of these numbers is refused and
//! leaves the state as it was.
//!
//! What holds of the model as a whole is proved in [`standstill`],
//! [`straight`] and [`mirror`].
pub mod config;
pub mod control;
pub mod drive;
pub mod dynamics;
pub mod fixed;
pub mod mirror;
pub mod player;
pub mod root;
pub mod standstill;
pub mod state;
pub mod steering;
pub mod taylor;
pub mod straight;
pub mod tire;
pub mod trig;
pub mod vector;
pub mod vehicle;
