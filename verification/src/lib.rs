//! Verified core of the ForzaLife Linux companion: telemetry decoding, the
//! overlay's menu and key handling, and the throttle-limiting rules used while
//! a car has run out of fuel.

pub mod controls;
pub mod driving;
pub mod input_proxy;
pub mod keys;
pub mod locations;
pub mod malfunctions;
pub mod menu;
pub mod telemetry;
pub mod text;
pub mod vehicle;
