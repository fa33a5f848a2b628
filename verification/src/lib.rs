//! Display pipeline for the HBee sensor device.
//!
//! The crate models the device core: exclusive acquisition of the display
//! peripherals, bring-up of the panel controller over a synchronous serial
//! bus, the line-oriented rendering bridge that turns scanlines into bounded
//! bus writes, the sensor data model shown on screen, and the fault-driven
//! restart supervisor that wraps the whole lifecycle.

pub mod consts;
pub mod display;
pub mod supervisor;
pub mod thingsup;
pub mod types;
pub mod ui;
