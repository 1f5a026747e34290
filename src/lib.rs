//! Driver for the HIH6030 humidity and temperature sensor on an I2C bus.
//!
//! The driver sends the trigger command, fetches the four response bytes and
//! decodes them into a status and two 14-bit counts. The counts convert to
//! physical units as exact fractions over [`FULL_SCALE`].
pub mod decode;
pub mod driver;

pub use decode::{Measurement, Status, FULL_SCALE};
pub use driver::{hih6030, Error};
