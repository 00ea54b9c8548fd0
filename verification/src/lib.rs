//! Surplus-power charging control: smoothing of meter samples, assembly and
//! decoding of meter frames, and the decisions that throttle the charger.

pub mod apdu;
pub mod assembler;
pub mod average;
pub mod charger;
pub mod control;
pub mod decoder;
pub mod envelope;
pub mod error;
pub mod frame;
pub mod json;
pub mod reading;
pub mod session;
pub mod status;

pub use average::RunningAverage;
pub use error::Error;
pub use status::{ChargingStatus, GoEStatus};
