//! Battery telemetry as the operating system exports it — one `KEY=VALUE`
//! attribute per line — turned into a typed, unit-normalised record, and
//! that record rendered for a console and for a comma-separated log.

pub mod attribute;
pub mod charge;
pub mod clock;
pub mod decimal;
pub mod error;
pub mod extract;
pub mod laws;
pub mod quantity;
pub mod status;
pub mod text;

pub use crate::attribute::Attribute;
pub use crate::charge::ChargeState;
pub use crate::error::{Failure, ParseError};
pub use crate::extract::extract_value_for;
pub use crate::quantity::Quantity;
pub use crate::status::BatteryStatus;
