//! Valuation inputs.

pub use crate::items::Industry;
