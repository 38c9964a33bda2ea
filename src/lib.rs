//! Validated weather domain values and the conversion of a weather service's
//! readings into them.

pub mod bridge;
pub mod error;
pub mod text;
pub mod types;
pub mod models;
pub mod display;
pub mod request;
