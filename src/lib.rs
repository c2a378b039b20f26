//! A single linear unit trained online by error correction.

pub mod scalar;
pub mod unit;
pub mod facts;
pub mod front;
pub mod integer;
