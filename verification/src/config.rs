//! Per-guild configuration.

pub mod guild;
