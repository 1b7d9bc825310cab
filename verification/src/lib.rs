//! A one-shot health probe for a locally running service.
//!
//! Connection parameters arrive as environment-style key/value strings and
//! are resolved into a validated configuration; a single probe outcome is
//! classified into a health state; the final verdict maps to a process exit
//! code. All of that decision logic lives here, verified; the surrounding
//! binary only performs the network round trip.

pub mod configuration;
pub mod health_checker;
pub mod system;
pub mod text;
pub mod toxiproxy;
