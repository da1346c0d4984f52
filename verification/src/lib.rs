//! Parsing, validation and re-emission of pulsar timing files: the parameter
//! file (`.par`) and the times-of-arrival file (`.tim`).
//!
//! Numbers are held exactly, as the decimal numerals that the files spell,
//! and every function states what it returns over the characters it is given.

pub mod text;
pub mod parse_tools;
pub mod error;
pub mod data_types;
pub mod parfile;
pub mod timfile;
