//! A unified error value for a command-line application: an optional rich
//! cause (a message plus the messages of its underlying causes) together
//! with a process exit code, conversions from the two upstream error kinds,
//! and a verified rendering of the diagnostic line.

pub mod errors;
pub mod text;
mod upstream;
