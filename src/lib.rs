//! Decision logic of four small HTTP lab services: a per-request log writer,
//! a maintenance gate, a file-descriptor pressurizer and a config reader.
//!
//! The functions here decide what each service answers and which names it
//! uses on disk; the program around them performs the I/O.

pub mod text;
pub mod reply;
pub mod clock;
pub mod logger;
pub mod gate;
pub mod config;
pub mod pressure;
pub mod http;
