//! Parsing and writing of HLS (HTTP Live Streaming) playlist tags.

pub mod date;
pub mod error;
pub mod line;
pub mod tag;
pub mod utils;
