//! Tag lines: reading them (`unknown`), giving them strong types (`known`, `hls`) and the values
//! they carry (`value`).

pub mod hls;
pub mod known;
pub mod unknown;
pub mod value;
