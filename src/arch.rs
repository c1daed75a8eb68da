//! Per-architecture instruction detail records.

pub mod mos65xx;
pub mod sysz;
