//! Readers for what git prints, and builders for what it is asked.

pub mod branch;
pub mod status;
