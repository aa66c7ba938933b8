//! Extraction of stake pool state from raw account bytes, and the integer
//! side of per-epoch stake pool statistics.

pub mod address;
pub mod commands;
pub mod epoch;
pub mod error;
pub mod layout;
pub mod providers;
pub mod vendors;
