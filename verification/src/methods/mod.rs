//! The operations themselves, one file each.

pub mod transfer;

pub use transfer::{transfer, Transfer};
