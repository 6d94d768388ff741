//! Building blocks shared by the rest of the crate.

pub mod error;
pub mod memory;
pub mod platform;
pub mod string;
