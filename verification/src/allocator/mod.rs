//! Memory blocks granted by the kernel.

pub mod blocks;
pub mod kernel;
pub mod utils;
