//! Primitives for a freestanding target that offers only raw kernel
//! handles: a block allocator on top of the kernel's memory-block service and
//! a mutual-exclusion cell whose kernel lock is created on first use.
//!
//! The library never talks to the kernel itself. Every operation is split
//! into steps: a step hands out the request to make, and the next step takes
//! what the kernel answered. The caller makes the requests.

pub mod allocator;
pub mod sync;
pub mod thread;
