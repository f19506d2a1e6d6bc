//! Synchronisation on top of the kernel's lock service.

pub mod mutex;
