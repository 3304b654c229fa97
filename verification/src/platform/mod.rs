//! Platform parts: offload bookkeeping, the POSIX reader and writer halves,
//! and the BSD device.
pub mod bsd;
pub mod linux;
pub mod posix;
