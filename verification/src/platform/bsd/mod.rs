//! BSD parts.
pub mod device;

pub use device::Device;
