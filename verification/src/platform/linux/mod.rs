//! Linux parts.
pub mod offload;
