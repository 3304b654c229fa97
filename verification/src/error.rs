//! Errors of the library.
use vstd::prelude::*;

verus! {

/// What can go wrong in this library.
#[derive(Debug, PartialEq, Eq, Structural)]
pub enum Error {
    /// The device cannot be renamed.
    InvalidName,
    /// The interface name does not fit the kernel's name buffer.
    NameTooLong,
    /// The interface name holds a NUL byte.
    NulInName,
    /// The address is not an IPv4 socket address.
    InvalidAddress,
    /// Only a single queue is supported.
    InvalidQueuesNumber,
    /// A value does not fit the integer type it is converted to.
    TryFromIntError,
    /// A buffer is shorter than the data to be read from or written to it.
    BufferTooSmall,
    /// No offload flow with the given key or index.
    OffloadFlowNotFound,
    /// A TCP segment with the PSH flag cannot be coalesced.
    OffloadTcpPshFlagSet,
    /// The coalescing item's checksum is known to be invalid.
    OffloadItemInvalidChecksum,
    /// A packet is empty.
    ZeroLengthData,
    /// A packet's first nibble is neither 4 nor 6; the nibble is carried.
    InvalidIpVersion(u8),
}

/// Results of this library.
pub type Result<T> = core::result::Result<T, Error>;

} // verus!
