//! POSIX parts: the reader and writer halves of a TUN descriptor and
//! socket address conversions.
pub mod sockaddr;
pub mod split;

pub use sockaddr::{SockAddr, Sockaddr, SockaddrUnion, SocketAddress};


pub use split::{Reader, Tun, TunInfo, Writer};
