//! Deferred SRV service discovery: names that look like SRV queries resolve to
//! synthetic placeholder IPv4 addresses, which are swapped for the real host and
//! port at the moment a connection is opened or a datagram is sent.

pub mod addr;
pub mod srvhook;

pub use srvhook::SRVHook;
