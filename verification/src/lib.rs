//! Bluetooth RFCOMM/L2CAP socket support with a verified core.
//!
//! The crate mirrors the standard TCP/UDP socket abstractions for Bluetooth
//! stream sockets. The platform-independent core — the address codec, the
//! multi-address resolver, the connect-with-timeout state machine, the socket
//! timeout encoding, and the error classification shared by both platform
//! backends — lives here and carries contracts; the raw system calls are left
//! to the surrounding platform glue.

use vstd::prelude::*;

pub mod addr;
pub mod connect;
pub mod cvt;
pub mod duration;
pub mod error;
pub mod proto;
pub mod resolver;
pub mod sockopt;

pub use addr::BtAddr;
pub use duration::BtDuration;
pub use error::BtError;
pub use resolver::each_addr;
pub use sockopt::Timeval;

verus! {

/// The Bluetooth transport protocol of a socket, fixed at creation time.
///
/// `L2CAP` is the packet-oriented lower layer, `RFCOMM` the serial-port-like
/// stream layer. The core treats both as opaque tags selecting the native
/// protocol constants.
#[derive(Clone, Copy, Debug, PartialEq, Eq, Structural)]
pub enum BtProtocol {
    L2CAP,
    RFCOMM,
}

/// Which half of a connection a shutdown applies to.
#[derive(Clone, Copy, Debug, PartialEq, Eq, Structural)]
pub enum BtShutdown {
    /// Stop further receives.
    Read,
    /// Stop further sends.
    Write,
    /// Stop both halves.
    Both,
}

} // verus!
