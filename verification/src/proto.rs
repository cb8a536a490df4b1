//! Selection of the native protocol constants for a transport protocol.
//!
//! Socket creation and the Windows native address struct need, for each
//! transport protocol, the platform's protocol number and its 128-bit
//! service class identifier. The identifiers extend the 16-bit protocol
//! numbers with the standard Bluetooth base identifier.

use vstd::prelude::*;

use crate::error::BtError;
use crate::BtProtocol;
use crate::BtShutdown;

verus! {

/// A 128-bit identifier in the native GUID layout: one 32-bit field, two
/// 16-bit fields, and eight bytes.
#[derive(Clone, Copy, Debug)]
pub struct BtGuid {
    pub data1: u32,
    pub data2: u16,
    pub data3: u16,
    pub data4: [u8; 8],
}

/// The Bluetooth base identifier with `short` as its leading field: the
/// standard expansion of a 16-bit protocol number to a full GUID.
pub open spec fn bluetooth_base_guid(short: u32) -> BtGuid {
    BtGuid { data1: short, data2: 0x0000, data3: 0x1000, data4: [0x80, 0x00, 0x00, 0x80, 0x5F, 0x9B, 0x34, 0xFB] }
}

/// The service class GUID of a transport protocol: the Bluetooth base
/// identifier over the protocol number 0x0100 for L2CAP and 0x0003 for
/// RFCOMM.
pub fn protocol_guid(protocol: BtProtocol) -> (g: BtGuid)
    ensures
        protocol is L2CAP ==> g == bluetooth_base_guid(0x0100),
        protocol is RFCOMM ==> g == bluetooth_base_guid(0x0003),
{
    let short: u32 = match protocol {
        BtProtocol::L2CAP => 0x0100,
        BtProtocol::RFCOMM => 0x0003,
    };
    BtGuid {
        data1: short,
        data2: 0x0000,
        data3: 0x1000,
        data4: [0x80, 0x00, 0x00, 0x80, 0x5F, 0x9B, 0x34, 0xFB],
    }
}

/// The POSIX Bluetooth protocol number used at socket creation: 0 for L2CAP
/// and 3 for RFCOMM.
pub fn protocol_number(protocol: BtProtocol) -> (n: i32)
    ensures
        protocol is L2CAP ==> n == 0,
        protocol is RFCOMM ==> n == 3,
{
    match protocol {
        BtProtocol::L2CAP => 0,
        BtProtocol::RFCOMM => 3,
    }
}

/// The Windows Bluetooth protocol number used at socket creation: 0x0003
/// for RFCOMM. L2CAP stream sockets are not supported there, so requesting
/// L2CAP is rejected rather than falling through to an unsupported socket.
pub fn bth_protocol_number(protocol: BtProtocol) -> (r: Result<u16, BtError>)
    ensures
        protocol is L2CAP ==> r == Result::<u16, BtError>::Err(BtError::InvalidInput),
        protocol is RFCOMM ==> r == Result::<u16, BtError>::Ok(0x0003u16),
{
    match protocol {
        BtProtocol::L2CAP => Err(BtError::InvalidInput),
        BtProtocol::RFCOMM => Ok(0x0003),
    }
}

/// The native shutdown selector for a half of the connection: 0 stops
/// receives, 1 stops sends, 2 stops both. Both socket interfaces number the
/// three selectors this way.
pub fn shutdown_how(how: BtShutdown) -> (n: i32)
    ensures
        how is Read ==> n == 0,
        how is Write ==> n == 1,
        how is Both ==> n == 2,
{
    match how {
        BtShutdown::Read => 0,
        BtShutdown::Write => 1,
        BtShutdown::Both => 2,
    }
}

} // verus!
