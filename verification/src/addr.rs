//! The 6-byte Bluetooth device address and its encodings.
//!
//! An address has three equivalent forms that must round-trip losslessly:
//! the raw 6-byte array, the NAP/SAP split (a 16-bit non-significant part
//! plus a 32-bit significant part, the layout of the Windows native address
//! struct), and the packed 48-bit integer used by that struct. The text form
//! is colon-separated lowercase hex, most significant byte first.

use vstd::prelude::*;

verus! {

/// A Bluetooth device address, consisting of 6 bytes.
///
/// The raw storage is little-endian relative to the display order: byte 0 is
/// the least significant byte and is printed last.
#[derive(Clone, Copy, Debug)]
pub struct BtAddr(pub [u8; 6]);

/// The address whose raw bytes are exactly `bytes`.
pub open spec fn addr_from_bytes(bytes: [u8; 6]) -> BtAddr {
    BtAddr(bytes)
}

/// The address that packs `sap`'s four little-endian bytes, then `nap`'s two.
pub open spec fn addr_from_nap_sap(nap: u16, sap: u32) -> BtAddr {
    BtAddr(
        [
            (sap % 256) as u8,
            ((sap / 256) % 256) as u8,
            ((sap / 65536) % 256) as u8,
            ((sap / 16777216) % 256) as u8,
            (nap % 256) as u8,
            ((nap / 256) % 256) as u8,
        ],
    )
}

impl BtAddr {
    /// The raw bytes of the address, least significant first.
    pub open spec fn bytes(self) -> [u8; 6] {
        self.0
    }

    /// The non-significant address part: bytes 4 and 5, little-endian.
    pub open spec fn nap_spec(self) -> u16 {
        (self.0[4] + self.0[5] * 256) as u16
    }

    /// The significant address part: bytes 0 through 3, little-endian.
    pub open spec fn sap_spec(self) -> u32 {
        (self.0[0] + self.0[1] * 256 + self.0[2] * 65536 + self.0[3] * 16777216) as u32
    }

    /// Builds an address from its NAP/SAP split, packing `sap`'s four
    /// little-endian bytes and then `nap`'s two into the raw form.
    pub fn nap_sap(nap: u16, sap: u32) -> (a: BtAddr)
        ensures
            a == addr_from_nap_sap(nap, sap),
    {
        BtAddr(
            [
                (sap % 256) as u8,
                ((sap / 256) % 256) as u8,
                ((sap / 65536) % 256) as u8,
                ((sap / 16777216) % 256) as u8,
                (nap % 256) as u8,
                ((nap / 256) % 256) as u8,
            ],
        )
    }

    /// Builds an address from its raw 6-byte form. Any 6 bytes are a valid
    /// address; this is the identity on the raw representation.
    pub fn from_raw_bytes(bytes: [u8; 6]) -> (a: BtAddr)
        ensures
            a == addr_from_bytes(bytes),
    {
        BtAddr(bytes)
    }

    /// The raw 6-byte form of the address.
    pub fn to_raw_bytes(&self) -> (bytes: [u8; 6])
        ensures
            bytes == self.bytes(),
    {
        self.0
    }

    /// The non-significant address part.
    pub fn nap(&self) -> (nap: u16)
        ensures
            nap == self.nap_spec(),
    {
        self.0[4] as u16 + self.0[5] as u16 * 256
    }

    /// The significant address part.
    pub fn sap(&self) -> (sap: u32)
        ensures
            sap == self.sap_spec(),
    {
        self.0[0] as u32 + self.0[1] as u32 * 256 + self.0[2] as u32 * 65536 + self.0[3] as u32
            * 16777216
    }
}

impl BtAddr {
    /// The packed 48-bit form of the address: the NAP in bits 32..48 above
    /// the SAP in bits 0..32, the layout of the Windows native address field.
    pub open spec fn bth_u64_spec(self) -> u64 {
        (self.sap_spec() + self.nap_spec() * 0x1_0000_0000) as u64
    }

    /// Packs the address into its 48-bit integer form, NAP above SAP.
    pub fn to_bth_u64(&self) -> (v: u64)
        ensures
            v == self.bth_u64_spec(),
    {
        self.sap() as u64 + self.nap() as u64 * 0x1_0000_0000
    }

    /// Unpacks a native 64-bit address field: bits 0..32 are the SAP, bits
    /// 32..48 the NAP. Bits above 48 are ignored, as the native accessors do.
    pub fn from_bth_u64(v: u64) -> (a: BtAddr)
        ensures
            a == addr_from_nap_sap(((v / 0x1_0000_0000) % 0x1_0000) as u16, (v
                % 0x1_0000_0000) as u32),
    {
        BtAddr::nap_sap(((v / 0x1_0000_0000) % 0x1_0000) as u16, (v % 0x1_0000_0000) as u32)
    }
}

/// Law: packing an address into its 48-bit integer form and unpacking it
/// again yields the same address.
pub proof fn lemma_bth_u64_round_trip(a: BtAddr)
    ensures
        addr_from_nap_sap(((a.bth_u64_spec() / 0x1_0000_0000) % 0x1_0000) as u16, (a.bth_u64_spec()
            % 0x1_0000_0000) as u32) == a,
{
    let v = a.bth_u64_spec();
    assert((v / 0x1_0000_0000) % 0x1_0000 == a.nap_spec() && v % 0x1_0000_0000 == a.sap_spec())
        by (nonlinear_arith)
        requires
            v == a.sap_spec() + a.nap_spec() * 0x1_0000_0000,
            a.sap_spec() < 0x1_0000_0000,
            a.nap_spec() < 0x1_0000,
    ;
    let nap = a.nap_spec();
    let sap = a.sap_spec();
    assert(sap % 256 == a.0[0] && (sap / 256) % 256 == a.0[1] && (sap / 65536) % 256 == a.0[2] && (
    sap / 16777216) % 256 == a.0[3]) by (nonlinear_arith)
        requires
            sap == a.0[0] + a.0[1] * 256 + a.0[2] * 65536 + a.0[3] * 16777216,
            a.0[0] < 256 && a.0[1] < 256 && a.0[2] < 256 && a.0[3] < 256,
    ;
    assert(nap % 256 == a.0[4] && (nap / 256) % 256 == a.0[5]) by (nonlinear_arith)
        requires
            nap == a.0[4] + a.0[5] * 256,
            a.0[4] < 256 && a.0[5] < 256,
    ;
    let b = addr_from_nap_sap(nap, sap);
    assert(b.0 =~= a.0);
}

/// The lowercase hex digit for a value below 16.
pub open spec fn hex_digit_spec(n: u8) -> char
    recommends
        n < 16,
{
    if n == 0 {
        '0'
    } else if n == 1 {
        '1'
    } else if n == 2 {
        '2'
    } else if n == 3 {
        '3'
    } else if n == 4 {
        '4'
    } else if n == 5 {
        '5'
    } else if n == 6 {
        '6'
    } else if n == 7 {
        '7'
    } else if n == 8 {
        '8'
    } else if n == 9 {
        '9'
    } else if n == 10 {
        'a'
    } else if n == 11 {
        'b'
    } else if n == 12 {
        'c'
    } else if n == 13 {
        'd'
    } else if n == 14 {
        'e'
    } else {
        'f'
    }
}

/// The two lowercase hex digits of a byte, most significant first.
pub open spec fn byte_hex_spec(x: u8) -> Seq<char> {
    seq![hex_digit_spec((x / 16) as u8), hex_digit_spec((x % 16) as u8)]
}

/// The canonical text of an address: six colon-separated two-digit lowercase
/// hex bytes, most significant byte (raw index 5) first.
pub open spec fn addr_text_spec(a: BtAddr) -> Seq<char> {
    byte_hex_spec(a.0[5]) + seq![':'] + byte_hex_spec(a.0[4]) + seq![':'] + byte_hex_spec(a.0[3])
        + seq![':'] + byte_hex_spec(a.0[2]) + seq![':'] + byte_hex_spec(a.0[1]) + seq![':']
        + byte_hex_spec(a.0[0])
}

/// Relies on `String::push`: appends exactly the given character.
#[verifier::external_body]
fn push_char(s: &mut String, c: char)
    ensures
        final(s)@ == old(s)@.push(c),
{
    s.push(c)
}

/// The lowercase hex digit for a value below 16.
fn hex_digit(n: u8) -> (c: char)
    requires
        n < 16,
    ensures
        c == hex_digit_spec(n),
{
    match n {
        0 => '0',
        1 => '1',
        2 => '2',
        3 => '3',
        4 => '4',
        5 => '5',
        6 => '6',
        7 => '7',
        8 => '8',
        9 => '9',
        10 => 'a',
        11 => 'b',
        12 => 'c',
        13 => 'd',
        14 => 'e',
        _ => 'f',
    }
}

/// Appends the two hex digits of `x` to `s`, most significant first.
fn push_byte_hex(s: &mut String, x: u8)
    ensures
        final(s)@ == old(s)@ + byte_hex_spec(x),
{
    push_char(s, hex_digit(x / 16));
    push_char(s, hex_digit(x % 16));
    assert(final(s)@ =~= old(s)@ + byte_hex_spec(x));
}

impl BtAddr {
    /// The canonical text form of the address: six colon-separated two-digit
    /// lowercase hex bytes, most significant byte first.
    ///
    /// The raw storage is little-endian relative to this order, so byte index
    /// 5 is printed first, down to byte index 0.
    pub fn to_text(&self) -> (r: String)
        ensures
            r@ == addr_text_spec(*self),
    {
        let mut s = String::new();
        push_byte_hex(&mut s, self.0[5]);
        push_char(&mut s, ':');
        push_byte_hex(&mut s, self.0[4]);
        push_char(&mut s, ':');
        push_byte_hex(&mut s, self.0[3]);
        push_char(&mut s, ':');
        push_byte_hex(&mut s, self.0[2]);
        push_char(&mut s, ':');
        push_byte_hex(&mut s, self.0[1]);
        push_char(&mut s, ':');
        push_byte_hex(&mut s, self.0[0]);
        assert(s@ =~= addr_text_spec(*self));
        s
    }
}

/// Law: an address built from six raw bytes hands the same bytes back.
pub proof fn lemma_raw_bytes_round_trip(bytes: [u8; 6])
    ensures
        addr_from_bytes(bytes).bytes() == bytes,
{
}

/// Law: an address built from a NAP/SAP pair yields the same pair through the
/// inverse accessors, over the full domain of `u16` and `u32`.
pub proof fn lemma_nap_sap_round_trip(nap: u16, sap: u32)
    ensures
        addr_from_nap_sap(nap, sap).nap_spec() == nap,
        addr_from_nap_sap(nap, sap).sap_spec() == sap,
{
    assert(addr_from_nap_sap(nap, sap).nap_spec() == nap) by (nonlinear_arith);
    assert(addr_from_nap_sap(nap, sap).sap_spec() == sap) by (nonlinear_arith);
}

} // verus!
