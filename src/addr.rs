//! Hardware addresses of Bluetooth devices.
use vstd::prelude::*;
use crate::error::Error;

verus! {

/// One more than the largest six-byte address.
pub const ADDR_LIMIT: u64 = 0x1_0000_0000_0000;

/// A six-byte hardware address. Byte `i` of the radio's byte array
/// (least significant first) is byte `i` of `value`.
#[derive(Clone, Copy, Debug, PartialEq, Eq, Structural, Hash)]
pub struct Addr {
    pub value: u64,
}

impl Addr {
    pub open spec fn wf(&self) -> bool {
        self.value < ADDR_LIMIT
    }
}

/// `256` raised to `i`.
pub open spec fn pow256(i: nat) -> nat
    decreases i,
{
    if i == 0 {
        1
    } else {
        256 * pow256((i - 1) as nat)
    }
}

/// Byte `i` of `v`, least significant first.
pub open spec fn byte_of(v: u64, i: nat) -> u8 {
    ((v as nat / pow256(i)) % 256) as u8
}

/// Upper-case hexadecimal digit of `d` (below 16).
pub open spec fn hex_digit(d: u8) -> char {
    if d < 10 {
        (48 + d) as char
    } else {
        (55 + d) as char
    }
}

/// Two upper-case hexadecimal digits of `b`.
pub open spec fn hex_pair(b: u8) -> Seq<char> {
    seq![hex_digit(b / 16), hex_digit(b % 16)]
}

/// An address as it is shown: six byte pairs, most significant first,
/// separated by colons.
pub open spec fn addr_text(v: u64) -> Seq<char> {
    hex_pair(byte_of(v, 5)) + seq![':'] + hex_pair(byte_of(v, 4)) + seq![':']
        + hex_pair(byte_of(v, 3)) + seq![':'] + hex_pair(byte_of(v, 2)) + seq![':']
        + hex_pair(byte_of(v, 1)) + seq![':'] + hex_pair(byte_of(v, 0))
}

/// The address that btleplug reads from `s`, if it reads one.
pub uninterp spec fn parsed_addr(s: Seq<char>) -> Option<u64>;

/// Relies on `<btleplug::api::BDAddr as FromStr>::from_str`: it reads six
/// hexadecimal parts separated by colons into six bytes, or fails.
#[verifier::external_body]
fn parse_bdaddr(s: &str) -> (r: Option<u64>)
    ensures
        r == parsed_addr(s@),
        r matches Some(v) ==> v < ADDR_LIMIT,
{
    match <btleplug::api::BDAddr as std::str::FromStr>::from_str(s) {
        Ok(a) => {
            let b = a.address;
            Some(u64::from_le_bytes([b[0], b[1], b[2], b[3], b[4], b[5], 0, 0]))
        },
        Err(_) => None,
    }
}

/// Relies on `<btleplug::api::BDAddr as Display>::fmt`: two upper-case hex
/// digits per byte, highest byte first, joined by colons.
#[verifier::external_body]
fn bdaddr_text(value: u64) -> (r: String)
    ensures
        r@ == addr_text(value),
{
    let b = value.to_le_bytes();
    btleplug::api::BDAddr { address: [b[0], b[1], b[2], b[3], b[4], b[5]] }.to_string()
}

/// The target of a connection, from what the address parser returned.
pub fn target_from_parsed(parsed: Option<u64>) -> (r: Result<Addr, Error>)
    requires
        parsed matches Some(v) ==> v < ADDR_LIMIT,
    ensures
        match parsed {
            Some(v) => r == Ok::<Addr, Error>(Addr { value: v }),
            None => r == Err::<Addr, Error>(Error::InvalidAddr),
        },
        r matches Ok(a) ==> a.wf(),
{
    match parsed {
        Some(v) => Ok(Addr { value: v }),
        None => Err(Error::InvalidAddr),
    }
}

impl Addr {
    /// Reads a target address such as `AA:BB:CC:DD:EE:FF`.
    pub fn parse(s: &str) -> (r: Result<Addr, Error>)
        ensures
            match parsed_addr(s@) {
                Some(v) => r == Ok::<Addr, Error>(Addr { value: v }),
                None => r == Err::<Addr, Error>(Error::InvalidAddr),
            },
            r matches Ok(a) ==> a.wf(),
    {
        target_from_parsed(parse_bdaddr(s))
    }

    /// The address as it is shown to the user.
    pub fn text(&self) -> (r: String)
        ensures
            r@ == addr_text(self.value),
    {
        bdaddr_text(self.value)
    }
}

} // verus!
