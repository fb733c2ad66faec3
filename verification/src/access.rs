//! Who may use the read API: the list of admitted address ranges.

use vstd::prelude::*;
use crate::dns::AddressKey;

verus! {

/// A range of addresses in CIDR form: the IP version, 4 or 6, an address of
/// the range as a number, and the length of the prefix that the addresses
/// of the range share.
#[derive(Clone, Copy, Debug, PartialEq, Eq)]
pub struct AddressRange {
    pub version: u8,
    pub network: u128,
    pub prefix: u8,
}

/// Bits of an address of the given IP version; none for a version that is
/// neither 4 nor 6.
pub open spec fn address_bits(version: u8) -> u8 {
    if version == 4 {
        32
    } else if version == 6 {
        128
    } else {
        0
    }
}

/// The address is of the range's IP version and shares the range's prefix.
/// A range of an unknown version, or whose prefix is longer than its
/// addresses, holds nothing.
pub open spec fn in_range(range: AddressRange, client: AddressKey) -> bool {
    &&& range.version == 4 || range.version == 6
    &&& range.version == client.0
    &&& range.prefix <= address_bits(range.version)
    &&& range.prefix == address_bits(range.version) ==> client.1 == range.network
    &&& range.prefix < address_bits(range.version) ==> range.prefix == 0 || (client.1 >> (
    (address_bits(range.version) - range.prefix) as u128)) == (range.network >> ((address_bits(
        range.version,
    ) - range.prefix) as u128))
}

/// Some range of the list holds the address.
pub open spec fn listed(ranges: Seq<AddressRange>, client: AddressKey) -> bool {
    exists|i: int| 0 <= i < ranges.len() && in_range(#[trigger] ranges[i], client)
}

/// Whether a request is let through where access is restricted to the
/// listed ranges: one from a listed address is, and so is one whose address
/// is not known; any other is forbidden.
pub open spec fn admitted(ranges: Seq<AddressRange>, client: Option<AddressKey>) -> bool {
    match client {
        Some(address) => listed(ranges, address),
        None => true,
    }
}

impl AddressRange {
    /// Whether the range holds the address.
    pub fn contains(&self, client: AddressKey) -> (held: bool)
        ensures
            held == in_range(*self, client),
    {
        let bits: u8 = if self.version == 4 {
            32
        } else if self.version == 6 {
            128
        } else {
            0
        };
        if bits == 0 || self.version != client.0 || self.prefix > bits {
            false
        } else if self.prefix == bits {
            client.1 == self.network
        } else if self.prefix == 0 {
            true
        } else {
            let shift: u128 = (bits - self.prefix) as u128;
            (client.1 >> shift) == (self.network >> shift)
        }
    }
}

/// Whether access is restricted at all: it is where the settings list at
/// least one range.
pub fn is_restricted(allowed_ips: &[String]) -> (restricted: bool)
    ensures
        restricted == (allowed_ips@.len() > 0),
{
    allowed_ips.len() > 0
}

/// Whether a request from `client` is let through.
pub fn admits(ranges: &Vec<AddressRange>, client: Option<AddressKey>) -> (through: bool)
    ensures
        through == admitted(ranges@, client),
{
    let address = match client {
        Some(address) => address,
        None => {
            return true;
        },
    };
    let mut i: usize = 0;
    while i < ranges.len()
        invariant
            0 <= i <= ranges@.len(),
            client == Some(address),
            forall|j: int| 0 <= j < i ==> !in_range(#[trigger] ranges@[j], address),
        decreases ranges@.len() - i,
    {
        if ranges[i].contains(address) {
            return true;
        }
        i = i + 1;
    }
    false
}

} // verus!
