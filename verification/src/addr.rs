//! Address codec: uploader network addresses and their fixed-width binary
//! form in the index.
//!
//! The variable-width design is used: an IPv4 address encodes to its 4
//! octets and an IPv6 address to its 16 octets, both in network order. A
//! stored buffer of any other length decodes to `None`, which callers treat
//! as "record effectively absent" rather than a hard error.

use vstd::prelude::*;

verus! {

/// An uploader network address, modelled by its octets in network order.
#[derive(Clone, PartialEq, Eq, Debug)]
pub enum IpAddress {
    V4(Vec<u8>),
    V6(Vec<u8>),
}

impl IpAddress {
    /// An IPv4 address carries 4 octets, an IPv6 address 16.
    pub open spec fn wf(&self) -> bool {
        match self {
            IpAddress::V4(o) => o@.len() == 4,
            IpAddress::V6(o) => o@.len() == 16,
        }
    }

    /// The observable value of an address: its family and octets.
    pub open spec fn view_octets(&self) -> (bool, Seq<u8>) {
        match self {
            IpAddress::V4(o) => (false, o@),
            IpAddress::V6(o) => (true, o@),
        }
    }
}

/// The binary form stored in the index: the octets, whose length tells the
/// family apart.
pub open spec fn spec_encode(a: &IpAddress) -> Seq<u8> {
    match a {
        IpAddress::V4(o) => o@,
        IpAddress::V6(o) => o@,
    }
}

/// What a successful decode of buffer `b` yields: an address of the family
/// the length dictates, holding exactly those octets.
pub open spec fn decodes_to(b: Seq<u8>, a: &IpAddress) -> bool {
    &&& a.wf()
    &&& spec_encode(a) == b
    &&& (b.len() == 4 <==> !a.view_octets().0)
}

/// Encode an address to the binary form stored in the index.
pub fn ip_to_bytes(a: &IpAddress) -> (r: Vec<u8>)
    requires
        a.wf(),
    ensures
        r@ == spec_encode(a),
        r@.len() == 4 || r@.len() == 16,
{
    match a {
        IpAddress::V4(o) => crate::copy_bytes(o),
        IpAddress::V6(o) => crate::copy_bytes(o),
    }
}

/// Decode a stored buffer: length 4 is IPv4, length 16 is IPv6, any other
/// length is the absent sentinel `None`.
pub fn bytes_to_ip(bytes: &Vec<u8>) -> (r: Option<IpAddress>)
    ensures
        r is Some <==> (bytes@.len() == 4 || bytes@.len() == 16),
        match r {
            Some(a) => decodes_to(bytes@, &a),
            None => true,
        },
{
    if bytes.len() == 16 {
        Some(IpAddress::V6(crate::copy_bytes(bytes)))
    } else if bytes.len() == 4 {
        Some(IpAddress::V4(crate::copy_bytes(bytes)))
    } else {
        None
    }
}

/// Address round trip: decoding what an address encodes to gives back that
/// address (same family, same octets).
pub proof fn lemma_addr_round_trip(a: &IpAddress, d: &IpAddress)
    requires
        a.wf(),
        decodes_to(spec_encode(a), d),
    ensures
        d.view_octets() == a.view_octets(),
{
}

} // verus!
