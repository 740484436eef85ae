//! Anonymous file drop: storage and metadata-index core.
//!
//! A client uploads a file and receives a URL holding an opaque identifier;
//! any holder of that URL can retrieve the file, optionally overriding its
//! display filename. This crate holds the verified core: the identifier
//! codec, the address codec, the metadata index, the blob store and the
//! transfer service that orchestrates uploads and downloads. The transport
//! adapter (HTTP routing, the durable database binding, file I/O) lives
//! outside and calls into these functions.

pub mod addr;
pub mod boundary;
pub mod errors;
pub mod ident;
pub mod index;
pub mod record;
pub mod service;
pub mod store;
pub mod table;

use vstd::prelude::*;

verus! {

/// Byte-for-byte copy of a buffer.
pub fn copy_bytes(v: &Vec<u8>) -> (r: Vec<u8>)
    ensures
        r@ == v@,
{
    let mut out: Vec<u8> = Vec::new();
    let mut i: usize = 0;
    while i < v.len()
        invariant
            i <= v@.len(),
            out@ == v@.subrange(0, i as int),
        decreases v@.len() - i,
    {
        out.push(v[i]);
        proof {
            assert(out@ =~= v@.subrange(0, i + 1 as int));
        }
        i = i + 1;
    }
    proof {
        assert(out@ =~= v@);
    }
    out
}

/// Whether two buffers hold the same bytes.
pub fn bytes_eq(a: &Vec<u8>, b: &Vec<u8>) -> (r: bool)
    ensures
        r == (a@ == b@),
{
    if a.len() != b.len() {
        proof {
            assert(a@ != b@);
        }
        return false;
    }
    let mut i: usize = 0;
    while i < a.len()
        invariant
            a@.len() == b@.len(),
            i <= a@.len(),
            forall|t: int| 0 <= t < i ==> a@[t] == b@[t],
        decreases a@.len() - i,
    {
        if a[i] != b[i] {
            return false;
        }
        i = i + 1;
    }
    proof {
        assert(a@ =~= b@);
    }
    true
}

} // verus!
