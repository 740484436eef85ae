//! Blob store: whole-file byte contents keyed by identifier, under one
//! content root. Each blob is written exactly once, at upload time, before
//! its metadata record is inserted.

use vstd::prelude::*;
use crate::ident::FileDescriptor;
use crate::table::assoc_lookup;
use crate::table::distinct_keys;
use crate::table::lemma_assoc_lookup_absent;
use crate::table::lemma_assoc_lookup_found;

verus! {

/// The stored blobs: identifier bytes to file content.
pub struct BlobStore {
    entries: Vec<(Vec<u8>, Vec<u8>)>,
}

impl View for BlobStore {
    type V = Seq<(Seq<u8>, Seq<u8>)>;

    closed spec fn view(&self) -> Seq<(Seq<u8>, Seq<u8>)> {
        Seq::new(self.entries@.len(), |i: int| (self.entries@[i].0@, self.entries@[i].1@))
    }
}

impl BlobStore {
    /// One blob per identifier.
    pub open spec fn wf(&self) -> bool {
        distinct_keys(self@)
    }

    /// An empty content root.
    pub fn new() -> (r: BlobStore)
        ensures
            r.wf(),
            r@ == Seq::<(Seq<u8>, Seq<u8>)>::empty(),
    {
        let r = BlobStore { entries: Vec::new() };
        proof {
            assert(r@ =~= Seq::<(Seq<u8>, Seq<u8>)>::empty());
        }
        r
    }

    /// Write the blob for a fresh identifier. Freshness is owed by the
    /// identifier's uniqueness invariant: no blob for it exists yet.
    pub fn write(&mut self, fd: &FileDescriptor, content: Vec<u8>)
        requires
            old(self).wf(),
            fd.wf(),
            assoc_lookup(old(self)@, fd@) is None,
        ensures
            final(self).wf(),
            final(self)@ == old(self)@.push((fd@, content@)),
    {
        let key = fd.to_bytes();
        self.entries.push((key, content));
        proof {
            assert(self@ =~= old(self)@.push((fd@, content@)));
            assert forall|i: int, j: int| 0 <= i < j < self@.len() implies (
            #[trigger] self@[i]).0 != (#[trigger] self@[j]).0 by {
                if j == self@.len() - 1 {
                    if self@[i].0 == fd@ {
                        lemma_assoc_lookup_found(old(self)@, fd@, i);
                    }
                }
            }
        }
    }

    /// Open the blob of an identifier for reading. `None` means no blob is
    /// stored under it, which a caller holding the index invariant treats as
    /// storage corruption, not a bad request.
    pub fn open(&self, fd: &FileDescriptor) -> (r: Option<&Vec<u8>>)
        requires
            self.wf(),
            fd.wf(),
        ensures
            match r {
                Some(c) => assoc_lookup(self@, fd@) == Some(c@),
                None => assoc_lookup(self@, fd@) is None,
            },
    {
        let key = fd.to_bytes();
        let mut i: usize = 0;
        while i < self.entries.len()
            invariant
                self.wf(),
                i <= self.entries@.len(),
                self@.len() == self.entries@.len(),
                key@ == fd@,
                forall|t: int| 0 <= t < i ==> (#[trigger] self@[t]).0 != fd@,
            decreases self.entries@.len() - i,
        {
            if crate::bytes_eq(&self.entries[i].0, &key) {
                proof {
                    lemma_assoc_lookup_found(self@, fd@, i as int);
                }
                return Some(&self.entries[i].1);
            }
            i = i + 1;
        }
        proof {
            lemma_assoc_lookup_absent(self@, fd@);
        }
        None
    }

    /// Whether a blob is stored under this identifier.
    pub fn contains(&self, fd: &FileDescriptor) -> (r: bool)
        requires
            self.wf(),
            fd.wf(),
        ensures
            r == (assoc_lookup(self@, fd@) is Some),
    {
        match self.open(fd) {
            Some(_) => true,
            None => false,
        }
    }
}

} // verus!
