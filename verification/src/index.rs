//! Metadata index: the durable table mapping identifier to {optional
//! display name, uploader address bytes}; the single source of truth for
//! "does this identifier exist". Rows are inserted once and never mutated
//! or deleted.

use vstd::prelude::*;
use crate::ident::FileDescriptor;
use crate::record::opt_str_view;
use crate::table::assoc_lookup;
use crate::table::distinct_keys;
use crate::table::lemma_assoc_lookup_absent;
use crate::table::lemma_assoc_lookup_found;

verus! {

/// One row of the index: identifier bytes (the primary key), the optional
/// display name, and the encoded uploader address.
pub struct IndexEntry {
    pub fd: Vec<u8>,
    pub name: Option<String>,
    pub upload_ip: Vec<u8>,
}

/// The observable value of a row: name text and address bytes.
pub open spec fn rec_view(e: &IndexEntry) -> (Option<Seq<char>>, Seq<u8>) {
    (opt_str_view(&e.name), e.upload_ip@)
}

/// The metadata table, keyed by identifier bytes.
pub struct MetadataIndex {
    entries: Vec<IndexEntry>,
}

impl View for MetadataIndex {
    type V = Seq<(Seq<u8>, (Option<Seq<char>>, Seq<u8>))>;

    closed spec fn view(&self) -> Seq<(Seq<u8>, (Option<Seq<char>>, Seq<u8>))> {
        Seq::new(
            self.entries@.len(),
            |i: int| (self.entries@[i].fd@, rec_view(&self.entries@[i])),
        )
    }
}

impl MetadataIndex {
    /// The primary key is unique.
    pub open spec fn wf(&self) -> bool {
        distinct_keys(self@)
    }

    /// An empty table, as opened at startup.
    pub fn new() -> (r: MetadataIndex)
        ensures
            r.wf(),
            r@ == Seq::<(Seq<u8>, (Option<Seq<char>>, Seq<u8>))>::empty(),
    {
        let r = MetadataIndex { entries: Vec::new() };
        proof {
            assert(r@ =~= Seq::<(Seq<u8>, (Option<Seq<char>>, Seq<u8>))>::empty());
        }
        r
    }

    /// Single-row insert keyed by the identifier. The identifier's
    /// uniqueness invariant makes a key collision impossible, so no
    /// upsert/merge logic exists; the row must be fresh.
    pub fn insert(&mut self, fd: &FileDescriptor, name: Option<String>, upload_ip: Vec<u8>)
        requires
            old(self).wf(),
            fd.wf(),
            assoc_lookup(old(self)@, fd@) is None,
        ensures
            final(self).wf(),
            final(self)@ == old(self)@.push((fd@, (opt_str_view(&name), upload_ip@))),
    {
        let key = fd.to_bytes();
        let ghost pushed = (fd@, (opt_str_view(&name), upload_ip@));
        self.entries.push(IndexEntry { fd: key, name, upload_ip });
        proof {
            assert(self@ =~= old(self)@.push(pushed));
            assert forall|i: int, j: int| 0 <= i < j < self@.len() implies (
            #[trigger] self@[i]).0 != (#[trigger] self@[j]).0 by {
                if j == self@.len() - 1 {
                    if self@[i].0 == fd@ {
                        lemma_assoc_lookup_found(old(self)@, fd@, i);
                    }
                }
            }
        }
    }

    /// Point lookup by primary key. `None` means no such identifier, which
    /// callers keep distinct from a storage fault all the way to the
    /// transport layer.
    pub fn lookup(&self, fd: &FileDescriptor) -> (r: Option<&IndexEntry>)
        requires
            self.wf(),
            fd.wf(),
        ensures
            match r {
                Some(e) => assoc_lookup(self@, fd@) == Some(rec_view(e)),
                None => assoc_lookup(self@, fd@) is None,
            },
    {
        let key = fd.to_bytes();
        let mut i: usize = 0;
        while i < self.entries.len()
            invariant
                self.wf(),
                i <= self.entries@.len(),
                self@.len() == self.entries@.len(),
                key@ == fd@,
                forall|t: int| 0 <= t < i ==> (#[trigger] self@[t]).0 != fd@,
            decreases self.entries@.len() - i,
        {
            if crate::bytes_eq(&self.entries[i].fd, &key) {
                proof {
                    lemma_assoc_lookup_found(self@, fd@, i as int);
                }
                return Some(&self.entries[i]);
            }
            i = i + 1;
        }
        proof {
            lemma_assoc_lookup_absent(self@, fd@);
        }
        None
    }

    /// Whether a record exists for this identifier.
    pub fn contains(&self, fd: &FileDescriptor) -> (r: bool)
        requires
            self.wf(),
            fd.wf(),
        ensures
            r == (assoc_lookup(self@, fd@) is Some),
    {
        match self.lookup(fd) {
            Some(_) => true,
            None => false,
        }
    }
}

} // verus!
