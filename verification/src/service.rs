//! Transfer service: orchestrates upload (mint identifier, write blob,
//! record metadata, build the result URL) and download (look up metadata,
//! open the blob, resolve the response filename), and owns the ordering
//! invariant between the two stores: a metadata record never exists without
//! its stored bytes.

use vstd::prelude::*;
use vstd::string::StringExecFns;
use crate::addr::IpAddress;
use crate::addr::spec_encode;
use crate::errors::FileError;
use crate::ident::FileDescriptor;
use crate::ident::bytes_of;
use crate::ident::is_canonical;
use crate::ident::spec_render;
use crate::index::MetadataIndex;
use crate::record::FileInfo;
use crate::record::opt_str_view;
use crate::store::BlobStore;
use crate::table::assoc_lookup;
use crate::table::lemma_assoc_lookup_exists;
use crate::table::lemma_assoc_lookup_push;

verus! {

/// The filename a download answers: the path-supplied override when given,
/// else the stored display name, else the identifier's canonical text.
pub open spec fn spec_download_name(
    name_override: Option<Seq<char>>,
    stored: Option<Seq<char>>,
    fd_bytes: Seq<u8>,
) -> Seq<char> {
    match name_override {
        Some(n) => n,
        None => match stored {
            Some(m) => m,
            None => spec_render(fd_bytes),
        },
    }
}

/// What the upload protocol does to the index: the record is inserted only
/// after the blob write succeeded; on a failed write the index is untouched.
pub open spec fn upload_index_step(
    index: Seq<(Seq<u8>, (Option<Seq<char>>, Seq<u8>))>,
    fd_bytes: Seq<u8>,
    rec: (Option<Seq<char>>, Seq<u8>),
    blob_written: bool,
) -> Seq<(Seq<u8>, (Option<Seq<char>>, Seq<u8>))> {
    if blob_written {
        index.push((fd_bytes, rec))
    } else {
        index
    }
}

/// No dangling record: if the blob write fails, the upload inserts nothing,
/// so a fresh identifier stays absent from the index and no lookup ever
/// observes a record for it.
pub proof fn lemma_no_dangling_record(
    index: Seq<(Seq<u8>, (Option<Seq<char>>, Seq<u8>))>,
    fd_bytes: Seq<u8>,
    rec: (Option<Seq<char>>, Seq<u8>),
)
    requires
        assoc_lookup(index, fd_bytes) is None,
    ensures
        upload_index_step(index, fd_bytes, rec, false) == index,
        assoc_lookup(upload_index_step(index, fd_bytes, rec, false), fd_bytes) is None,
{
}

/// Override precedence: a path-supplied display name decides the response
/// filename, whatever the stored name holds and whatever the identifier is.
pub proof fn lemma_override_precedence(n: Seq<char>, stored: Option<Seq<char>>, fd_bytes: Seq<u8>)
    ensures
        spec_download_name(Some(n), stored, fd_bytes) == n,
{
}

/// Upload-then-download retrieval: what an upload under a fresh identifier
/// pushes into the two stores is exactly what a later lookup of that
/// identifier observes — the stored content, and the record whose name the
/// response filename is resolved from — while every other identifier's
/// lookup is untouched.
pub proof fn lemma_upload_then_lookup(
    store: Seq<(Seq<u8>, Seq<u8>)>,
    index: Seq<(Seq<u8>, (Option<Seq<char>>, Seq<u8>))>,
    fd_bytes: Seq<u8>,
    content: Seq<u8>,
    rec: (Option<Seq<char>>, Seq<u8>),
    other: Seq<u8>,
)
    ensures
        assoc_lookup(store.push((fd_bytes, content)), fd_bytes) == Some(content),
        assoc_lookup(index.push((fd_bytes, rec)), fd_bytes) == Some(rec),
        other != fd_bytes ==> assoc_lookup(store.push((fd_bytes, content)), other) == assoc_lookup(
            store,
            other,
        ),
        other != fd_bytes ==> assoc_lookup(index.push((fd_bytes, rec)), other) == assoc_lookup(
            index,
            other,
        ),
{
    lemma_assoc_lookup_push(store, fd_bytes, content, fd_bytes);
    lemma_assoc_lookup_push(index, fd_bytes, rec, fd_bytes);
    lemma_assoc_lookup_push(store, fd_bytes, content, other);
    lemma_assoc_lookup_push(index, fd_bytes, rec, other);
}

/// The per-request upload decision after the blob write: only a successful
/// write yields a record to insert; a failed one yields none, and the
/// caller surfaces the I/O fault with no index change.
pub fn record_after_blob_write(
    fd: FileDescriptor,
    name: Option<String>,
    addr: IpAddress,
    blob_written: bool,
) -> (r: Option<FileInfo>)
    requires
        fd.wf(),
        addr.wf(),
    ensures
        blob_written <==> r is Some,
        match r {
            Some(info) => info.wf() && info.fd@ == fd@ && info.name == name && info.upload_ip
                == addr,
            None => true,
        },
{
    if blob_written {
        Some(FileInfo::new(fd, name, addr))
    } else {
        None
    }
}

/// The absolute download URL of an identifier: base URL, the fixed route
/// segment, then the canonical identifier text.
pub fn download_url(base: &str, fd: &FileDescriptor) -> (r: String)
    requires
        fd.wf(),
    ensures
        r@ == base@ + ("/fd/")@ + spec_render(fd@),
{
    let mut r = base.to_owned();
    r.append("/fd/");
    let t = fd.render();
    r.append(t.as_str());
    proof {
        assert(r@ =~= base@ + ("/fd/")@ + spec_render(fd@));
    }
    r
}

/// The attachment header value for a resolved filename. The name is
/// inserted verbatim, without escaping quotes or control characters; a
/// caller that must guard against header injection falls back to the
/// identifier text, which is always well formed.
pub fn content_disposition(filename: &str) -> (r: String)
    ensures
        r@ == ("attachment; filename=\"")@ + filename@ + ("\"")@,
{
    let mut r = String::new();
    r.append("attachment; filename=\"");
    r.append(filename);
    r.append("\"");
    proof {
        assert(r@ =~= ("attachment; filename=\"")@ + filename@ + ("\"")@);
    }
    r
}

/// The storage core: blob store, metadata index, and the base URL download
/// links are built from. Constructed once at startup with its dependencies
/// explicit; no ambient globals.
pub struct TransferService {
    pub store: BlobStore,
    pub index: MetadataIndex,
    pub base_url: String,
}

impl TransferService {
    /// The standing invariant: both stores are well formed, and every index
    /// record has its blob (write-then-index ordering) and a decodable
    /// 4- or 16-byte uploader address.
    pub open spec fn wf(&self) -> bool {
        &&& self.store.wf()
        &&& self.index.wf()
        &&& forall|i: int|
            0 <= i < self.index@.len() ==> assoc_lookup(
                self.store@,
                (#[trigger] self.index@[i]).0,
            ) is Some && ((self.index@[i]).1.1.len() == 4 || (self.index@[i]).1.1.len() == 16)
    }

    /// A fresh service over empty stores.
    pub fn new(base_url: String) -> (r: TransferService)
        ensures
            r.wf(),
            r.store@.len() == 0,
            r.index@.len() == 0,
            r.base_url == base_url,
    {
        TransferService { store: BlobStore::new(), index: MetadataIndex::new(), base_url }
    }

    /// Every record has its blob: an identifier the index knows always has
    /// stored content, so a missing blob can only mean storage corruption.
    pub proof fn lemma_record_has_blob(&self, key: Seq<u8>)
        requires
            self.wf(),
            assoc_lookup(self.index@, key) is Some,
        ensures
            assoc_lookup(self.store@, key) is Some,
    {
        lemma_assoc_lookup_exists(self.index@, key);
    }

    /// Upload: write the blob, then insert the metadata record (display name
    /// and encoded uploader address), then answer the download URL followed
    /// by a newline. The identifier must be fresh, which minting guarantees
    /// with overwhelming probability.
    pub fn upload(
        &mut self,
        fd: &FileDescriptor,
        content: Vec<u8>,
        name: Option<String>,
        addr: &IpAddress,
    ) -> (url: String)
        requires
            old(self).wf(),
            fd.wf(),
            addr.wf(),
            assoc_lookup(old(self).index@, fd@) is None,
            assoc_lookup(old(self).store@, fd@) is None,
        ensures
            final(self).wf(),
            final(self).base_url == old(self).base_url,
            final(self).store@ == old(self).store@.push((fd@, content@)),
            final(self).index@ == old(self).index@.push((
                fd@,
                (opt_str_view(&name), spec_encode(addr)),
            )),
            url@ == old(self).base_url@ + ("/fd/")@ + spec_render(fd@) + ("\n")@,
    {
        self.store.write(fd, content);
        let ip = crate::addr::ip_to_bytes(addr);
        let ghost old_index = self.index@;
        self.index.insert(fd, name, ip);
        proof {
            assert forall|i: int| 0 <= i < self.index@.len() implies assoc_lookup(
                self.store@,
                (#[trigger] self.index@[i]).0,
            ) is Some && ((self.index@[i]).1.1.len() == 4 || (self.index@[i]).1.1.len() == 16) by {
                lemma_assoc_lookup_push(old(self).store@, fd@, content@, self.index@[i].0);
                if i < old_index.len() {
                    assert(self.index@[i] == old_index[i]);
                } else {
                    assert(self.index@[i].0 == fd@);
                }
            }
        }
        let mut url = download_url(self.base_url.as_str(), fd);
        url.append("\n");
        proof {
            assert(url@ =~= old(self).base_url@ + ("/fd/")@ + spec_render(fd@) + ("\n")@);
        }
        url
    }

    /// Download: parse the identifier (rejecting malformed text before any
    /// lookup), fetch the record (`NotFound` for an unknown identifier or an
    /// undecodable stored address), open the blob, and answer the content
    /// with the resolved response filename.
    pub fn download(&self, text: &str, name_override: Option<String>) -> (r: Result<
        (Vec<u8>, String),
        FileError,
    >)
        requires
            self.wf(),
        ensures
            r is Ok <==> (is_canonical(text@) && assoc_lookup(self.index@, bytes_of(text@)) is
            Some),
            !is_canonical(text@) ==> r == Err::<(Vec<u8>, String), FileError>(
                FileError::InvalidIdentifier,
            ),
            is_canonical(text@) && assoc_lookup(self.index@, bytes_of(text@)) is None ==> r
                == Err::<(Vec<u8>, String), FileError>(FileError::NotFound),
            match r {
                Ok(out) => assoc_lookup(self.store@, bytes_of(text@)) == Some(out.0@) && out.1@
                    == spec_download_name(
                    opt_str_view(&name_override),
                    assoc_lookup(self.index@, bytes_of(text@)).unwrap().0,
                    bytes_of(text@),
                ),
                Err(_) => true,
            },
    {
        let fd = match FileDescriptor::parse(text) {
            Ok(fd) => fd,
            Err(_) => {
                return Err(FileError::InvalidIdentifier);
            },
        };
        let entry = match self.index.lookup(&fd) {
            Some(e) => e,
            None => {
                return Err(FileError::NotFound);
            },
        };
        proof {
            lemma_assoc_lookup_exists(self.index@, fd@);
        }
        // An undecodable stored address is answered like an unknown
        // identifier; under the service invariant it cannot occur.
        let decoded = crate::addr::bytes_to_ip(&entry.upload_ip);
        if decoded.is_none() {
            proof {
                assert(false);
            }
            return Err(FileError::NotFound);
        }
        let content = match self.store.open(&fd) {
            Some(c) => c,
            None => {
                proof {
                    self.lemma_record_has_blob(fd@);
                    assert(false);
                }
                return Err(FileError::IoFault);
            },
        };
        let eff = crate::record::effective_name(name_override, &entry.name);
        let filename = crate::record::display_filename(&eff, &fd);
        Ok((crate::copy_bytes(content), filename))
    }
}

} // verus!
