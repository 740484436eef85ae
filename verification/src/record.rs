//! Metadata records: the durable row linking an identifier to its optional
//! display name and uploader address, and the request-scoped decisions made
//! over one (display-name override, row decoding).

use vstd::prelude::*;
use crate::addr::IpAddress;
use crate::addr::decodes_to;
use crate::ident::FileDescriptor;
use crate::ident::spec_render;

verus! {

/// The spec-level text of an optional display name.
pub open spec fn opt_str_view(o: &Option<String>) -> Option<Seq<char>> {
    match o {
        Some(s) => Some(s@),
        None => None,
    }
}

/// A metadata record: identifier, optional display name, uploader address.
/// Created once at upload time, never mutated.
pub struct FileInfo {
    pub fd: FileDescriptor,
    pub name: Option<String>,
    pub upload_ip: IpAddress,
}

impl FileInfo {
    /// Identifier and address both well formed.
    pub open spec fn wf(&self) -> bool {
        self.fd.wf() && self.upload_ip.wf()
    }

    /// Assemble a record from its parts.
    pub fn new(fd: FileDescriptor, name: Option<String>, upload_ip: IpAddress) -> (r: FileInfo)
        ensures
            r.fd == fd,
            r.name == name,
            r.upload_ip == upload_ip,
    {
        FileInfo { fd, name, upload_ip }
    }
}

/// Decode a row fetched from the index into a record. A stored address of
/// any length but 4 or 16 makes the row undecodable, and the record is then
/// treated as absent (`None`) rather than as a hard error, so that a corrupt
/// address is answered like an unknown identifier.
pub fn record_from_row(fd: FileDescriptor, name: Option<String>, upload_ip: Vec<u8>) -> (r: Option<
    FileInfo,
>)
    requires
        fd.wf(),
    ensures
        r is Some <==> (upload_ip@.len() == 4 || upload_ip@.len() == 16),
        match r {
            Some(info) => info.wf() && info.fd@ == fd@ && opt_str_view(&info.name) == opt_str_view(
                &name,
            ) && decodes_to(upload_ip@, &info.upload_ip),
            None => true,
        },
{
    match crate::addr::bytes_to_ip(&upload_ip) {
        Some(a) => Some(FileInfo { fd, name, upload_ip: a }),
        None => None,
    }
}

/// The filename put in the download response header: the stored (or
/// overriding) display name when one is present, else the identifier's
/// canonical text, which is always well formed.
pub fn display_filename(name: &Option<String>, fd: &FileDescriptor) -> (r: String)
    requires
        fd.wf(),
    ensures
        match name {
            Some(n) => r@ == n@,
            None => r@ == spec_render(fd@),
        },
{
    match name {
        Some(n) => n.clone(),
        None => fd.render(),
    }
}

/// Apply the optional path-supplied override over the stored display name,
/// for the response only: the override always wins when present.
pub fn effective_name(name_override: Option<String>, stored: &Option<String>) -> (r: Option<
    String,
>)
    ensures
        match name_override {
            Some(n) => opt_str_view(&r) == Some(n@),
            None => opt_str_view(&r) == opt_str_view(stored),
        },
{
    match name_override {
        Some(n) => Some(n),
        None => match stored {
            Some(m) => Some(m.clone()),
            None => None,
        },
    }
}

} // verus!
