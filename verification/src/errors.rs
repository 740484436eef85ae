//! Error taxonomy of the transfer service, and the textual bodies that the
//! transport boundary serves for each failure class.
//!
//! Every fallible operation of the core returns one of these kinds; the
//! boundary maps each kind to exactly one HTTP status.

use vstd::prelude::*;

verus! {

/// The failure classes of the transfer service.
///
/// `StorageFault` is a durable-index fault and `IoFault` a filesystem fault
/// (both server-side); `InvalidIdentifier` is a malformed identifier in the
/// request path; `NotFound` is a syntactically valid but unknown identifier
/// (or a record whose stored address is unreadable); `InvalidForm` is an
/// upload with the wrong body shape for its route; `TooLarge` is an upload
/// over the configured size cap.
#[derive(Clone, Copy, PartialEq, Eq, Debug)]
pub enum FileError {
    StorageFault,
    IoFault,
    InvalidIdentifier,
    NotFound,
    InvalidForm,
    TooLarge,
}

/// The HTTP status that the boundary answers for each failure class.
pub fn status_of(e: &FileError) -> (s: u16)
    ensures
        e is StorageFault ==> s == 500,
        e is IoFault ==> s == 500,
        e is InvalidIdentifier ==> s == 400,
        e is NotFound ==> s == 404,
        e is InvalidForm ==> s == 422,
        e is TooLarge ==> s == 413,
{
    match e {
        FileError::StorageFault => 500,
        FileError::IoFault => 500,
        FileError::InvalidIdentifier => 400,
        FileError::NotFound => 404,
        FileError::InvalidForm => 422,
        FileError::TooLarge => 413,
    }
}

/// The response body sent along with each failure class.
pub fn message_of(e: &FileError) -> (m: &'static str)
    ensures
        e is StorageFault ==> m@ == (
        "EROFS: Read-only file system\n// I thought this error was impossible, but here we are.\n")@,
        e is IoFault ==> m@ == ("EIO: I/O error\n// RAID0 on a RAM drive was not a smart idea.\n")@,
        e is InvalidIdentifier ==> m@ == (
        "EINVAL: invalid argument\n// sfc /scannow in progress check back later.\n")@,
        e is NotFound ==> m@ == ("ENOENT: No such file or directory\n")@,
        e is InvalidForm ==> m@ == (
        "EINVAL: invalid argument\n// You are probably lost. Try and go back to the start.\n")@,
        e is TooLarge ==> m@ == (
        "ENOSPC: No space left on device\n// Maybe it's time to get a bigger hard drive?\n")@,
{
    match e {
        FileError::StorageFault => "EROFS: Read-only file system\n// I thought this error was impossible, but here we are.\n",
        FileError::IoFault => "EIO: I/O error\n// RAID0 on a RAM drive was not a smart idea.\n",
        FileError::InvalidIdentifier => "EINVAL: invalid argument\n// sfc /scannow in progress check back later.\n",
        FileError::NotFound => "ENOENT: No such file or directory\n",
        FileError::InvalidForm => "EINVAL: invalid argument\n// You are probably lost. Try and go back to the start.\n",
        FileError::TooLarge => "ENOSPC: No space left on device\n// Maybe it's time to get a bigger hard drive?\n",
    }
}

} // verus!
