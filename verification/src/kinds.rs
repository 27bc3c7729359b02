//! The vocabulary shared by every backend: where a file goes, what is asked
//! of it, and how a failure is classified and reported.

use vstd::prelude::*;

verus! {

/// The storage technology a request is directed at.
#[derive(Clone, Copy, Debug, PartialEq, Eq, Structural)]
pub enum StorageTarget {
    /// A directory tree below the destination root.
    Local,
    /// A bucket of an object store.
    Object,
    /// A table of a relational database.
    Relational,
}

/// What a request asks of its backend.
#[derive(Clone, Copy, Debug, PartialEq, Eq, Structural)]
pub enum Operation {
    /// Store the intake file of the given name.
    Put,
    /// Return the stored content of the given name.
    Get,
}

/// The classification of a failure, independent of the backend it arose in.
#[derive(Clone, Copy, Debug, PartialEq, Eq, Structural)]
pub enum ErrorKind {
    /// A payload, name or source is not valid UTF-8.
    InvalidEncoding,
    /// The named source file, stored file, object or row does not exist.
    NotFound,
    /// The intake file exists but could not be read.
    ReadFailure,
    /// The destination resource could not be created.
    ProvisionFailure,
    /// The backend failed a write or a read for any other reason.
    TransferFailure,
    /// Content was retrieved but is not text.
    DecodeFailure,
}

/// Status of a request that succeeded.
pub const STATUS_OK: u16 = 200;

/// Status of a request that the caller has to correct.
pub const STATUS_BAD_REQUEST: u16 = 400;

/// Status of a lookup that found nothing.
pub const STATUS_NOT_FOUND: u16 = 404;

/// Status of a request that failed on the server's side.
pub const STATUS_INTERNAL_ERROR: u16 = 500;

/// The HTTP status that reports a failure of kind `kind` to the caller of
/// operation `op` on `target`.
///
/// Invalid encoding is the caller's fault. A missing intake file is reported
/// to the writer as a bad request; a missing stored entry is reported as
/// absent only by the relational backend, the other two report it as a
/// server-side read failure. Everything else is a server-side failure.
pub open spec fn status_of(kind: ErrorKind, target: StorageTarget, op: Operation) -> u16 {
    match kind {
        ErrorKind::InvalidEncoding => STATUS_BAD_REQUEST,
        ErrorKind::NotFound => match op {
            Operation::Put => STATUS_BAD_REQUEST,
            Operation::Get => match target {
                StorageTarget::Relational => STATUS_NOT_FOUND,
                StorageTarget::Local => STATUS_INTERNAL_ERROR,
                StorageTarget::Object => STATUS_INTERNAL_ERROR,
            },
        },
        ErrorKind::ReadFailure => STATUS_INTERNAL_ERROR,
        ErrorKind::ProvisionFailure => STATUS_INTERNAL_ERROR,
        ErrorKind::TransferFailure => STATUS_INTERNAL_ERROR,
        ErrorKind::DecodeFailure => STATUS_INTERNAL_ERROR,
    }
}

/// The first segment of the path of the requests that ask `target` for
/// `op`. A write is posted and carries the name as its body; a read is a
/// plain retrieval and carries the name as the second and last segment.
pub open spec fn segment_of(target: StorageTarget, op: Operation) -> Seq<char> {
    match (target, op) {
        (StorageTarget::Local, Operation::Put) => "put-local"@,
        (StorageTarget::Local, Operation::Get) => "get-local"@,
        (StorageTarget::Object, Operation::Put) => "put-s3"@,
        (StorageTarget::Object, Operation::Get) => "get-s3"@,
        (StorageTarget::Relational, Operation::Put) => "put-mysql"@,
        (StorageTarget::Relational, Operation::Get) => "get-mysql"@,
    }
}

/// Computes [`segment_of`].
pub fn segment_for(target: StorageTarget, op: Operation) -> (segment: &'static str)
    ensures
        segment@ == segment_of(target, op),
{
    match target {
        StorageTarget::Local => match op {
            Operation::Put => "put-local",
            Operation::Get => "get-local",
        },
        StorageTarget::Object => match op {
            Operation::Put => "put-s3",
            Operation::Get => "get-s3",
        },
        StorageTarget::Relational => match op {
            Operation::Put => "put-mysql",
            Operation::Get => "get-mysql",
        },
    }
}

/// Computes [`status_of`].
pub fn status_for(kind: ErrorKind, target: StorageTarget, op: Operation) -> (status: u16)
    ensures
        status == status_of(kind, target, op),
{
    match kind {
        ErrorKind::InvalidEncoding => STATUS_BAD_REQUEST,
        ErrorKind::NotFound => match op {
            Operation::Put => STATUS_BAD_REQUEST,
            Operation::Get => match target {
                StorageTarget::Relational => STATUS_NOT_FOUND,
                _ => STATUS_INTERNAL_ERROR,
            },
        },
        _ => STATUS_INTERNAL_ERROR,
    }
}

} // verus!
