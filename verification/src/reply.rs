//! What a request is answered with: a status, a text, and the kind of the
//! failure where there was one.

use crate::kinds::{status_for, status_of, ErrorKind, Operation, StorageTarget, STATUS_OK};
use vstd::prelude::*;

verus! {

/// The answer to one request. The body is plain text; encoding it for the
/// wire is left to the caller.
#[derive(Clone, Debug, PartialEq, Eq)]
pub struct Reply {
    /// HTTP status code.
    pub status: u16,
    /// Confirmation, content or diagnostic.
    pub body: String,
    /// The kind of failure, absent on success.
    pub error: Option<ErrorKind>,
}

/// A [`Reply`] as mathematics sees it.
pub struct ReplyView {
    pub status: u16,
    pub body: Seq<char>,
    pub error: Option<ErrorKind>,
}

impl View for Reply {
    type V = ReplyView;

    open spec fn view(&self) -> ReplyView {
        ReplyView { status: self.status, body: self.body@, error: self.error }
    }
}

/// The detail reported for stored bytes that are not text.
pub open spec fn not_text() -> Seq<char> {
    "stream did not contain valid UTF-8"@
}

/// How a successful write to `target` is announced, before the name.
pub open spec fn stored_prefix(target: StorageTarget) -> Seq<char> {
    match target {
        StorageTarget::Local => "File put locally: "@,
        StorageTarget::Object => "File put to S3: "@,
        StorageTarget::Relational => "File put to MySQL: "@,
    }
}

/// How a destination that could not be created is announced.
pub open spec fn unprovisioned_prefix(target: StorageTarget) -> Seq<char> {
    match target {
        StorageTarget::Local => "Failed to create directories: "@,
        StorageTarget::Object => "Failed to create bucket: "@,
        StorageTarget::Relational => "Failed to create table: "@,
    }
}

/// How a failed write to `target` is announced.
pub open spec fn store_failed_prefix(target: StorageTarget) -> Seq<char> {
    match target {
        StorageTarget::Local => "Failed to write file: "@,
        StorageTarget::Object => "Failed to put file to S3: "@,
        StorageTarget::Relational => "Failed to put file to MySQL: "@,
    }
}

/// How an entry that `target` does not hold is announced, before the name.
pub open spec fn entry_missing_prefix(target: StorageTarget) -> Seq<char> {
    match target {
        StorageTarget::Local => "File not found in local store: "@,
        StorageTarget::Object => "File not found in S3: "@,
        StorageTarget::Relational => "File not found in MySQL: "@,
    }
}

/// How a failed read from `target` is announced.
pub open spec fn fetch_failed_prefix(target: StorageTarget) -> Seq<char> {
    match target {
        StorageTarget::Local => "Failed to read file: "@,
        StorageTarget::Object => "Failed to get file from S3: "@,
        StorageTarget::Relational => "Failed to get file from MySQL: "@,
    }
}

/// How content of `target` that is not text is announced.
pub open spec fn undecodable_prefix(target: StorageTarget) -> Seq<char> {
    match target {
        StorageTarget::Local => "Failed to read file: "@,
        StorageTarget::Object => "Failed to decode object: "@,
        StorageTarget::Relational => "Failed to decode TEXT column: "@,
    }
}

/// The reply to a failure of `kind` with the diagnostic `text`.
pub open spec fn failure(
    kind: ErrorKind,
    target: StorageTarget,
    op: Operation,
    text: Seq<char>,
) -> ReplyView {
    ReplyView { status: status_of(kind, target, op), body: text, error: Some(kind) }
}

/// The reply to a successful read: the content itself.
pub open spec fn content_reply(content: Seq<char>) -> ReplyView {
    ReplyView { status: STATUS_OK, body: content, error: None }
}

/// The reply to a successful write of `name` to `target`.
pub open spec fn stored_reply(target: StorageTarget, name: Seq<char>) -> ReplyView {
    ReplyView { status: STATUS_OK, body: stored_prefix(target) + name, error: None }
}

/// The reply to a write whose payload or source is not UTF-8.
pub open spec fn invalid_encoding_reply(target: StorageTarget) -> ReplyView {
    failure(ErrorKind::InvalidEncoding, target, Operation::Put, "Invalid UTF-8 sequence"@)
}

/// The reply to a write whose name has no intake file.
pub open spec fn source_missing_reply(target: StorageTarget) -> ReplyView {
    failure(ErrorKind::NotFound, target, Operation::Put, "File not found"@)
}

/// The reply to a write whose intake file could not be read.
pub open spec fn source_unreadable_reply(target: StorageTarget, detail: Seq<char>) -> ReplyView {
    failure(ErrorKind::ReadFailure, target, Operation::Put, "Failed to read file: "@ + detail)
}

/// The reply to a write whose destination could not be created.
pub open spec fn unprovisioned_reply(target: StorageTarget, detail: Seq<char>) -> ReplyView {
    failure(
        ErrorKind::ProvisionFailure,
        target,
        Operation::Put,
        unprovisioned_prefix(target) + detail,
    )
}

/// The reply to a write that the backend failed.
pub open spec fn store_failed_reply(target: StorageTarget, detail: Seq<char>) -> ReplyView {
    failure(
        ErrorKind::TransferFailure,
        target,
        Operation::Put,
        store_failed_prefix(target) + detail,
    )
}

/// The reply to a read of a name that `target` does not hold.
pub open spec fn entry_missing_reply(target: StorageTarget, name: Seq<char>) -> ReplyView {
    failure(ErrorKind::NotFound, target, Operation::Get, entry_missing_prefix(target) + name)
}

/// The reply to a read that the backend failed.
pub open spec fn fetch_failed_reply(target: StorageTarget, detail: Seq<char>) -> ReplyView {
    failure(
        ErrorKind::TransferFailure,
        target,
        Operation::Get,
        fetch_failed_prefix(target) + detail,
    )
}

/// The reply to a read whose content is not text.
pub open spec fn undecodable_reply(target: StorageTarget, detail: Seq<char>) -> ReplyView {
    failure(
        ErrorKind::DecodeFailure,
        target,
        Operation::Get,
        undecodable_prefix(target) + detail,
    )
}

/// `prefix` followed by `rest`, as an owned string.
fn prefixed(prefix: &str, rest: &str) -> (text: String)
    ensures
        text@ == prefix@ + rest@,
{
    prefix.to_owned().concat(rest)
}

/// Builds the reply to a failure.
fn fail(kind: ErrorKind, target: StorageTarget, op: Operation, text: String) -> (reply: Reply)
    ensures
        reply@ == failure(kind, target, op, text@),
{
    Reply { status: status_for(kind, target, op), body: text, error: Some(kind) }
}

impl Reply {
    /// Builds [`content_reply`].
    pub fn content(content: String) -> (reply: Reply)
        ensures
            reply@ == content_reply(content@),
    {
        Reply { status: STATUS_OK, body: content, error: None }
    }

    /// Builds [`stored_reply`].
    pub fn stored(target: StorageTarget, name: &str) -> (reply: Reply)
        ensures
            reply@ == stored_reply(target, name@),
    {
        let body = match target {
            StorageTarget::Local => prefixed("File put locally: ", name),
            StorageTarget::Object => prefixed("File put to S3: ", name),
            StorageTarget::Relational => prefixed("File put to MySQL: ", name),
        };
        Reply { status: STATUS_OK, body, error: None }
    }

    /// Builds [`invalid_encoding_reply`].
    pub fn invalid_encoding(target: StorageTarget) -> (reply: Reply)
        ensures
            reply@ == invalid_encoding_reply(target),
    {
        fail(
            ErrorKind::InvalidEncoding,
            target,
            Operation::Put,
            "Invalid UTF-8 sequence".to_owned(),
        )
    }

    /// Builds [`source_missing_reply`].
    pub fn source_missing(target: StorageTarget) -> (reply: Reply)
        ensures
            reply@ == source_missing_reply(target),
    {
        fail(ErrorKind::NotFound, target, Operation::Put, "File not found".to_owned())
    }

    /// Builds [`source_unreadable_reply`].
    pub fn source_unreadable(target: StorageTarget, detail: &str) -> (reply: Reply)
        ensures
            reply@ == source_unreadable_reply(target, detail@),
    {
        fail(
            ErrorKind::ReadFailure,
            target,
            Operation::Put,
            prefixed("Failed to read file: ", detail),
        )
    }

    /// Builds [`unprovisioned_reply`].
    pub fn unprovisioned(target: StorageTarget, detail: &str) -> (reply: Reply)
        ensures
            reply@ == unprovisioned_reply(target, detail@),
    {
        let body = match target {
            StorageTarget::Local => prefixed("Failed to create directories: ", detail),
            StorageTarget::Object => prefixed("Failed to create bucket: ", detail),
            StorageTarget::Relational => prefixed("Failed to create table: ", detail),
        };
        fail(ErrorKind::ProvisionFailure, target, Operation::Put, body)
    }

    /// Builds [`store_failed_reply`].
    pub fn store_failed(target: StorageTarget, detail: &str) -> (reply: Reply)
        ensures
            reply@ == store_failed_reply(target, detail@),
    {
        let body = match target {
            StorageTarget::Local => prefixed("Failed to write file: ", detail),
            StorageTarget::Object => prefixed("Failed to put file to S3: ", detail),
            StorageTarget::Relational => prefixed("Failed to put file to MySQL: ", detail),
        };
        fail(ErrorKind::TransferFailure, target, Operation::Put, body)
    }

    /// Builds [`entry_missing_reply`].
    pub fn entry_missing(target: StorageTarget, name: &str) -> (reply: Reply)
        ensures
            reply@ == entry_missing_reply(target, name@),
    {
        let body = match target {
            StorageTarget::Local => prefixed("File not found in local store: ", name),
            StorageTarget::Object => prefixed("File not found in S3: ", name),
            StorageTarget::Relational => prefixed("File not found in MySQL: ", name),
        };
        fail(ErrorKind::NotFound, target, Operation::Get, body)
    }

    /// Builds [`fetch_failed_reply`].
    pub fn fetch_failed(target: StorageTarget, detail: &str) -> (reply: Reply)
        ensures
            reply@ == fetch_failed_reply(target, detail@),
    {
        let body = match target {
            StorageTarget::Local => prefixed("Failed to read file: ", detail),
            StorageTarget::Object => prefixed("Failed to get file from S3: ", detail),
            StorageTarget::Relational => prefixed("Failed to get file from MySQL: ", detail),
        };
        fail(ErrorKind::TransferFailure, target, Operation::Get, body)
    }

    /// Builds [`undecodable_reply`].
    pub fn undecodable(target: StorageTarget, detail: &str) -> (reply: Reply)
        ensures
            reply@ == undecodable_reply(target, detail@),
    {
        let body = match target {
            StorageTarget::Local => prefixed("Failed to read file: ", detail),
            StorageTarget::Object => prefixed("Failed to decode object: ", detail),
            StorageTarget::Relational => prefixed("Failed to decode TEXT column: ", detail),
        };
        fail(ErrorKind::DecodeFailure, target, Operation::Get, body)
    }
}

} // verus!
