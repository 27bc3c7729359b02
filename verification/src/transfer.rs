//! The course of one request, from its payload to its reply.
//!
//! A request is carried out in steps. Each function here takes what the
//! previous step brought and says what is to be done next: an action against
//! the file system, the object store or the database, or the reply that ends
//! the request. The caller performs the action, reports its outcome to the
//! function that the step names, and goes on until it holds a reply. No step
//! is taken twice, and the first failure ends the request.

use crate::kinds::{status_of, Operation, StorageTarget, STATUS_OK};
use crate::name::{climbs, confined, is_confined, join, joined, lemma_confined_stays_below};
use crate::payload::{payload_bytes, payload_slice};
use crate::provision::{
    available, calls_for_creation, needs_creation, CreateOutcome, CreateOutcomeView,
    ProbeOutcome,
};
use crate::reply::{
    content_reply, entry_missing_reply, fetch_failed_reply, invalid_encoding_reply, not_text,
    source_missing_reply, source_unreadable_reply, store_failed_reply, stored_reply,
    undecodable_reply, unprovisioned_reply, Reply, ReplyView,
};
use crate::text::{decode_lossy, decode_strict, lenient_text};
use bytes::Bytes;
use vstd::prelude::*;
use vstd::utf8::{decode_utf8, valid_utf8};

verus! {

/// The two directories that requests work in.
#[derive(Clone, Debug, PartialEq, Eq)]
pub struct Roots {
    /// Where the files to be stored are taken from.
    pub intake: String,
    /// Where the local backend keeps its files.
    pub store: String,
}

/// [`Roots`] as mathematics sees it.
pub struct RootsView {
    pub intake: Seq<char>,
    pub store: Seq<char>,
}

impl View for Roots {
    type V = RootsView;

    open spec fn view(&self) -> RootsView {
        RootsView { intake: self.intake@, store: self.store@ }
    }
}

/// How the attempt to read an intake file ended.
#[derive(Clone, Debug, PartialEq, Eq)]
pub enum SourceOutcome {
    /// The file was read; its bytes.
    Read(Vec<u8>),
    /// There is no such file.
    Missing,
    /// The file is there but could not be read; the diagnostic.
    Failed(String),
}

/// A [`SourceOutcome`] as mathematics sees it.
pub enum SourceOutcomeView {
    Read(Seq<u8>),
    Missing,
    Failed(Seq<char>),
}

impl View for SourceOutcome {
    type V = SourceOutcomeView;

    open spec fn view(&self) -> SourceOutcomeView {
        match self {
            SourceOutcome::Read(bytes) => SourceOutcomeView::Read(bytes@),
            SourceOutcome::Missing => SourceOutcomeView::Missing,
            SourceOutcome::Failed(detail) => SourceOutcomeView::Failed(detail@),
        }
    }
}

/// How a write to a backend ended.
#[derive(Clone, Debug, PartialEq, Eq)]
pub enum StoreOutcome {
    /// The content is stored.
    Stored,
    /// The place to write to could not be made; the diagnostic.
    Unprovisioned(String),
    /// The write itself failed; the diagnostic.
    Failed(String),
}

/// A [`StoreOutcome`] as mathematics sees it.
pub enum StoreOutcomeView {
    Stored,
    Unprovisioned(Seq<char>),
    Failed(Seq<char>),
}

impl View for StoreOutcome {
    type V = StoreOutcomeView;

    open spec fn view(&self) -> StoreOutcomeView {
        match self {
            StoreOutcome::Stored => StoreOutcomeView::Stored,
            StoreOutcome::Unprovisioned(detail) => StoreOutcomeView::Unprovisioned(detail@),
            StoreOutcome::Failed(detail) => StoreOutcomeView::Failed(detail@),
        }
    }
}

/// How a read from a backend ended.
#[derive(Clone, Debug, PartialEq, Eq)]
pub enum FetchOutcome {
    /// The entry was found; its bytes.
    Found(Vec<u8>),
    /// The backend holds no entry of that name.
    Missing,
    /// The entry was found but the backend could not hand it out as text;
    /// the diagnostic.
    Undecodable(String),
    /// The read failed for another reason; the diagnostic.
    Failed(String),
}

/// A [`FetchOutcome`] as mathematics sees it.
pub enum FetchOutcomeView {
    Found(Seq<u8>),
    Missing,
    Undecodable(Seq<char>),
    Failed(Seq<char>),
}

impl View for FetchOutcome {
    type V = FetchOutcomeView;

    open spec fn view(&self) -> FetchOutcomeView {
        match self {
            FetchOutcome::Found(bytes) => FetchOutcomeView::Found(bytes@),
            FetchOutcome::Missing => FetchOutcomeView::Missing,
            FetchOutcome::Undecodable(detail) => FetchOutcomeView::Undecodable(detail@),
            FetchOutcome::Failed(detail) => FetchOutcomeView::Failed(detail@),
        }
    }
}

/// What is to be done next for a request, and the function that takes the
/// outcome.
#[derive(Clone, Debug, PartialEq, Eq)]
pub enum Step {
    /// Read the intake file at `path`; then [`source_read`].
    ReadSource { name: String, path: String },
    /// Make the directories that `path` lies in and write `content` there,
    /// replacing what is there; then [`stored`].
    WriteFile { name: String, path: String, content: String },
    /// Look whether the bucket exists; then [`bucket_probed`].
    ProbeBucket { name: String, content: String },
    /// Create the bucket; then [`bucket_created`].
    CreateBucket { name: String, content: String },
    /// Upload `body` as the object `key`, replacing what is there; then
    /// [`stored`].
    PutObject { key: String, body: String },
    /// Insert the row `(name, data)`; then [`stored`].
    InsertRow { name: String, data: String },
    /// Read the stored file at `path`; then [`fetched`].
    ReadFile { name: String, path: String },
    /// Fetch the object `key`; then [`fetched`].
    GetObject { key: String },
    /// Select a row whose name is `name`; then [`fetched`].
    SelectRow { name: String },
    /// Answer the request; nothing follows.
    Respond(Reply),
}

/// A [`Step`] as mathematics sees it.
pub enum StepView {
    ReadSource { name: Seq<char>, path: Seq<char> },
    WriteFile { name: Seq<char>, path: Seq<char>, content: Seq<char> },
    ProbeBucket { name: Seq<char>, content: Seq<char> },
    CreateBucket { name: Seq<char>, content: Seq<char> },
    PutObject { key: Seq<char>, body: Seq<char> },
    InsertRow { name: Seq<char>, data: Seq<char> },
    ReadFile { name: Seq<char>, path: Seq<char> },
    GetObject { key: Seq<char> },
    SelectRow { name: Seq<char> },
    Respond(ReplyView),
}

impl View for Step {
    type V = StepView;

    open spec fn view(&self) -> StepView {
        match self {
            Step::ReadSource { name, path } => StepView::ReadSource { name: name@, path: path@ },
            Step::WriteFile { name, path, content } => StepView::WriteFile {
                name: name@,
                path: path@,
                content: content@,
            },
            Step::ProbeBucket { name, content } => StepView::ProbeBucket {
                name: name@,
                content: content@,
            },
            Step::CreateBucket { name, content } => StepView::CreateBucket {
                name: name@,
                content: content@,
            },
            Step::PutObject { key, body } => StepView::PutObject { key: key@, body: body@ },
            Step::InsertRow { name, data } => StepView::InsertRow { name: name@, data: data@ },
            Step::ReadFile { name, path } => StepView::ReadFile { name: name@, path: path@ },
            Step::GetObject { key } => StepView::GetObject { key: key@ },
            Step::SelectRow { name } => StepView::SelectRow { name: name@ },
            Step::Respond(reply) => StepView::Respond(reply@),
        }
    }
}

/// The first step of a write. The payload is the name of the file, as bytes.
/// A payload that is not UTF-8 is refused as such. A name that is not
/// confined has no intake file, whatever the file system holds. Any other
/// name is looked for below the intake root.
pub open spec fn put_first(target: StorageTarget, payload: Seq<u8>, roots: RootsView) -> StepView {
    if !valid_utf8(payload) {
        StepView::Respond(invalid_encoding_reply(target))
    } else if !confined(decode_utf8(payload)) {
        StepView::Respond(source_missing_reply(target))
    } else {
        StepView::ReadSource {
            name: decode_utf8(payload),
            path: joined(roots.intake, decode_utf8(payload)),
        }
    }
}

/// The first step of putting `content` to `target` under `name`. The local
/// store writes the file that the name is confined to; a name that is not
/// confined names no place there. The object store begins with a look at
/// its bucket, whose existence is not remembered from one write to the
/// next. The database inserts at once, its table having been ensured at
/// startup.
pub open spec fn put_to_backend(
    target: StorageTarget,
    name: Seq<char>,
    content: Seq<char>,
    roots: RootsView,
) -> StepView {
    match target {
        StorageTarget::Local => if confined(name) {
            StepView::WriteFile { name, path: joined(roots.store, name), content }
        } else {
            StepView::Respond(source_missing_reply(target))
        },
        StorageTarget::Object => StepView::ProbeBucket { name, content },
        StorageTarget::Relational => StepView::InsertRow { name, data: content },
    }
}

/// The step of a write that follows the reading of the intake file. A source
/// that is missing, unreadable or not UTF-8 ends the request, and so does a
/// name that is not confined, which no source can have been read for.
/// Otherwise the text of the source is put to the backend.
pub open spec fn put_after_source(
    target: StorageTarget,
    name: Seq<char>,
    outcome: SourceOutcomeView,
    roots: RootsView,
) -> StepView {
    if !confined(name) {
        StepView::Respond(source_missing_reply(target))
    } else {
        match outcome {
            SourceOutcomeView::Missing => StepView::Respond(source_missing_reply(target)),
            SourceOutcomeView::Failed(detail) => StepView::Respond(
                source_unreadable_reply(target, detail),
            ),
            SourceOutcomeView::Read(bytes) => if !valid_utf8(bytes) {
                StepView::Respond(invalid_encoding_reply(target))
            } else {
                put_to_backend(target, name, decode_utf8(bytes), roots)
            },
        }
    }
}

/// The step of a write to the object store that follows the look at the
/// bucket: create it where it is known to be absent, upload otherwise.
pub open spec fn put_after_probe(
    name: Seq<char>,
    content: Seq<char>,
    outcome: ProbeOutcome,
) -> StepView {
    if calls_for_creation(outcome) {
        StepView::CreateBucket { name, content }
    } else {
        StepView::PutObject { key: name, body: content }
    }
}

/// The step of a write to the object store that follows the creation of the
/// bucket: upload where the bucket is available, and end the request where
/// it could not be created.
pub open spec fn put_after_create(
    name: Seq<char>,
    content: Seq<char>,
    outcome: CreateOutcomeView,
) -> StepView {
    match outcome {
        CreateOutcomeView::Failed(detail) => StepView::Respond(
            unprovisioned_reply(StorageTarget::Object, detail),
        ),
        _ => StepView::PutObject { key: name, body: content },
    }
}

/// The reply that ends a write, given how the backend took it.
pub open spec fn put_last(
    target: StorageTarget,
    name: Seq<char>,
    outcome: StoreOutcomeView,
) -> ReplyView {
    match outcome {
        StoreOutcomeView::Stored => stored_reply(target, name),
        StoreOutcomeView::Unprovisioned(detail) => unprovisioned_reply(target, detail),
        StoreOutcomeView::Failed(detail) => store_failed_reply(target, detail),
    }
}

/// The first step of a read. The local store is asked for the file that the
/// name is confined to; a name that is not confined names nothing there. The
/// object store and the database are asked for the name as it is.
pub open spec fn get_first(target: StorageTarget, name: Seq<char>, roots: RootsView) -> StepView {
    match target {
        StorageTarget::Local => if confined(name) {
            StepView::ReadFile { name, path: joined(roots.store, name) }
        } else {
            StepView::Respond(entry_missing_reply(target, name))
        },
        StorageTarget::Object => StepView::GetObject { key: name },
        StorageTarget::Relational => StepView::SelectRow { name },
    }
}

/// The reply that ends a read, given what the backend brought. Content from
/// the object store is decoded leniently and so always yields text. Content
/// from the other two is decoded strictly.
pub open spec fn get_last(
    target: StorageTarget,
    name: Seq<char>,
    outcome: FetchOutcomeView,
) -> ReplyView {
    match outcome {
        FetchOutcomeView::Found(bytes) => if target == StorageTarget::Object {
            content_reply(lenient_text(bytes))
        } else if valid_utf8(bytes) {
            content_reply(decode_utf8(bytes))
        } else {
            undecodable_reply(target, not_text())
        },
        FetchOutcomeView::Missing => entry_missing_reply(target, name),
        FetchOutcomeView::Undecodable(detail) => undecodable_reply(target, detail),
        FetchOutcomeView::Failed(detail) => fetch_failed_reply(target, detail),
    }
}

impl Roots {
    /// The roots `intake` and `store`.
    pub fn new(intake: String, store: String) -> (roots: Roots)
        ensures
            roots@ == (RootsView { intake: intake@, store: store@ }),
    {
        Roots { intake, store }
    }

    /// The roots of a deployment in its container: the downloads directory
    /// of the application, and `local_store` below the working directory.
    pub fn standard() -> (roots: Roots)
        ensures
            roots@ == (RootsView {
                intake: "/usr/src/app/Downloads"@,
                store: "local_store"@,
            }),
    {
        Roots { intake: "/usr/src/app/Downloads".to_owned(), store: "local_store".to_owned() }
    }
}

/// Takes the first step of a write whose payload is `bytes`.
pub fn begin_put_from(target: StorageTarget, bytes: &[u8], roots: &Roots) -> (step: Step)
    ensures
        step@ == put_first(target, bytes@, roots@),
{
    match decode_strict(bytes) {
        None => Step::Respond(Reply::invalid_encoding(target)),
        Some(name) => {
            if is_confined(name.as_str()) {
                let path = join(roots.intake.as_str(), name.as_str());
                Step::ReadSource { name, path }
            } else {
                Step::Respond(Reply::source_missing(target))
            }
        },
    }
}

/// Takes the first step of a write whose payload arrived in `payload`.
pub fn begin_put(target: StorageTarget, payload: &Bytes, roots: &Roots) -> (step: Step)
    ensures
        step@ == put_first(target, payload_bytes(*payload), roots@),
{
    begin_put_from(target, payload_slice(payload), roots)
}

/// Takes the first step of putting `content` to `target` under `name`.
pub fn put(target: StorageTarget, name: String, content: String, roots: &Roots) -> (step: Step)
    ensures
        step@ == put_to_backend(target, name@, content@, roots@),
{
    match target {
        StorageTarget::Local => {
            if is_confined(name.as_str()) {
                let path = join(roots.store.as_str(), name.as_str());
                Step::WriteFile { name, path, content }
            } else {
                Step::Respond(Reply::source_missing(target))
            }
        },
        StorageTarget::Object => Step::ProbeBucket { name, content },
        StorageTarget::Relational => Step::InsertRow { name, data: content },
    }
}

/// Takes the step that follows [`Step::ReadSource`].
pub fn source_read(
    target: StorageTarget,
    name: String,
    outcome: SourceOutcome,
    roots: &Roots,
) -> (step: Step)
    ensures
        step@ == put_after_source(target, name@, outcome@, roots@),
{
    if !is_confined(name.as_str()) {
        return Step::Respond(Reply::source_missing(target));
    }
    match outcome {
        SourceOutcome::Missing => Step::Respond(Reply::source_missing(target)),
        SourceOutcome::Failed(detail) => Step::Respond(
            Reply::source_unreadable(target, detail.as_str()),
        ),
        SourceOutcome::Read(bytes) => match decode_strict(bytes.as_slice()) {
            None => Step::Respond(Reply::invalid_encoding(target)),
            Some(content) => put(target, name, content, roots),
        },
    }
}

/// Takes the step that follows [`Step::ProbeBucket`].
pub fn bucket_probed(name: String, content: String, outcome: ProbeOutcome) -> (step: Step)
    ensures
        step@ == put_after_probe(name@, content@, outcome),
{
    if needs_creation(outcome) {
        Step::CreateBucket { name, content }
    } else {
        Step::PutObject { key: name, body: content }
    }
}

/// Takes the step that follows [`Step::CreateBucket`].
pub fn bucket_created(name: String, content: String, outcome: CreateOutcome) -> (step: Step)
    ensures
        step@ == put_after_create(name@, content@, outcome@),
{
    match outcome {
        CreateOutcome::Failed(detail) => Step::Respond(
            Reply::unprovisioned(StorageTarget::Object, detail.as_str()),
        ),
        _ => Step::PutObject { key: name, body: content },
    }
}

/// Ends a write: follows [`Step::WriteFile`], [`Step::PutObject`] and
/// [`Step::InsertRow`].
pub fn stored(target: StorageTarget, name: &str, outcome: StoreOutcome) -> (reply: Reply)
    ensures
        reply@ == put_last(target, name@, outcome@),
{
    match outcome {
        StoreOutcome::Stored => Reply::stored(target, name),
        StoreOutcome::Unprovisioned(detail) => Reply::unprovisioned(target, detail.as_str()),
        StoreOutcome::Failed(detail) => Reply::store_failed(target, detail.as_str()),
    }
}

/// Takes the first step of a read of `name`.
pub fn begin_get(target: StorageTarget, name: String, roots: &Roots) -> (step: Step)
    ensures
        step@ == get_first(target, name@, roots@),
{
    match target {
        StorageTarget::Local => {
            if is_confined(name.as_str()) {
                let path = join(roots.store.as_str(), name.as_str());
                Step::ReadFile { name, path }
            } else {
                Step::Respond(Reply::entry_missing(target, name.as_str()))
            }
        },
        StorageTarget::Object => Step::GetObject { key: name },
        StorageTarget::Relational => Step::SelectRow { name },
    }
}

/// Ends a read: follows [`Step::ReadFile`], [`Step::GetObject`] and
/// [`Step::SelectRow`].
pub fn fetched(target: StorageTarget, name: &str, outcome: FetchOutcome) -> (reply: Reply)
    ensures
        reply@ == get_last(target, name@, outcome@),
{
    match outcome {
        FetchOutcome::Found(bytes) => match target {
            StorageTarget::Object => Reply::content(decode_lossy(bytes.as_slice())),
            _ => match decode_strict(bytes.as_slice()) {
                Some(content) => Reply::content(content),
                None => Reply::undecodable(target, "stream did not contain valid UTF-8"),
            },
        },
        FetchOutcome::Missing => Reply::entry_missing(target, name),
        FetchOutcome::Undecodable(detail) => Reply::undecodable(target, detail.as_str()),
        FetchOutcome::Failed(detail) => Reply::fetch_failed(target, detail.as_str()),
    }
}

/// How many steps a request can still take when `step` is its next one: an
/// upper bound.
pub open spec fn steps_left(step: StepView) -> nat {
    match step {
        StepView::ReadSource { .. } => 4,
        StepView::ProbeBucket { .. } => 3,
        StepView::CreateBucket { .. } => 2,
        StepView::Respond(_) => 0,
        _ => 1,
    }
}

/// No step is taken twice. Whatever the outcome of a step is, the step that
/// follows it is nearer to the reply, and a request is answered after four
/// steps at most.
pub proof fn law_steps_run_out(
    target: StorageTarget,
    payload: Seq<u8>,
    name: Seq<char>,
    content: Seq<char>,
    source: SourceOutcomeView,
    probed: ProbeOutcome,
    created: CreateOutcomeView,
    roots: RootsView,
)
    ensures
        steps_left(put_first(target, payload, roots)) <= 4,
        steps_left(put_after_source(target, name, source, roots)) <= 3,
        steps_left(put_to_backend(target, name, content, roots)) <= 3,
        steps_left(put_after_probe(name, content, probed)) <= 2,
        steps_left(put_after_create(name, content, created)) <= 1,
        steps_left(get_first(target, name, roots)) <= 1,
{
}

/// Whether the path that `step` works on, if it has one, is the join of its
/// root and a confined name: the intake root for a source, the destination
/// root for a stored file.
pub open spec fn step_stays_below(step: StepView, roots: RootsView) -> bool {
    match step {
        StepView::ReadSource { name, path } => confined(name) && path == joined(
            roots.intake,
            name,
        ),
        StepView::WriteFile { name, path, .. } => confined(name) && path == joined(
            roots.store,
            name,
        ),
        StepView::ReadFile { name, path } => confined(name) && path == joined(roots.store, name),
        _ => true,
    }
}

/// Whether the status of `reply` is the one that the table of statuses
/// gives for its kind of failure, and the status of success where it
/// reports none.
pub open spec fn follows_the_table(reply: ReplyView, target: StorageTarget, op: Operation) -> bool {
    match reply.error {
        None => reply.status == STATUS_OK,
        Some(kind) => reply.status == status_of(kind, target, op) && reply.status != STATUS_OK,
    }
}

/// Whether `step`, if it is a reply, follows the table of statuses.
pub open spec fn step_follows_the_table(
    step: StepView,
    target: StorageTarget,
    op: Operation,
) -> bool {
    step matches StepView::Respond(reply) ==> follows_the_table(reply, target, op)
}

/// No name leads out of a root. Whatever the payload, the name and the
/// outcome of reading the source are, a step that touches the file system
/// works on the join of its root and a confined name; by
/// [`lemma_confined_stays_below`] such a path begins with the root and
/// climbs only where the root itself does.
pub proof fn law_steps_stay_below(
    target: StorageTarget,
    payload: Seq<u8>,
    name: Seq<char>,
    content: Seq<char>,
    source: SourceOutcomeView,
    roots: RootsView,
)
    ensures
        step_stays_below(put_first(target, payload, roots), roots),
        step_stays_below(put_after_source(target, name, source, roots), roots),
        step_stays_below(put_to_backend(target, name, content, roots), roots),
        step_stays_below(get_first(target, name, roots), roots),
        put_first(target, payload, roots) matches StepView::ReadSource { path, .. }
            ==> roots.intake.is_prefix_of(path) && (climbs(path) ==> climbs(roots.intake)),
        put_after_source(target, name, source, roots) matches StepView::WriteFile { path, .. }
            ==> roots.store.is_prefix_of(path) && (climbs(path) ==> climbs(roots.store)),
        put_to_backend(target, name, content, roots) matches StepView::WriteFile { path, .. }
            ==> roots.store.is_prefix_of(path) && (climbs(path) ==> climbs(roots.store)),
        get_first(target, name, roots) matches StepView::ReadFile { path, .. }
            ==> roots.store.is_prefix_of(path) && (climbs(path) ==> climbs(roots.store)),
{
    if valid_utf8(payload) && confined(decode_utf8(payload)) {
        lemma_confined_stays_below(roots.intake, decode_utf8(payload));
    }
    if confined(name) {
        lemma_confined_stays_below(roots.store, name);
    }
}

/// Every failure reaches the caller under the status that the table gives
/// for its kind, and success under the status of success: this holds of
/// every reply that any step of a request can end in.
pub proof fn law_replies_follow_the_table(
    target: StorageTarget,
    payload: Seq<u8>,
    name: Seq<char>,
    content: Seq<char>,
    source: SourceOutcomeView,
    created: CreateOutcomeView,
    written: StoreOutcomeView,
    read: FetchOutcomeView,
    roots: RootsView,
)
    ensures
        step_follows_the_table(put_first(target, payload, roots), target, Operation::Put),
        step_follows_the_table(
            put_after_source(target, name, source, roots),
            target,
            Operation::Put,
        ),
        step_follows_the_table(
            put_to_backend(target, name, content, roots),
            target,
            Operation::Put,
        ),
        step_follows_the_table(
            put_after_create(name, content, created),
            StorageTarget::Object,
            Operation::Put,
        ),
        follows_the_table(put_last(target, name, written), target, Operation::Put),
        step_follows_the_table(get_first(target, name, roots), target, Operation::Get),
        follows_the_table(get_last(target, name, read), target, Operation::Get),
{
}

/// Whether the bucket exists is never remembered from one write to the
/// next: every put to the object store begins with a look at the bucket. A
/// look that fails does not stand in the way of the upload, and only a
/// bucket known to be absent is created.
pub proof fn law_every_object_write_probes(
    name: Seq<char>,
    content: Seq<char>,
    probe: ProbeOutcome,
    roots: RootsView,
)
    ensures
        put_to_backend(StorageTarget::Object, name, content, roots) == (StepView::ProbeBucket {
            name,
            content,
        }),
        probe != ProbeOutcome::Absent ==> put_after_probe(name, content, probe) == (
        StepView::PutObject { key: name, body: content }),
        probe == ProbeOutcome::Absent ==> put_after_probe(name, content, probe) == (
        StepView::CreateBucket { name, content }),
{
}

/// Finding the bucket in place is no failure: the upload follows the
/// attempt to create it exactly when the bucket is available afterwards.
pub proof fn law_existing_bucket_is_no_failure(
    name: Seq<char>,
    content: Seq<char>,
    outcome: CreateOutcomeView,
)
    ensures
        available(outcome) <==> put_after_create(name, content, outcome) == (StepView::PutObject {
            key: name,
            body: content,
        }),
        available(CreateOutcomeView::AlreadyExists),
{
}

} // verus!
