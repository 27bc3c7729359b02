//! Bringing the destination of a write into existence.
//!
//! The table of the relational backend is created once, when the process
//! starts. The bucket of the object store is looked for before every write
//! and created when it is absent. The local store has no step of its own:
//! its directories are made as part of each write.

use vstd::prelude::*;

verus! {

/// What a look at the destination resource showed.
#[derive(Clone, Copy, Debug, PartialEq, Eq, Structural)]
pub enum ProbeOutcome {
    /// The resource exists.
    Present,
    /// The backend answered that the resource does not exist.
    Absent,
    /// The probe itself failed; nothing is known of the resource.
    Unknown,
}

/// How an attempt to create the destination resource ended.
#[derive(Clone, Debug, PartialEq, Eq)]
pub enum CreateOutcome {
    /// The resource was created.
    Created,
    /// The resource was there already, created by someone else meanwhile.
    AlreadyExists,
    /// The resource could not be created; the backend's diagnostic.
    Failed(String),
}

/// A [`CreateOutcome`] as mathematics sees it.
pub enum CreateOutcomeView {
    Created,
    AlreadyExists,
    Failed(Seq<char>),
}

impl View for CreateOutcome {
    type V = CreateOutcomeView;

    open spec fn view(&self) -> CreateOutcomeView {
        match self {
            CreateOutcome::Created => CreateOutcomeView::Created,
            CreateOutcome::AlreadyExists => CreateOutcomeView::AlreadyExists,
            CreateOutcome::Failed(detail) => CreateOutcomeView::Failed(detail@),
        }
    }
}

/// Whether a probe's outcome calls for creating the resource. Only a
/// definite absence does: after a probe that failed the write is attempted
/// as it is, so that its own error is the one reported.
pub open spec fn calls_for_creation(probe: ProbeOutcome) -> bool {
    probe == ProbeOutcome::Absent
}

/// Whether the resource can be written to after an attempt to create it.
/// Finding it in place already is as good as having created it.
pub open spec fn available(outcome: CreateOutcomeView) -> bool {
    !(outcome is Failed)
}

/// The diagnostic of a table that could not be ensured at startup.
pub open spec fn table_failure_text(detail: Seq<char>) -> Seq<char> {
    "Failed to ensure table exists: "@ + detail
}

/// Decides [`calls_for_creation`].
pub fn needs_creation(probe: ProbeOutcome) -> (b: bool)
    ensures
        b == calls_for_creation(probe),
{
    match probe {
        ProbeOutcome::Absent => true,
        ProbeOutcome::Present => false,
        ProbeOutcome::Unknown => false,
    }
}

/// The statement that creates the table of the relational backend unless it
/// exists: an auto-incrementing key, a bounded name, unbounded text.
pub fn table_statement() -> (sql: &'static str)
    ensures
        sql@ == "CREATE TABLE IF NOT EXISTS datasets (
            id INT AUTO_INCREMENT PRIMARY KEY,
            name VARCHAR(255) NOT NULL,
            data LONGTEXT NOT NULL
        )"@,
{
    "CREATE TABLE IF NOT EXISTS datasets (
            id INT AUTO_INCREMENT PRIMARY KEY,
            name VARCHAR(255) NOT NULL,
            data LONGTEXT NOT NULL
        )"
}

/// The statement that stores one file in the table; its parameters are the
/// name and the content, in this order.
pub fn insert_statement() -> (sql: &'static str)
    ensures
        sql@ == "INSERT INTO datasets (name, data) VALUES (?, ?)"@,
{
    "INSERT INTO datasets (name, data) VALUES (?, ?)"
}

/// The statement that looks a file up in the table; its parameter is the
/// name.
pub fn select_statement() -> (sql: &'static str)
    ensures
        sql@ == "SELECT data FROM datasets WHERE name = ?"@,
{
    "SELECT data FROM datasets WHERE name = ?"
}

/// Judges the attempt to ensure the table at startup: `Ok` exactly when the
/// table is available, otherwise the diagnostic to stop with.
pub fn table_ensured(outcome: &CreateOutcome) -> (ensured: Result<(), String>)
    ensures
        ensured is Ok <==> available(outcome@),
        ensured matches Err(text) ==> outcome@ matches CreateOutcomeView::Failed(detail)
            && text@ == table_failure_text(detail),
{
    match outcome {
        CreateOutcome::Failed(detail) => Err(
            "Failed to ensure table exists: ".to_owned().concat(detail.as_str()),
        ),
        _ => Ok(()),
    }
}

} // verus!
