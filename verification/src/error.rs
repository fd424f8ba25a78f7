use vstd::prelude::*;

verus! {

/// Structured classification of a failed store operation.
///
/// Row-level recovery decisions are made on these categories, never on a
/// blanket catch-all: an `Other` failure is always fatal.
#[derive(Clone, Copy, Debug, PartialEq, Eq, Structural)]
pub enum StoreErrorKind {
    /// The queried table does not exist in the store.
    NoSuchTable,
    /// The query matched no rows.
    NoRows,
    /// A uniqueness or other constraint rejected the statement.
    ConstraintViolation,
    /// Any other engine failure.
    Other,
}

/// Fatal startup conditions surfaced to the caller.
///
/// Recoverable row-level conditions during normalization (a parse failure,
/// a uniqueness conflict) are handled in place and never appear here.
#[derive(Clone, Copy, Debug, PartialEq, Eq, Structural)]
pub enum StartupError {
    /// The persisted schema version exceeds the catalog size: the store was
    /// written by a newer build, and no script can bring it back.
    SchemaTooNew { version: usize, expected: usize },
    /// The migration script targeting `version` failed; the remaining
    /// sequence was abandoned without rollback.
    MigrationStepFailed { version: usize, kind: StoreErrorKind },
    /// An unclassified store failure outside any migration step.
    Store(StoreErrorKind),
}

} // verus!
