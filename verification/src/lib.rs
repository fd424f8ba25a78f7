//! Startup maintenance for a local SQLite store: detection of the schema
//! version across two historical versioning schemes, ordered application of
//! migration scripts, and a one-time, guarded canonicalization pass over a
//! relay-URL column and its two dependent tables.

use vstd::prelude::*;

mod catalog;
mod error;
mod migrate;
mod model;
mod normalize;
mod parse;
mod store;
mod version;

pub use catalog::MigrationCatalog;
pub use error::StartupError;
pub use error::StoreErrorKind;
pub use parse::{all_dec_digits, dec_value, is_dec_digit, parse_decimal};
pub use migrate::{ensure_schema_current, lemma_plan_applies_each_once, spec_plan, upgrade};
pub use model::{drop_value, lemma_canonical_store_unchanged, lemma_conflicting_rewrite_merges, lemma_invalid_value_removed, lemma_normalize_keeps_keys_distinct, lemma_normalize_runs_once, lemma_step_keeps_keys_distinct, pairwise_distinct, repoint, run_from, spec_normalize, step, StoreModel};
pub use normalize::{action_of, ensure_urls_normalized, plan_action, resolve_rewrite_failure, RewriteRecovery, SpecUrlAction, UrlAction};
pub use store::canon_of;
pub use version::{detect_version, resolve_legacy_read, spec_uses_new_scheme, uses_new_scheme, write_version, Detection, VersioningScheme};

verus! {

/// Brings the store fully current at startup: migrates the schema to the
/// version the catalog expects, then runs the one-time URL normalization
/// pass. Returns the detected starting state on success, so the caller
/// learns whether this was the store's first run.
pub fn check_and_upgrade(db: &rusqlite::Connection, catalog: &MigrationCatalog) -> (r: Result<
    Detection,
    StartupError,
>)
    ensures
        r matches Ok(det) ==> det.start_version <= catalog.scripts@.len(),
        r matches Ok(det) ==> det.first_run == (det.scheme is Absent),
{
    let det = match ensure_schema_current(db, catalog) {
        Ok(d) => d,
        Err(e) => return Err(e),
    };
    match ensure_urls_normalized(db) {
        Ok(_) => Ok(det),
        Err(e) => Err(e),
    }
}

} // verus!
