//! The one-time URL canonicalization pass: rewrites the primary relay
//! table's url keys to canonical form, repairs the two dependent tables,
//! and drops invalid or duplicate rows.

use vstd::prelude::*;

use crate::error::StartupError;
use crate::error::StoreErrorKind;
use crate::store;
use crate::store::canon_of;

verus! {

/// What normalization does with one stored url value.
#[derive(Debug)]
pub enum UrlAction {
    /// The stored form is already canonical: leave the row alone.
    Keep,
    /// Rewrite the row's key to this canonical form and repoint every
    /// dependent-table reference to it.
    Rewrite(String),
    /// The stored form does not parse as a relay URL: drop the row and
    /// every dependent-table row referencing it.
    Delete,
}

/// The action normalization takes on a stored value, at the
/// specification level.
pub enum SpecUrlAction {
    Keep,
    Rewrite(Seq<char>),
    Delete,
}

/// The action that canonicalization dictates for a stored value.
pub open spec fn action_of(u: Seq<char>) -> SpecUrlAction {
    match canon_of(u) {
        Option::None => SpecUrlAction::Delete,
        Option::Some(c) => if c == u {
            SpecUrlAction::Keep
        } else {
            SpecUrlAction::Rewrite(c)
        },
    }
}

/// Decides what normalization does with one stored url value, given the
/// outcome of canonicalizing it: an unparseable value is dropped, an
/// already canonical one kept, any other rewritten to its canonical form.
pub fn plan_action(stored: &String, canon: Option<String>) -> (a: UrlAction)
    ensures
        canon is None ==> a is Delete,
        canon matches Some(c) ==> (c@ == stored@ ==> a is Keep),
        canon matches Some(c) ==> (c@ != stored@ ==> (a matches UrlAction::Rewrite(t) && t@
            == c@)),
        canon.deep_view() == canon_of(stored@) ==> match action_of(stored@) {
            SpecUrlAction::Keep => a is Keep,
            SpecUrlAction::Delete => a is Delete,
            SpecUrlAction::Rewrite(c) => a matches UrlAction::Rewrite(t) && t@ == c,
        },
{
    match canon {
        None => UrlAction::Delete,
        Some(c) => {
            if c == *stored {
                UrlAction::Keep
            } else {
                UrlAction::Rewrite(c)
            }
        },
    }
}

/// How a failed primary-table rewrite is resolved.
#[derive(Clone, Copy, Debug, PartialEq, Eq, Structural)]
pub enum RewriteRecovery {
    /// A row already canonical holds the target form: the current row
    /// loses, and is dropped; its references are still repointed at the
    /// surviving canonical row.
    DropCurrentRow,
    /// Any other failure is never downgraded: it aborts the pass.
    Fatal(StoreErrorKind),
}

/// Classifies a failed primary-table rewrite: exactly a uniqueness
/// conflict is recovered locally; everything else is fatal.
pub fn resolve_rewrite_failure(kind: StoreErrorKind) -> (d: RewriteRecovery)
    ensures
        d is DropCurrentRow <==> kind == StoreErrorKind::ConstraintViolation,
        d matches RewriteRecovery::Fatal(k) ==> k == kind,
{
    if kind == StoreErrorKind::ConstraintViolation {
        RewriteRecovery::DropCurrentRow
    } else {
        RewriteRecovery::Fatal(kind)
    }
}

/// Maps an engine failure to the fatal startup error it classifies as.
fn store_failure(e: rusqlite::Error) -> (r: StartupError)
    ensures
        r matches StartupError::Store(_),
{
    StartupError::Store(store::classify_store_error(e))
}

/// Processes one snapshotted url value against the store: keeps, rewrites
/// or deletes its row as `action_of` dictates, repointing or dropping the
/// dependent-table references with it. A uniqueness conflict on the
/// rewrite is recovered by dropping the current row; every other failure
/// is fatal.
fn normalize_one(db: &rusqlite::Connection, url: &String) -> (r: Result<(), StartupError>)
    ensures
        r matches Err(e) ==> e matches StartupError::Store(_),
{
    let canon = store::canonicalize_url(url.as_str());
    let action = plan_action(url, canon);
    match action {
        UrlAction::Keep => Ok(()),
        UrlAction::Delete => {
            match store::delete_relay(db, url) {
                Ok(_) => {},
                Err(e) => return Err(store_failure(e)),
            }
            match store::delete_person_relay_refs(db, url) {
                Ok(_) => {},
                Err(e) => return Err(store_failure(e)),
            }
            match store::delete_event_relay_refs(db, url) {
                Ok(_) => {},
                Err(e) => return Err(store_failure(e)),
            }
            Ok(())
        },
        UrlAction::Rewrite(canonical) => {
            match store::update_relay_url(db, &canonical, url) {
                Ok(_) => {},
                Err(e) => {
                    let kind = store::classify_store_error(e);
                    match resolve_rewrite_failure(kind) {
                        RewriteRecovery::DropCurrentRow => {
                            match store::delete_relay(db, url) {
                                Ok(_) => {},
                                Err(e2) => return Err(store_failure(e2)),
                            }
                        },
                        RewriteRecovery::Fatal(k) => {
                            return Err(StartupError::Store(k));
                        },
                    }
                },
            }
            match store::update_person_relay_refs(db, &canonical, url) {
                Ok(_) => {},
                Err(e) => return Err(store_failure(e)),
            }
            match store::update_event_relay_refs(db, &canonical, url) {
                Ok(_) => {},
                Err(e) => return Err(store_failure(e)),
            }
            Ok(())
        },
    }
}

/// Canonicalizes the stored relay URLs once per store. The pass is gated
/// by a persisted flag: when the flag is already set, the call is a pure
/// flag check and touches nothing. Otherwise referential-integrity
/// checking is suspended for the session, the distinct url values are
/// snapshotted once, each snapshotted value is processed in order, and
/// the flag is persisted only after every value succeeded, so the pass
/// never runs a second time.
pub fn ensure_urls_normalized(db: &rusqlite::Connection) -> (r: Result<(), StartupError>)
    ensures
        r matches Err(e) ==> e matches StartupError::Store(_),
{
    let normalized = match store::read_urls_normalized_flag(db) {
        Ok(b) => b,
        Err(e) => return Err(store_failure(e)),
    };
    if normalized {
        return Ok(());
    }
    match store::suspend_foreign_keys(db) {
        Ok(_) => {},
        Err(e) => return Err(store_failure(e)),
    }
    let snapshot = match store::snapshot_relay_urls(db) {
        Ok(urls) => urls,
        Err(e) => return Err(store_failure(e)),
    };
    let mut i: usize = 0;
    while i < snapshot.len()
        invariant
            i <= snapshot@.len(),
        decreases snapshot@.len() - i,
    {
        match normalize_one(db, &snapshot[i]) {
            Ok(_) => {},
            Err(e) => return Err(e),
        }
        i = i + 1;
    }
    match store::set_urls_normalized_flag(db) {
        Ok(_) => Ok(()),
        Err(e) => Err(store_failure(e)),
    }
}

} // verus!
