//! Reading and writing the persisted schema-version marker across the two
//! historical representations, and resolving a store's starting state.

use vstd::prelude::*;

use crate::error::StartupError;
use crate::error::StoreErrorKind;
use crate::parse::all_dec_digits;
use crate::parse::dec_value;
use crate::parse::parse_decimal;
use crate::store;

verus! {

/// Which historical versioning representation a store carries.
#[derive(Clone, Copy, Debug, PartialEq, Eq, Structural)]
pub enum VersioningScheme {
    /// The single-row settings table with an integer version column.
    New,
    /// The older key/value settings table with a string-valued "version"
    /// entry, retained for backward detection only.
    Legacy,
    /// No version information at all: a fresh store.
    Absent,
}

/// The resolved starting state of a store.
#[derive(Clone, Copy, Debug, PartialEq, Eq, Structural)]
pub struct Detection {
    /// How many migration scripts have already been applied to the store.
    pub start_version: usize,
    /// True when no prior build of the application ever initialized this
    /// store: neither versioning scheme holds a version for it.
    pub first_run: bool,
    /// The representation the starting version was read from.
    pub scheme: VersioningScheme,
}

/// Whether version `v` is persisted through the New-scheme single-row
/// settings table rather than the Legacy key/value table. The boundary is
/// a fixed historical fact: versions below it keep the older
/// representation, so that stores created by earlier binaries stay
/// readable by them.
pub open spec fn spec_uses_new_scheme(v: usize) -> bool {
    v >= 24
}

/// The executable form of the scheme boundary.
pub fn uses_new_scheme(v: usize) -> (b: bool)
    ensures
        b == spec_uses_new_scheme(v),
{
    v >= 24
}

/// Persists `v` as the store's schema version, into whichever table the
/// version's own range dictates.
pub fn write_version(db: &rusqlite::Connection, v: usize) -> (r: Result<(), StartupError>)
    ensures
        r matches Err(e) ==> e matches StartupError::Store(_),
{
    let res = if uses_new_scheme(v) {
        store::write_version_new(db, v)
    } else {
        store::write_version_legacy(db, v)
    };
    match res {
        Ok(_) => Ok(()),
        Err(e) => Err(StartupError::Store(store::classify_store_error(e))),
    }
}

/// Resolves the starting state from the outcome of reading the Legacy
/// "version" entry: a value that reads as a decimal number is the starting
/// version; a missing row or a missing table means a store never touched
/// by any build (version zero, first run); a value that does not read as a
/// number falls back to version zero without the first-run signal; any
/// other store failure is fatal.
pub fn resolve_legacy_read(r: Result<String, StoreErrorKind>) -> (d: Result<
    Detection,
    StartupError,
>)
    ensures
        r matches Ok(s) ==> ((s@.len() > 0 && all_dec_digits(s@) && dec_value(s@) <= usize::MAX)
            ==> (d matches Ok(det) && det.start_version == dec_value(s@) && !det.first_run
                && det.scheme == VersioningScheme::Legacy)),
        r matches Ok(s) ==> (!(s@.len() > 0 && all_dec_digits(s@) && dec_value(s@) <= usize::MAX)
            ==> d == (Ok::<Detection, StartupError>(Detection {
            start_version: 0,
            first_run: false,
            scheme: VersioningScheme::Legacy,
        }))),
        (r == Err::<String, StoreErrorKind>(StoreErrorKind::NoRows) || r == Err::<
            String,
            StoreErrorKind,
        >(StoreErrorKind::NoSuchTable)) ==> d == (Ok::<Detection, StartupError>(Detection {
            start_version: 0,
            first_run: true,
            scheme: VersioningScheme::Absent,
        })),
        r matches Err(k) ==> (k != StoreErrorKind::NoRows && k != StoreErrorKind::NoSuchTable
            ==> d == (Err::<Detection, StartupError>(StartupError::Store(k)))),
{
    match r {
        Ok(s) => match parse_decimal(s.as_str()) {
            Some(v) => Ok(
                Detection { start_version: v, first_run: false, scheme: VersioningScheme::Legacy },
            ),
            None => Ok(
                Detection { start_version: 0, first_run: false, scheme: VersioningScheme::Legacy },
            ),
        },
        Err(k) => {
            if k == StoreErrorKind::NoRows || k == StoreErrorKind::NoSuchTable {
                Ok(Detection { start_version: 0, first_run: true, scheme: VersioningScheme::Absent })
            } else {
                Err(StartupError::Store(k))
            }
        },
    }
}

/// Determines the store's starting state. The New-scheme single-row table
/// is queried first; only when that table does not exist does the Legacy
/// detector take over. Any other failure of the New-scheme read
/// propagates unchanged, and a store already on the New scheme is never a
/// first run.
pub fn detect_version(db: &rusqlite::Connection) -> (d: Result<Detection, StartupError>)
    ensures
        d matches Err(e) ==> e matches StartupError::Store(k) && k != StoreErrorKind::NoSuchTable,
        d matches Ok(det) ==> det.first_run == (det.scheme is Absent),
{
    match store::read_schema_version(db) {
        Ok(v) => Ok(Detection { start_version: v, first_run: false, scheme: VersioningScheme::New }),
        Err(e) => {
            let kind = store::classify_store_error(e);
            if kind == StoreErrorKind::NoSuchTable {
                let legacy = match store::read_legacy_version(db) {
                    Ok(s) => Ok(s),
                    Err(e2) => Err(store::classify_store_error(e2)),
                };
                resolve_legacy_read(legacy)
            } else {
                Err(StartupError::Store(kind))
            }
        },
    }
}

} // verus!
