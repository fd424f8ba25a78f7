//! The trusted boundary to the SQLite store and to relay-URL
//! canonicalization. Every function here is an `external_body` wrapper
//! around a single outside operation; everything that decides or computes
//! on what these return lives in the verified modules.

use vstd::prelude::*;

use crate::error::StoreErrorKind;

verus! {

#[verifier::external_type_specification]
#[verifier::external_body]
pub struct ExConnection(rusqlite::Connection);

#[verifier::external_type_specification]
#[verifier::external_body]
pub struct ExSqliteError(rusqlite::Error);

/// What `nostr_types::RelayUrl::try_from_str` yields on a given string:
/// the canonical relay-URL form, or nothing when the string is not a valid
/// relay URL. The result depends on the characters alone.
pub uninterp spec fn canon_of(s: Seq<char>) -> Option<Seq<char>>;

/// Relies on `nostr_types::RelayUrl::try_from_str` and `RelayUrl::as_str`:
/// parsing plus canonicalization is a pure function of the input string.
#[verifier::external_body]
pub(crate) fn canonicalize_url(s: &str) -> (r: Option<String>)
    ensures
        r is Some <==> canon_of(s@) is Some,
        r matches Some(c) ==> Some(c@) == canon_of(s@),
{
    match nostr_types::RelayUrl::try_from_str(s) {
        Ok(u) => Some(u.as_str().to_owned()),
        Err(_) => None,
    }
}

/// Relies on `rusqlite::Error`'s structure: `QueryReturnedNoRows` is its
/// own variant; a constraint violation carries
/// `ErrorCode::ConstraintViolation`; a missing table is reported by the
/// engine only through its message text.
#[verifier::external_body]
pub(crate) fn classify_store_error(e: rusqlite::Error) -> StoreErrorKind {
    match e {
        rusqlite::Error::QueryReturnedNoRows => StoreErrorKind::NoRows,
        rusqlite::Error::SqliteFailure(f, msg) => {
            if f.code == rusqlite::ErrorCode::ConstraintViolation {
                StoreErrorKind::ConstraintViolation
            } else if msg.map_or(false, |s| s.contains("no such table")) {
                StoreErrorKind::NoSuchTable
            } else {
                StoreErrorKind::Other
            }
        },
        _ => StoreErrorKind::Other,
    }
}

/// Relies on `rusqlite::Connection::query_row`: reads the integer version
/// column of the single-row New-scheme settings table.
#[verifier::external_body]
pub(crate) fn read_schema_version(db: &rusqlite::Connection) -> Result<usize, rusqlite::Error> {
    db.query_row("SELECT schema_version FROM local_settings LIMIT 1", [], |row| {
        row.get::<usize, usize>(0)
    })
}

/// Relies on `rusqlite::Connection::query_row`: reads the string value of
/// the Legacy key/value settings table's "version" entry.
#[verifier::external_body]
pub(crate) fn read_legacy_version(db: &rusqlite::Connection) -> Result<String, rusqlite::Error> {
    db.query_row("SELECT value FROM settings WHERE key='version'", [], |row| {
        row.get::<usize, String>(0)
    })
}

/// Relies on `rusqlite::Connection::query_row`: reads the boolean
/// urls-are-normalized flag of the single-row settings table.
#[verifier::external_body]
pub(crate) fn read_urls_normalized_flag(db: &rusqlite::Connection) -> Result<bool, rusqlite::Error> {
    db.query_row("SELECT urls_are_normalized FROM local_settings LIMIT 1", [], |row| {
        row.get::<usize, bool>(0)
    })
}

/// Relies on `rusqlite::Connection::execute_batch`: runs one migration
/// script as a single batch of statements.
#[verifier::external_body]
pub(crate) fn execute_script(db: &rusqlite::Connection, sql: &str) -> Result<(), rusqlite::Error> {
    db.execute_batch(sql)
}

/// Relies on `rusqlite::Connection::execute`: persists the version into
/// the New-scheme settings table.
#[verifier::external_body]
pub(crate) fn write_version_new(db: &rusqlite::Connection, v: usize) -> Result<(), rusqlite::Error> {
    db.execute("UPDATE local_settings SET schema_version=?", (v,)).map(|_| ())
}

/// Relies on `rusqlite::Connection::execute`: persists the version into
/// the Legacy key/value settings table's "version" entry.
#[verifier::external_body]
pub(crate) fn write_version_legacy(db: &rusqlite::Connection, v: usize) -> Result<(), rusqlite::Error> {
    db.execute("UPDATE settings SET value=? WHERE key='version'", (v,)).map(|_| ())
}

/// Relies on `rusqlite::Connection::pragma_update`: suspends
/// referential-integrity checking for this session.
#[verifier::external_body]
pub(crate) fn suspend_foreign_keys(db: &rusqlite::Connection) -> Result<(), rusqlite::Error> {
    db.pragma_update(None, "foreign_keys", "OFF")
}

/// Relies on `rusqlite::Statement::query_map`: snapshots every value of
/// the primary relay table's url column.
#[verifier::external_body]
pub(crate) fn snapshot_relay_urls(db: &rusqlite::Connection) -> Result<Vec<String>, rusqlite::Error> {
    let mut stmt = db.prepare("SELECT url FROM relay")?;
    let rows = stmt.query_map([], |row| row.get::<usize, String>(0))?;
    rows.collect()
}

/// Relies on `rusqlite::Connection::execute`: rewrites the primary-table
/// row keyed `from` to the key `to`.
#[verifier::external_body]
pub(crate) fn update_relay_url(
    db: &rusqlite::Connection,
    to: &String,
    from: &String,
) -> Result<(), rusqlite::Error> {
    db.execute("UPDATE relay SET url=? WHERE url=?", (to, from)).map(|_| ())
}

/// Relies on `rusqlite::Connection::execute`: deletes the primary-table
/// row keyed by this url.
#[verifier::external_body]
pub(crate) fn delete_relay(db: &rusqlite::Connection, url: &String) -> Result<(), rusqlite::Error> {
    db.execute("DELETE FROM relay WHERE url=?", (url,)).map(|_| ())
}

/// Relies on `rusqlite::Connection::execute`: repoints the person
/// dependent table's reference column from one url to another.
#[verifier::external_body]
pub(crate) fn update_person_relay_refs(
    db: &rusqlite::Connection,
    to: &String,
    from: &String,
) -> Result<(), rusqlite::Error> {
    db.execute("UPDATE person_relay SET relay=? WHERE relay=?", (to, from)).map(|_| ())
}

/// Relies on `rusqlite::Connection::execute`: repoints the event
/// dependent table's reference column from one url to another.
#[verifier::external_body]
pub(crate) fn update_event_relay_refs(
    db: &rusqlite::Connection,
    to: &String,
    from: &String,
) -> Result<(), rusqlite::Error> {
    db.execute("UPDATE event_relay SET relay=? WHERE relay=?", (to, from)).map(|_| ())
}

/// Relies on `rusqlite::Connection::execute`: deletes every person
/// dependent-table row referencing this url.
#[verifier::external_body]
pub(crate) fn delete_person_relay_refs(
    db: &rusqlite::Connection,
    url: &String,
) -> Result<(), rusqlite::Error> {
    db.execute("DELETE FROM person_relay WHERE relay=?", (url,)).map(|_| ())
}

/// Relies on `rusqlite::Connection::execute`: deletes every event
/// dependent-table row referencing this url.
#[verifier::external_body]
pub(crate) fn delete_event_relay_refs(
    db: &rusqlite::Connection,
    url: &String,
) -> Result<(), rusqlite::Error> {
    db.execute("DELETE FROM event_relay WHERE relay=?", (url,)).map(|_| ())
}

/// Relies on `rusqlite::Connection::execute`: persists the
/// urls-are-normalized flag as true.
#[verifier::external_body]
pub(crate) fn set_urls_normalized_flag(db: &rusqlite::Connection) -> Result<(), rusqlite::Error> {
    db.execute("UPDATE local_settings SET urls_are_normalized=1", ()).map(|_| ())
}

} // verus!
