//! Migration-driver behavior against real in-memory stores.

use gossip_store::{
    ensure_schema_current, detect_version, upgrade, write_version, Detection, MigrationCatalog,
    StartupError, StoreErrorKind, VersioningScheme,
};

fn fresh_db() -> rusqlite::Connection {
    rusqlite::Connection::open_in_memory().unwrap()
}

/// A catalog of `n` scripts; the first also creates the Legacy settings
/// table and an audit log, so every applied script leaves a trace.
fn audited_catalog(n: usize) -> MigrationCatalog {
    let mut scripts: Vec<String> = Vec::new();
    for k in 1..=n {
        let mut sql = String::new();
        if k == 1 {
            sql.push_str(
                "CREATE TABLE IF NOT EXISTS settings (key TEXT PRIMARY KEY, value TEXT);\n",
            );
            sql.push_str(
                "INSERT OR IGNORE INTO settings (key, value) VALUES ('version', '0');\n",
            );
            sql.push_str("CREATE TABLE IF NOT EXISTS applied_log (v INTEGER);\n");
        }
        sql.push_str(&format!("INSERT INTO applied_log VALUES ({});", k));
        scripts.push(sql);
    }
    MigrationCatalog::new(scripts)
}

fn applied_versions(db: &rusqlite::Connection) -> Vec<i64> {
    let mut stmt = db.prepare("SELECT v FROM applied_log ORDER BY rowid").unwrap();
    let rows = stmt.query_map([], |row| row.get::<usize, i64>(0)).unwrap();
    rows.map(|r| r.unwrap()).collect()
}

fn legacy_version(db: &rusqlite::Connection) -> String {
    db.query_row("SELECT value FROM settings WHERE key='version'", [], |row| {
        row.get::<usize, String>(0)
    })
    .unwrap()
}

#[test]
fn fresh_store_applies_every_script_in_order() {
    let db = fresh_db();
    let catalog = audited_catalog(3);
    let det = ensure_schema_current(&db, &catalog).unwrap();
    assert_eq!(det, Detection { start_version: 0, first_run: true, scheme: VersioningScheme::Absent });
    assert_eq!(applied_versions(&db), vec![1, 2, 3]);
    assert_eq!(legacy_version(&db), "3");
}

#[test]
fn partly_migrated_store_applies_only_missing_scripts() {
    let db = fresh_db();
    db.execute_batch(
        "CREATE TABLE settings (key TEXT PRIMARY KEY, value TEXT);
         INSERT INTO settings (key, value) VALUES ('version', '1');
         CREATE TABLE applied_log (v INTEGER);",
    )
    .unwrap();
    let catalog = audited_catalog(3);
    let det = ensure_schema_current(&db, &catalog).unwrap();
    assert_eq!(det, Detection { start_version: 1, first_run: false, scheme: VersioningScheme::Legacy });
    assert_eq!(applied_versions(&db), vec![2, 3]);
    assert_eq!(legacy_version(&db), "3");
}

#[test]
fn current_store_applies_nothing() {
    let db = fresh_db();
    db.execute_batch(
        "CREATE TABLE settings (key TEXT PRIMARY KEY, value TEXT);
         INSERT INTO settings (key, value) VALUES ('version', '3');
         CREATE TABLE applied_log (v INTEGER);",
    )
    .unwrap();
    let catalog = audited_catalog(3);
    let det = ensure_schema_current(&db, &catalog).unwrap();
    assert_eq!(det, Detection { start_version: 3, first_run: false, scheme: VersioningScheme::Legacy });
    assert_eq!(applied_versions(&db), Vec::<i64>::new());
}

#[test]
fn newer_store_fails_with_schema_too_new_and_applies_nothing() {
    let db = fresh_db();
    db.execute_batch(
        "CREATE TABLE local_settings (schema_version INTEGER, urls_are_normalized INTEGER);
         INSERT INTO local_settings VALUES (5, 0);
         CREATE TABLE applied_log (v INTEGER);",
    )
    .unwrap();
    let catalog = audited_catalog(3);
    let err = ensure_schema_current(&db, &catalog).unwrap_err();
    assert_eq!(err, StartupError::SchemaTooNew { version: 5, expected: 3 });
    assert_eq!(applied_versions(&db), Vec::<i64>::new());
}

#[test]
fn failing_script_reports_its_version_and_keeps_earlier_steps() {
    let db = fresh_db();
    let mut catalog = audited_catalog(3);
    catalog.scripts[1] = "THIS IS NOT SQL;".to_owned();
    let err = ensure_schema_current(&db, &catalog).unwrap_err();
    match err {
        StartupError::MigrationStepFailed { version, kind } => {
            assert_eq!(version, 2);
            assert_eq!(kind, StoreErrorKind::Other);
        }
        other => panic!("unexpected error: {:?}", other),
    }
    assert_eq!(applied_versions(&db), vec![1]);
    assert_eq!(legacy_version(&db), "1");
}

#[test]
fn empty_new_scheme_table_is_a_fatal_store_error() {
    let db = fresh_db();
    db.execute_batch(
        "CREATE TABLE local_settings (schema_version INTEGER, urls_are_normalized INTEGER);",
    )
    .unwrap();
    let catalog = audited_catalog(3);
    let err = ensure_schema_current(&db, &catalog).unwrap_err();
    assert_eq!(err, StartupError::Store(StoreErrorKind::NoRows));
}

#[test]
fn new_scheme_version_is_read_without_first_run() {
    let db = fresh_db();
    db.execute_batch(
        "CREATE TABLE local_settings (schema_version INTEGER, urls_are_normalized INTEGER);
         INSERT INTO local_settings VALUES (2, 0);",
    )
    .unwrap();
    let det = detect_version(&db).unwrap();
    assert_eq!(det, Detection { start_version: 2, first_run: false, scheme: VersioningScheme::New });
}

#[test]
fn fresh_store_reports_version_zero_and_first_run() {
    let db = fresh_db();
    let det = detect_version(&db).unwrap();
    assert_eq!(det, Detection { start_version: 0, first_run: true, scheme: VersioningScheme::Absent });
}

#[test]
fn legacy_version_row_reports_its_value_without_first_run() {
    let db = fresh_db();
    db.execute_batch(
        "CREATE TABLE settings (key TEXT PRIMARY KEY, value TEXT);
         INSERT INTO settings (key, value) VALUES ('version', '5');",
    )
    .unwrap();
    let det = detect_version(&db).unwrap();
    assert_eq!(det, Detection { start_version: 5, first_run: false, scheme: VersioningScheme::Legacy });
}

#[test]
fn legacy_table_without_version_row_reports_first_run() {
    let db = fresh_db();
    db.execute_batch("CREATE TABLE settings (key TEXT PRIMARY KEY, value TEXT);").unwrap();
    let det = detect_version(&db).unwrap();
    assert_eq!(det, Detection { start_version: 0, first_run: true, scheme: VersioningScheme::Absent });
}

#[test]
fn unparseable_legacy_version_falls_back_to_zero() {
    let db = fresh_db();
    db.execute_batch(
        "CREATE TABLE settings (key TEXT PRIMARY KEY, value TEXT);
         INSERT INTO settings (key, value) VALUES ('version', 'june');",
    )
    .unwrap();
    let det = detect_version(&db).unwrap();
    assert_eq!(det, Detection { start_version: 0, first_run: false, scheme: VersioningScheme::Legacy });
}

#[test]
fn oversized_legacy_version_falls_back_to_zero() {
    let db = fresh_db();
    db.execute_batch(
        "CREATE TABLE settings (key TEXT PRIMARY KEY, value TEXT);
         INSERT INTO settings (key, value) VALUES ('version', '99999999999999999999999999');",
    )
    .unwrap();
    let det = detect_version(&db).unwrap();
    assert_eq!(det, Detection { start_version: 0, first_run: false, scheme: VersioningScheme::Legacy });
}

#[test]
fn version_below_boundary_is_written_to_legacy_table() {
    let db = fresh_db();
    db.execute_batch(
        "CREATE TABLE settings (key TEXT PRIMARY KEY, value TEXT);
         INSERT INTO settings (key, value) VALUES ('version', '9');
         CREATE TABLE local_settings (schema_version INTEGER, urls_are_normalized INTEGER);
         INSERT INTO local_settings VALUES (9, 0);",
    )
    .unwrap();
    write_version(&db, 23).unwrap();
    assert_eq!(legacy_version(&db), "23");
    let new_v: i64 = db
        .query_row("SELECT schema_version FROM local_settings", [], |row| row.get(0))
        .unwrap();
    assert_eq!(new_v, 9);
}

#[test]
fn version_at_boundary_is_written_to_new_table() {
    let db = fresh_db();
    db.execute_batch(
        "CREATE TABLE settings (key TEXT PRIMARY KEY, value TEXT);
         INSERT INTO settings (key, value) VALUES ('version', '9');
         CREATE TABLE local_settings (schema_version INTEGER, urls_are_normalized INTEGER);
         INSERT INTO local_settings VALUES (9, 0);",
    )
    .unwrap();
    write_version(&db, 24).unwrap();
    assert_eq!(legacy_version(&db), "9");
    let new_v: i64 = db
        .query_row("SELECT schema_version FROM local_settings", [], |row| row.get(0))
        .unwrap();
    assert_eq!(new_v, 24);
}

#[test]
fn upgrade_at_the_catalog_size_is_a_no_op_and_past_it_is_refused() {
    let db = fresh_db();
    let catalog = audited_catalog(3);
    let (res, _applied) = upgrade(&db, &catalog, 3);
    assert_eq!(res.unwrap(), 3);
    let (res2, _applied2) = upgrade(&db, &catalog, 4);
    assert_eq!(res2.unwrap_err(), StartupError::SchemaTooNew { version: 4, expected: 3 });
}
