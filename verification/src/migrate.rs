//! The migration driver: applies catalog scripts in strict ascending
//! order, persisting progress after each step, and never runs against a
//! store newer than the catalog.

use vstd::prelude::*;

use crate::catalog::MigrationCatalog;
use crate::error::StartupError;
use crate::version;
use crate::version::Detection;
use crate::store;

verus! {

/// The versions the driver applies, in order, to bring a store from
/// version `v` to version `n`: exactly `v + 1` up to `n`.
pub open spec fn spec_plan(v: int, n: int) -> Seq<int> {
    Seq::new(if n >= v { (n - v) as nat } else { 0 }, |i: int| v + 1 + i)
}

/// For any starting version within the catalog, the driver's plan applies
/// each of the versions above it exactly once, strictly ascending, and
/// ends at the catalog's size.
pub proof fn lemma_plan_applies_each_once(v: int, n: int)
    requires
        0 <= v <= n,
    ensures
        spec_plan(v, n).len() == n - v,
        forall|i: int| 0 <= i < n - v ==> #[trigger] spec_plan(v, n)[i] == v + 1 + i,
        forall|i: int, j: int|
            0 <= i < j < n - v ==> #[trigger] spec_plan(v, n)[i] < #[trigger] spec_plan(v, n)[j],
        forall|k: int| v < k <= n ==> #[trigger] spec_plan(v, n).contains(k),
        forall|k: int| #[trigger] spec_plan(v, n).contains(k) ==> v < k <= n,
{
    assert forall|k: int| v < k <= n implies #[trigger] spec_plan(v, n).contains(k) by {
        assert(spec_plan(v, n)[k - v - 1] == k);
    }
}

/// Advances the store from `start` to the catalog's size, one script at a
/// time, persisting the version after each successful script. The second
/// component records, in order, every version whose script was executed
/// successfully.
///
/// A store already past the catalog is refused before any script runs;
/// a failing script aborts the remainder with the version it targeted;
/// already-applied steps are never rolled back.
pub fn upgrade(db: &rusqlite::Connection, catalog: &MigrationCatalog, start: usize) -> (r: (
    Result<usize, StartupError>,
    Ghost<Seq<int>>,
))
    ensures
        (r.0 matches Err(e) && e matches StartupError::SchemaTooNew { .. }) <==> start
            > catalog.scripts@.len(),
        r.0 matches Err(e) ==> (e matches StartupError::SchemaTooNew { version, expected }
            ==> version == start && expected == catalog.scripts@.len() && r.1@ =~= Seq::<
            int,
        >::empty()),
        r.0 matches Ok(v) ==> v == catalog.scripts@.len() && r.1@ =~= spec_plan(
            start as int,
            catalog.scripts@.len() as int,
        ),
        r.0 matches Err(e) ==> (e matches StartupError::MigrationStepFailed { version, kind }
            ==> start < version <= catalog.scripts@.len() && r.1@ =~= spec_plan(
            start as int,
            version - 1,
        )),
        r.0 matches Err(e) ==> (e matches StartupError::Store(k) ==> exists|j: int|
            start < j <= catalog.scripts@.len() && r.1@ =~= spec_plan(start as int, j)),
{
    let n: usize = catalog.expected_version();
    if start > n {
        return (Err(StartupError::SchemaTooNew { version: start, expected: n }), Ghost(Seq::empty()));
    }
    let ghost mut applied: Seq<int> = Seq::empty();
    let mut v: usize = start;
    proof {
        assert(applied =~= spec_plan(start as int, v as int));
    }
    while v < n
        invariant
            start <= v <= n,
            n == catalog.scripts@.len(),
            applied =~= spec_plan(start as int, v as int),
        decreases n - v,
    {
        let target: usize = v + 1;
        let script = catalog.script_for(target);
        match store::execute_script(db, script.as_str()) {
            Ok(_) => {},
            Err(e) => {
                let kind = store::classify_store_error(e);
                return (
                    Err(StartupError::MigrationStepFailed { version: target, kind }),
                    Ghost(applied),
                );
            },
        }
        proof {
            applied = applied.push(target as int);
            assert(applied =~= spec_plan(start as int, target as int));
        }
        match version::write_version(db, target) {
            Ok(_) => {},
            Err(e) => {
                return (Err(e), Ghost(applied));
            },
        }
        v = target;
    }
    (Ok(v), Ghost(applied))
}

/// Brings the store's schema to the version this catalog expects: detects
/// the starting state across both versioning schemes, then applies every
/// missing script in ascending order. On success the store is at the
/// catalog's size, and the caller learns the detected starting state.
pub fn ensure_schema_current(db: &rusqlite::Connection, catalog: &MigrationCatalog) -> (r: Result<
    Detection,
    StartupError,
>)
    ensures
        r matches Ok(det) ==> det.start_version <= catalog.scripts@.len(),
        r matches Ok(det) ==> det.first_run == (det.scheme is Absent),
{
    let det = match version::detect_version(db) {
        Ok(d) => d,
        Err(e) => return Err(e),
    };
    let (res, _applied) = upgrade(db, catalog, det.start_version);
    match res {
        Ok(_) => Ok(det),
        Err(e) => Err(e),
    }
}

} // verus!
