//! The ordered catalog of migration scripts.

use vstd::prelude::*;

verus! {

/// An ordered collection of opaque migration scripts, supplied by the
/// caller: the script at index `k` is the batch that brings a store from
/// version `k` to version `k + 1`. The catalog's length is the schema
/// version this build expects.
pub struct MigrationCatalog {
    pub scripts: Vec<String>,
}

impl MigrationCatalog {
    /// Wraps the supplied scripts, in ascending target-version order.
    pub fn new(scripts: Vec<String>) -> (c: MigrationCatalog)
        ensures
            c.scripts == scripts,
    {
        MigrationCatalog { scripts }
    }

    /// The schema version this catalog brings a store to.
    pub fn expected_version(&self) -> (n: usize)
        ensures
            n == self.scripts@.len(),
    {
        self.scripts.len()
    }

    /// The script whose application brings a store to `version`.
    pub fn script_for(&self, version: usize) -> (s: &String)
        requires
            1 <= version <= self.scripts@.len(),
        ensures
            s == self.scripts@[version - 1],
    {
        &self.scripts[version - 1]
    }
}

} // verus!
