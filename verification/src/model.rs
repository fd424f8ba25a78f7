//! A specification-level model of the store as normalization sees it:
//! the primary table's url keys, the two dependent tables' reference
//! columns, and the persisted pass flag. The laws of the pass are stated
//! and proved against this model.

use vstd::prelude::*;

use crate::normalize::action_of;
use crate::normalize::SpecUrlAction;
use crate::store::canon_of;

verus! {

/// The rows normalization reads and rewrites, as plain values.
pub ghost struct StoreModel {
    /// The primary table's url keys, one per row.
    pub relays: Seq<Seq<char>>,
    /// The person dependent table's reference column, one entry per row.
    pub person_refs: Seq<Seq<char>>,
    /// The event dependent table's reference column, one entry per row.
    pub event_refs: Seq<Seq<char>>,
    /// The persisted urls-are-normalized flag.
    pub normalized: bool,
}

/// Keeps every row whose value is not `u`.
pub open spec fn drop_value(u: Seq<char>) -> spec_fn(Seq<char>) -> bool {
    |x: Seq<char>| x != u
}

/// Rewrites a reference equal to `u` into `c`, leaving the rest alone.
pub open spec fn repoint(u: Seq<char>, c: Seq<char>) -> spec_fn(Seq<char>) -> Seq<char> {
    |x: Seq<char>| if x == u { c } else { x }
}

/// The effect of processing one snapshotted url value: an unparseable
/// value loses its row and every reference to it; a canonical one changes
/// nothing; any other value is rewritten to its canonical form, unless a
/// row already holds that form, in which case the current row is dropped
/// and the references still repoint at the surviving canonical row.
pub open spec fn step(m: StoreModel, u: Seq<char>) -> StoreModel {
    match action_of(u) {
        SpecUrlAction::Keep => m,
        SpecUrlAction::Delete => StoreModel {
            relays: m.relays.filter(drop_value(u)),
            person_refs: m.person_refs.filter(drop_value(u)),
            event_refs: m.event_refs.filter(drop_value(u)),
            normalized: m.normalized,
        },
        SpecUrlAction::Rewrite(c) => StoreModel {
            relays: if m.relays.contains(c) && m.relays.contains(u) {
                m.relays.filter(drop_value(u))
            } else {
                m.relays.map_values(repoint(u, c))
            },
            person_refs: m.person_refs.map_values(repoint(u, c)),
            event_refs: m.event_refs.map_values(repoint(u, c)),
            normalized: m.normalized,
        },
    }
}

/// Processes the snapshotted values from index `i` on, in order. The
/// snapshot is fixed before the pass mutates anything: rows created or
/// changed by earlier iterations are not revisited.
pub open spec fn run_from(m: StoreModel, snapshot: Seq<Seq<char>>, i: int) -> StoreModel
    decreases snapshot.len() - i,
{
    if 0 <= i < snapshot.len() {
        run_from(step(m, snapshot[i]), snapshot, i + 1)
    } else {
        m
    }
}

/// One guarded normalization call: a flagged store is untouched; any
/// other store has each of its snapshotted url keys processed once, in
/// order, and then carries the flag.
pub open spec fn spec_normalize(m: StoreModel) -> StoreModel {
    if m.normalized {
        m
    } else {
        let done = run_from(m, m.relays, 0);
        StoreModel {
            relays: done.relays,
            person_refs: done.person_refs,
            event_refs: done.event_refs,
            normalized: true,
        }
    }
}

/// The pass runs at most once: normalizing leaves the store flagged, and
/// normalizing a flagged store is the identity, so a second call is a
/// pure flag check.
pub proof fn lemma_normalize_runs_once(m: StoreModel)
    ensures
        spec_normalize(m).normalized,
        spec_normalize(spec_normalize(m)) == spec_normalize(m),
{
}

/// A store whose only url row is already canonical is unchanged by
/// normalization, but for the flag.
pub proof fn lemma_canonical_store_unchanged(m: StoreModel, u: Seq<char>)
    requires
        !m.normalized,
        m.relays == seq![u],
        canon_of(u) == Some(u),
    ensures
        spec_normalize(m).relays == m.relays,
        spec_normalize(m).person_refs == m.person_refs,
        spec_normalize(m).event_refs == m.event_refs,
{
    assert(action_of(u) is Keep);
    assert(step(m, u) == m);
    assert(run_from(m, m.relays, 0) == run_from(m, m.relays, 1));
    assert(run_from(m, m.relays, 1) == m);
}

/// Processing a value that does not canonicalize removes its primary-table
/// row and every dependent-table row referencing it.
pub proof fn lemma_invalid_value_removed(m: StoreModel, u: Seq<char>)
    requires
        canon_of(u) is None,
    ensures
        !step(m, u).relays.contains(u),
        !step(m, u).person_refs.contains(u),
        !step(m, u).event_refs.contains(u),
{
    assert(action_of(u) is Delete);
    lemma_filter_excludes(m.relays, u);
    lemma_filter_excludes(m.person_refs, u);
    lemma_filter_excludes(m.event_refs, u);
}

proof fn lemma_filter_excludes(s: Seq<Seq<char>>, u: Seq<char>)
    ensures
        !s.filter(drop_value(u)).contains(u),
{
    let kept = s.filter(drop_value(u));
    if kept.contains(u) {
        let i = choose|i: int| 0 <= i < kept.len() && kept[i] == u;
        kept.lemma_filter_pred(drop_value(u), i);
    }
}

/// Processing a value whose canonical form is already a row merges the
/// two: the current row is dropped, the canonical row survives, and every
/// dependent-table entry that referenced the processed value now
/// references the canonical form.
pub proof fn lemma_conflicting_rewrite_merges(m: StoreModel, u: Seq<char>, c: Seq<char>)
    requires
        canon_of(u) == Some(c),
        c != u,
        m.relays.contains(c),
    ensures
        !step(m, u).relays.contains(u),
        step(m, u).relays.contains(c),
        step(m, u).person_refs.len() == m.person_refs.len(),
        forall|i: int|
            0 <= i < m.person_refs.len() ==> step(m, u).person_refs[i] == (if m.person_refs[i]
                == u {
                c
            } else {
                m.person_refs[i]
            }),
        step(m, u).event_refs.len() == m.event_refs.len(),
        forall|i: int|
            0 <= i < m.event_refs.len() ==> step(m, u).event_refs[i] == (if m.event_refs[i] == u {
                c
            } else {
                m.event_refs[i]
            }),
{
    assert(action_of(u) == SpecUrlAction::Rewrite(c));
    let j = choose|j: int| 0 <= j < m.relays.len() && m.relays[j] == c;
    if m.relays.contains(u) {
        let kept = m.relays.filter(drop_value(u));
        lemma_filter_excludes(m.relays, u);
        m.relays.lemma_filter_contains(drop_value(u), j);
        assert(kept.contains(c));
        assert(step(m, u).relays == kept);
    } else {
        let mapped = m.relays.map_values(repoint(u, c));
        assert forall|i: int| 0 <= i < mapped.len() implies mapped[i] != u by {
            assert(mapped[i] == (if m.relays[i] == u { c } else { m.relays[i] }));
            assert(m.relays[i] != u);
        }
        assert(mapped[j] == c);
        assert(mapped.contains(c));
        assert(step(m, u).relays == mapped);
    }
}

/// True when no two rows share a key.
pub open spec fn pairwise_distinct(s: Seq<Seq<char>>) -> bool {
    forall|i: int, j: int| 0 <= i < j < s.len() ==> s[i] != s[j]
}

proof fn lemma_filter_keeps_distinct(s: Seq<Seq<char>>, p: spec_fn(Seq<char>) -> bool)
    requires
        pairwise_distinct(s),
    ensures
        pairwise_distinct(s.filter(p)),
        forall|x: Seq<char>| #[trigger] s.filter(p).contains(x) ==> s.contains(x),
    decreases s.len(),
{
    reveal(Seq::filter);
    if s.len() != 0 {
        let rest = s.drop_last();
        let last = s.last();
        assert forall|i: int, j: int| 0 <= i < j < rest.len() implies rest[i] != rest[j] by {
            assert(rest[i] == s[i]);
            assert(rest[j] == s[j]);
        }
        lemma_filter_keeps_distinct(rest, p);
        let fr = rest.filter(p);
        let out = s.filter(p);
        assert forall|x: Seq<char>| #[trigger] out.contains(x) implies s.contains(x) by {
            let i = choose|i: int| 0 <= i < out.len() && out[i] == x;
            if p(last) && i == out.len() - 1 {
                assert(s[s.len() - 1] == x);
            } else {
                assert(out[i] == fr[i]);
                assert(fr.contains(x));
                let k = choose|k: int| 0 <= k < rest.len() && rest[k] == x;
                assert(s[k] == x);
            }
        }
        if p(last) {
            assert(out =~= fr.push(last));
            if fr.contains(last) {
                assert(rest.contains(last));
                let k = choose|k: int| 0 <= k < rest.len() && rest[k] == last;
                assert(s[k] == s[s.len() - 1]);
                assert(false);
            }
            assert forall|i: int, j: int| 0 <= i < j < out.len() implies out[i] != out[j] by {
                if j < out.len() - 1 {
                    assert(out[i] == fr[i]);
                    assert(out[j] == fr[j]);
                } else {
                    assert(out[j] == last);
                    assert(out[i] == fr[i]);
                    assert(fr.contains(fr[i]));
                }
            }
        }
    }
}

/// Each step of the pass keeps the primary table's keys pairwise
/// distinct: deletions only remove rows, and a rewrite either lands on a
/// canonical form no row holds yet or resolves the collision by dropping
/// the current row.
pub proof fn lemma_step_keeps_keys_distinct(m: StoreModel, u: Seq<char>)
    requires
        pairwise_distinct(m.relays),
    ensures
        pairwise_distinct(step(m, u).relays),
{
    match action_of(u) {
        SpecUrlAction::Keep => {},
        SpecUrlAction::Delete => {
            lemma_filter_keeps_distinct(m.relays, drop_value(u));
        },
        SpecUrlAction::Rewrite(c) => {
            if m.relays.contains(c) && m.relays.contains(u) {
                lemma_filter_keeps_distinct(m.relays, drop_value(u));
            } else {
                let mapped = m.relays.map_values(repoint(u, c));
                assert forall|i: int, j: int|
                    0 <= i < j < mapped.len() implies mapped[i] != mapped[j] by {
                    assert(mapped[i] == (if m.relays[i] == u { c } else { m.relays[i] }));
                    assert(mapped[j] == (if m.relays[j] == u { c } else { m.relays[j] }));
                    if m.relays[i] == u && m.relays[j] == u {
                        assert(m.relays[i] != m.relays[j]);
                    } else if m.relays[i] == u {
                        if mapped[i] == mapped[j] {
                            assert(m.relays[j] == c);
                            assert(m.relays.contains(c));
                            assert(m.relays.contains(u));
                        }
                    } else if m.relays[j] == u {
                        if mapped[i] == mapped[j] {
                            assert(m.relays[i] == c);
                            assert(m.relays.contains(c));
                            assert(m.relays.contains(u));
                        }
                    } else {
                        assert(m.relays[i] != m.relays[j]);
                    }
                }
            }
        },
    }
}

/// The data-model invariant of the primary table survives the whole
/// guarded pass: a store whose url keys are pairwise distinct comes out
/// of normalization with pairwise distinct keys.
pub proof fn lemma_normalize_keeps_keys_distinct(m: StoreModel)
    requires
        pairwise_distinct(m.relays),
    ensures
        pairwise_distinct(spec_normalize(m).relays),
{
    if !m.normalized {
        lemma_run_from_keeps_keys_distinct(m, m.relays, 0);
    }
}

proof fn lemma_run_from_keeps_keys_distinct(m: StoreModel, snapshot: Seq<Seq<char>>, i: int)
    requires
        pairwise_distinct(m.relays),
    ensures
        pairwise_distinct(run_from(m, snapshot, i).relays),
    decreases snapshot.len() - i,
{
    if 0 <= i < snapshot.len() {
        lemma_step_keeps_keys_distinct(m, snapshot[i]);
        lemma_run_from_keeps_keys_distinct(step(m, snapshot[i]), snapshot, i + 1);
    }
}

} // verus!
