//! Soundness and completeness of the masked membership constraint.
//!
//! These lemmas pin down, once and for all traces, when the constraint of
//! [`crate::regex`] is satisfiable: exactly when the table holds the
//! sentinel triple and every activated row's real triple. They also record
//! that the verdict depends only on table membership (not on row order or
//! duplication) and that the final row's character is never consulted.

use vstd::prelude::*;

use crate::regex::{activated, constraint_satisfied, lookup_target};
use crate::table::{sentinel_row, TransitionRow};

verus! {

/// The real triple of row `i`: the state before, the state after, and the
/// character consumed between them.
pub open spec fn row_triple(characters: Seq<u64>, states: Seq<u64>, i: int) -> TransitionRow {
    TransitionRow { prev_state: states[i], next_state: states[i + 1], character: characters[i] }
}

/// Completeness: a trace whose every activated row's triple is present in
/// the table satisfies the constraint, provided the table holds the
/// sentinel (which every loaded table does). The inactive rows contribute
/// only sentinel lookups.
pub proof fn lemma_valid_trace_satisfied(
    table: Seq<TransitionRow>,
    characters: Seq<u64>,
    states: Seq<u64>,
)
    requires
        characters.len() == states.len(),
        table.contains(sentinel_row()),
        forall|i: int|
            activated(i, states.len() as int) ==> table.contains(
                #[trigger] row_triple(characters, states, i),
            ),
    ensures
        constraint_satisfied(table, characters, states),
{
    assert forall|i: int|
        0 <= i < states.len() implies table.contains(
        #[trigger] lookup_target(characters, states, i),
    ) by {
        if activated(i, states.len() as int) {
            assert(lookup_target(characters, states, i) == row_triple(characters, states, i));
        } else {
            assert(lookup_target(characters, states, i) == sentinel_row());
        }
    }
}

/// Soundness: one activated row whose triple is absent from the table makes
/// the whole constraint unsatisfiable. Since membership is of the exact
/// triple, this is also what a one-character or one-state difference on an
/// activated row does.
pub proof fn lemma_invalid_row_unsatisfiable(
    table: Seq<TransitionRow>,
    characters: Seq<u64>,
    states: Seq<u64>,
    i: int,
)
    requires
        characters.len() == states.len(),
        activated(i, states.len() as int),
        !table.contains(row_triple(characters, states, i)),
    ensures
        !constraint_satisfied(table, characters, states),
{
    assert(lookup_target(characters, states, i) == row_triple(characters, states, i));
}

/// Exactness of membership, the converse of completeness: a satisfied
/// constraint means every activated row's exact triple is in the table.
pub proof fn lemma_satisfied_rows_in_table(
    table: Seq<TransitionRow>,
    characters: Seq<u64>,
    states: Seq<u64>,
    i: int,
)
    requires
        characters.len() == states.len(),
        constraint_satisfied(table, characters, states),
        activated(i, states.len() as int),
    ensures
        table.contains(row_triple(characters, states, i)),
{
    assert(table.contains(lookup_target(characters, states, i)));
}

/// The masked lookup, summed up: a non-empty trace satisfies the constraint
/// exactly when the table holds both the sentinel and every activated row's
/// real triple.
pub proof fn lemma_satisfied_iff(
    table: Seq<TransitionRow>,
    characters: Seq<u64>,
    states: Seq<u64>,
)
    requires
        characters.len() == states.len(),
        states.len() > 0,
    ensures
        constraint_satisfied(table, characters, states) <==> (table.contains(sentinel_row())
            && forall|i: int|
            activated(i, states.len() as int) ==> table.contains(
                #[trigger] row_triple(characters, states, i),
            )),
{
    if table.contains(sentinel_row()) && (forall|i: int|
        activated(i, states.len() as int) ==> table.contains(
            #[trigger] row_triple(characters, states, i),
        )) {
        lemma_valid_trace_satisfied(table, characters, states);
    }
    if constraint_satisfied(table, characters, states) {
        let last = states.len() - 1;
        assert(lookup_target(characters, states, last) == sentinel_row());
        assert(table.contains(lookup_target(characters, states, last)));
        assert forall|i: int|
            activated(i, states.len() as int) implies table.contains(
            #[trigger] row_triple(characters, states, i),
        ) by {
            lemma_satisfied_rows_in_table(table, characters, states, i);
        }
    }
}

/// The verdict is a function of table membership alone: two tables that
/// contain the same triples — however they were laid out row by row —
/// accept and reject exactly the same assignments. Together with `load`
/// pinning the loaded rows as a function of the records, this makes
/// acceptance identical across independently constructed circuit instances
/// loaded from the same source.
pub proof fn lemma_acceptance_deterministic(
    table_a: Seq<TransitionRow>,
    table_b: Seq<TransitionRow>,
    characters: Seq<u64>,
    states: Seq<u64>,
)
    requires
        forall|r: TransitionRow| #[trigger] table_a.contains(r) <==> table_b.contains(r),
    ensures
        constraint_satisfied(table_a, characters, states) == constraint_satisfied(
            table_b,
            characters,
            states,
        ),
{
    if constraint_satisfied(table_a, characters, states) {
        assert forall|i: int|
            0 <= i < states.len() implies table_b.contains(
            #[trigger] lookup_target(characters, states, i),
        ) by {
            assert(table_a.contains(lookup_target(characters, states, i)));
        }
    }
    if constraint_satisfied(table_b, characters, states) {
        assert forall|i: int|
            0 <= i < states.len() implies table_a.contains(
            #[trigger] lookup_target(characters, states, i),
        ) by {
            assert(table_b.contains(lookup_target(characters, states, i)));
        }
    }
}

/// Boundary: the final row is never activated, so its masked lookup target
/// is the sentinel, whatever the trace holds there.
pub proof fn lemma_final_row_inactive(characters: Seq<u64>, states: Seq<u64>)
    requires
        states.len() > 0,
    ensures
        !activated(states.len() - 1, states.len() as int),
        lookup_target(characters, states, states.len() - 1) == sentinel_row(),
{
}

/// Boundary, spelled out over whole traces: the last character is never
/// consulted, because the row that carries it has no successor and is never
/// activated. Two traces that differ only in their final character are
/// accepted or rejected together.
pub proof fn lemma_last_character_irrelevant(
    table: Seq<TransitionRow>,
    characters_a: Seq<u64>,
    characters_b: Seq<u64>,
    states: Seq<u64>,
)
    requires
        characters_a.len() == states.len(),
        characters_b.len() == states.len(),
        forall|i: int| 0 <= i < states.len() - 1 ==> characters_a[i] == #[trigger] characters_b[i],
    ensures
        constraint_satisfied(table, characters_a, states) == constraint_satisfied(
            table,
            characters_b,
            states,
        ),
{
    if constraint_satisfied(table, characters_a, states) {
        assert forall|i: int|
            0 <= i < states.len() implies table.contains(
            #[trigger] lookup_target(characters_b, states, i),
        ) by {
            if activated(i, states.len() as int) {
                assert(characters_a[i] == characters_b[i]);
            }
            assert(lookup_target(characters_b, states, i) == lookup_target(
                characters_a,
                states,
                i,
            ));
            assert(table.contains(lookup_target(characters_a, states, i)));
        }
    }
    if constraint_satisfied(table, characters_b, states) {
        assert forall|i: int|
            0 <= i < states.len() implies table.contains(
            #[trigger] lookup_target(characters_a, states, i),
        ) by {
            if activated(i, states.len() as int) {
                assert(characters_a[i] == characters_b[i]);
            }
            assert(lookup_target(characters_a, states, i) == lookup_target(
                characters_b,
                states,
                i,
            ));
            assert(table.contains(lookup_target(characters_b, states, i)));
        }
    }
}

/// Sentinel invariant, one row at a time: a row whose activation flag is
/// cleared looks up exactly the sentinel triple `(0, 0, 0)`.
pub proof fn lemma_inactive_row_targets_sentinel(characters: Seq<u64>, states: Seq<u64>, i: int)
    requires
        0 <= i < states.len(),
        !activated(i, states.len() as int),
    ensures
        lookup_target(characters, states, i) == sentinel_row(),
{
}

/// Sentinel invariant, over whole tables: a table missing the sentinel
/// makes every non-empty trace fail, however valid its activated rows are,
/// because each inactive row's lookup of `(0, 0, 0)` misses. This is why
/// loading unconditionally guarantees the sentinel.
pub proof fn lemma_missing_sentinel_unsatisfiable(
    table: Seq<TransitionRow>,
    characters: Seq<u64>,
    states: Seq<u64>,
)
    requires
        states.len() > 0,
        !table.contains(sentinel_row()),
    ensures
        !constraint_satisfied(table, characters, states),
{
    let last = states.len() - 1;
    assert(lookup_target(characters, states, last) == sentinel_row());
}

} // verus!
