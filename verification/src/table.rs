//! The DFA transition table: an immutable relation of
//! `(prev_state, next_state, character)` triples exposed for membership
//! testing.
//!
//! The table is built once, before any proof instance, and read-only
//! afterwards. Loading guarantees the presence of the all-zero sentinel row
//! `(0, 0, 0)`: the masked lookup maps every inactive circuit row to that
//! triple, so a table without it would spuriously reject every trace.

use vstd::prelude::*;

verus! {

/// One record of the DFA's transition relation: consuming `character` in
/// state `prev_state` moves the automaton to `next_state`.
///
/// States are unsigned integers naming DFA states; a character is a byte
/// value (0–255). Both are encoded into the circuit's field by the backend,
/// so here they are plain integers.
#[derive(Clone, Copy, PartialEq, Eq, Structural, Debug)]
pub struct TransitionRow {
    pub prev_state: u64,
    pub next_state: u64,
    pub character: u64,
}

/// The degenerate triple `(0, 0, 0)` that every loaded table contains: the
/// lookup target of every row whose activation flag is cleared.
pub open spec fn sentinel_row() -> TransitionRow {
    TransitionRow { prev_state: 0, next_state: 0, character: 0 }
}

/// A record is well-formed when its character is a byte value.
pub open spec fn char_in_range(r: TransitionRow) -> bool {
    r.character <= 255
}

/// The relation a table holds after loading `records`: the records
/// themselves, with the sentinel row appended when it is not already among
/// them.
pub open spec fn loaded_rows(records: Seq<TransitionRow>) -> Seq<TransitionRow> {
    if records.contains(sentinel_row()) {
        records
    } else {
        records.push(sentinel_row())
    }
}

/// Why a table source was rejected. A partially loaded table is never
/// accepted: on an error the table is left exactly as it was.
#[derive(Clone, Copy, PartialEq, Eq, Structural, Debug)]
pub enum TableLoadError {
    /// Some record's character does not fit in a byte.
    CharacterOutOfRange,
}

/// Scans a row vector for an exact occurrence of `target`.
pub(crate) fn row_vec_contains(rows: &Vec<TransitionRow>, target: TransitionRow) -> (b: bool)
    ensures
        b == rows@.contains(target),
{
    let n = rows.len();
    let mut i: usize = 0;
    while i < n
        invariant
            n == rows@.len(),
            0 <= i <= n,
            forall|j: int| 0 <= j < i ==> rows@[j] != target,
        decreases n - i,
    {
        if rows[i] == target {
            proof {
                assert(rows@[i as int] == target);
            }
            return true;
        }
        i += 1;
    }
    false
}

/// The three parallel lookup columns of the transition table, modelled as
/// the sequence of triples they hold row by row.
#[derive(Clone, Debug)]
pub struct TransitionTableConfig {
    rows: Vec<TransitionRow>,
    loaded: bool,
}

impl TransitionTableConfig {
    /// The triples the columns hold, row by row.
    pub closed spec fn rows_seq(self) -> Seq<TransitionRow> {
        self.rows@
    }

    /// Membership in the relation: the question the lookup argument asks.
    pub open spec fn spec_contains(self, r: TransitionRow) -> bool {
        self.rows_seq().contains(r)
    }

    /// Whether `load` has run successfully.
    pub closed spec fn is_loaded(self) -> bool {
        self.loaded
    }

    /// Declares the (still empty, unloaded) table columns.
    pub fn configure() -> (t: Self)
        ensures
            t.rows_seq() === Seq::<TransitionRow>::empty(),
            !t.is_loaded(),
    {
        TransitionTableConfig { rows: Vec::new(), loaded: false }
    }

    /// Loads the precomputed transition records into the columns, once.
    ///
    /// Every record's character must be a byte value, or the whole load is
    /// rejected and the table is untouched. On success the table holds
    /// exactly the given records plus the `(0, 0, 0)` sentinel, which is
    /// appended when the source does not already supply it.
    pub fn load(&mut self, records: &Vec<TransitionRow>) -> (res: Result<(), TableLoadError>)
        requires
            !old(self).is_loaded(),
        ensures
            match res {
                Ok(()) => {
                    &&& final(self).is_loaded()
                    &&& final(self).rows_seq() === loaded_rows(records@)
                    &&& final(self).spec_contains(sentinel_row())
                    &&& forall|r: TransitionRow|
                        final(self).spec_contains(r) <==> (records@.contains(r)
                            || r == sentinel_row())
                    &&& forall|i: int|
                        0 <= i < records@.len() ==> char_in_range(#[trigger] records@[i])
                },
                Err(e) => {
                    &&& e == TableLoadError::CharacterOutOfRange
                    &&& exists|i: int|
                        0 <= i < records@.len() && !char_in_range(#[trigger] records@[i])
                    &&& *final(self) === *old(self)
                },
            },
    {
        let n = records.len();
        let mut i: usize = 0;
        while i < n
            invariant
                n == records@.len(),
                0 <= i <= n,
                forall|j: int| 0 <= j < i ==> char_in_range(#[trigger] records@[j]),
            decreases n - i,
        {
            if records[i].character > 255 {
                return Err(TableLoadError::CharacterOutOfRange);
            }
            i += 1;
        }

        let mut rows: Vec<TransitionRow> = Vec::new();
        let mut k: usize = 0;
        while k < n
            invariant
                n == records@.len(),
                0 <= k <= n,
                rows@ === records@.subrange(0, k as int),
            decreases n - k,
        {
            rows.push(records[k]);
            k += 1;
            proof {
                assert(records@.subrange(0, k as int)
                    === records@.subrange(0, k as int - 1).push(records@[k as int - 1]));
            }
        }
        proof {
            assert(records@.subrange(0, n as int) === records@);
        }
        let sentinel = TransitionRow { prev_state: 0, next_state: 0, character: 0 };
        if !row_vec_contains(&rows, sentinel) {
            rows.push(sentinel);
            proof {
                let s = sentinel_row();
                assert forall|r: TransitionRow|
                    #[trigger] records@.push(s).contains(r) <==> (records@.contains(r)
                        || r == s) by {
                    if records@.push(s).contains(r) {
                        let j = choose|j: int|
                            0 <= j < records@.push(s).len() && records@.push(s)[j] == r;
                        if j < records@.len() {
                            assert(records@[j] == r);
                        }
                    }
                    if records@.contains(r) {
                        let j = choose|j: int| 0 <= j < records@.len() && records@[j] == r;
                        assert(records@.push(s)[j] == r);
                    }
                    if r == s {
                        assert(records@.push(s)[records@.len() as int] == r);
                    }
                }
            }
        }
        self.rows = rows;
        self.loaded = true;
        Ok(())
    }

    /// Hands out the three lookup columns, row by row, read-only.
    pub fn rows(&self) -> (r: &Vec<TransitionRow>)
        ensures
            r@ === self.rows_seq(),
    {
        &self.rows
    }

    /// Answers exact membership of the triple `(prev_state, next_state,
    /// character)` in the loaded relation.
    pub fn contains(&self, prev_state: u64, next_state: u64, character: u64) -> (b: bool)
        ensures
            b == self.spec_contains(
                TransitionRow { prev_state, next_state, character },
            ),
    {
        row_vec_contains(&self.rows, TransitionRow { prev_state, next_state, character })
    }
}

} // verus!
