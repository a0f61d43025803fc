//! The regex-check gadget: two witness columns (`characters`, `state`), a
//! per-row activation flag, and one three-column membership constraint
//! against the transition table.
//!
//! The constraint is *masked*: a constraint system has no conditional skip,
//! so each of the three lookup targets is the row's real value multiplied by
//! the activation flag. A row whose flag is cleared therefore looks up the
//! sentinel triple `(0, 0, 0)`, which every loaded table contains. A row `i`
//! whose flag is set looks up `(state_i, state_{i+1}, character_i)`; the
//! final row has no successor, so its flag is never set.

use vstd::prelude::*;

use crate::table::{
    char_in_range, loaded_rows, row_vec_contains, sentinel_row, TableLoadError, TransitionRow,
    TransitionTableConfig,
};

verus! {

/// Whether the activation flag is set on row `i` of an `n`-row trace:
/// every row but the last, which has no successor row to pair with.
pub open spec fn activated(i: int, n: int) -> bool {
    0 <= i && i + 1 < n
}

/// The triple row `i` actually looks up, after masking by the activation
/// flag: the row's real `(state_i, state_{i+1}, character_i)` when the flag
/// is set, the sentinel `(0, 0, 0)` when it is cleared.
pub open spec fn lookup_target(characters: Seq<u64>, states: Seq<u64>, i: int) -> TransitionRow {
    if activated(i, states.len() as int) {
        TransitionRow {
            prev_state: states[i],
            next_state: states[i + 1],
            character: characters[i],
        }
    } else {
        sentinel_row()
    }
}

/// The registered membership constraint, over a whole assignment: every
/// row's masked lookup target is a member of the table. This is exactly the
/// satisfiability question the proving backend decides for this gadget.
pub open spec fn constraint_satisfied(
    table: Seq<TransitionRow>,
    characters: Seq<u64>,
    states: Seq<u64>,
) -> bool {
    forall|i: int|
        0 <= i < states.len() ==> table.contains(#[trigger] lookup_target(characters, states, i))
}

/// Evaluates the membership constraint against the three table columns,
/// given row by row: the verdict the proving backend reaches for this
/// gadget. Returns `true` exactly when every row's masked lookup target —
/// the real triple where the activation flag is set, the sentinel where it
/// is cleared — occurs in the table.
pub fn lookup_satisfied(table_rows: &Vec<TransitionRow>, result: &AssignedRegexResult) -> (b:
    bool)
    requires
        result.wf(),
    ensures
        b == constraint_satisfied(table_rows@, result.characters@, result.states@),
{
    let n = result.states.len();
    let mut i: usize = 0;
    while i < n
        invariant
            result.wf(),
            n == result.states@.len(),
            0 <= i <= n,
            forall|j: int|
                0 <= j < i ==> table_rows@.contains(
                    #[trigger] lookup_target(result.characters@, result.states@, j),
                ),
        decreases n - i,
    {
        let target = if i + 1 < n {
            TransitionRow {
                prev_state: result.states[i],
                next_state: result.states[i + 1],
                character: result.characters[i],
            }
        } else {
            TransitionRow { prev_state: 0, next_state: 0, character: 0 }
        };
        if !row_vec_contains(table_rows, target) {
            proof {
                assert(target == lookup_target(result.characters@, result.states@, i as int));
            }
            return false;
        }
        i += 1;
    }
    true
}

/// Why a witness trace was rejected before any row was written.
#[derive(Clone, Copy, PartialEq, Eq, Structural, Debug)]
pub enum WitnessError {
    /// The character and state sequences differ in length.
    LengthMismatch,
}

/// The values written into the two witness columns for one proof instance,
/// row by row: `states[i]` is the automaton state before consuming
/// `characters[i]`.
#[derive(Clone, Debug)]
pub struct AssignedRegexResult {
    pub characters: Vec<u64>,
    pub states: Vec<u64>,
}

impl AssignedRegexResult {
    /// A well-formed assignment fills both columns over the same rows.
    pub open spec fn wf(self) -> bool {
        self.characters@.len() == self.states@.len()
    }
}

/// The gadget's configuration: the column and flag handles together with
/// the transition table the membership constraint was registered against.
#[derive(Clone, Debug)]
pub struct RegexCheckConfig {
    transition_table: TransitionTableConfig,
}

impl RegexCheckConfig {
    /// The transition relation the registered constraint looks up into.
    pub closed spec fn table(self) -> Seq<TransitionRow> {
        self.transition_table.rows_seq()
    }

    /// Whether the table behind the constraint has been loaded.
    pub closed spec fn table_loaded(self) -> bool {
        self.transition_table.is_loaded()
    }

    /// Declares the witness columns and the activation flag, and registers
    /// the one masked membership constraint against the (still unloaded)
    /// transition table.
    pub fn configure() -> (c: Self)
        ensures
            c.table() === Seq::<TransitionRow>::empty(),
            !c.table_loaded(),
    {
        RegexCheckConfig { transition_table: TransitionTableConfig::configure() }
    }

    /// Loads the precomputed transition records into the table, once;
    /// see [`TransitionTableConfig::load`].
    pub fn load(&mut self, records: &Vec<TransitionRow>) -> (res: Result<(), TableLoadError>)
        requires
            !old(self).table_loaded(),
        ensures
            match res {
                Ok(()) => {
                    &&& final(self).table_loaded()
                    &&& final(self).table() === loaded_rows(records@)
                    &&& final(self).table().contains(sentinel_row())
                    &&& forall|r: TransitionRow|
                        final(self).table().contains(r) <==> (records@.contains(r)
                            || r == sentinel_row())
                    &&& forall|i: int|
                        0 <= i < records@.len() ==> char_in_range(#[trigger] records@[i])
                },
                Err(e) => {
                    &&& e == TableLoadError::CharacterOutOfRange
                    &&& exists|i: int|
                        0 <= i < records@.len() && !char_in_range(#[trigger] records@[i])
                    &&& *final(self) === *old(self)
                },
            },
    {
        self.transition_table.load(records)
    }

    /// Fills the witness columns from one concrete input.
    ///
    /// The two sequences must have the same length; a mismatch is rejected
    /// before any row is written, because proof inputs are untrusted. On
    /// success, row `i` carries `characters[i]` (widened to a state-sized
    /// integer) in the `characters` column and `states[i]` in the `state`
    /// column. The activation flag is positional — set on exactly the rows
    /// `activated` describes, every row but the last.
    pub fn assign_values(&self, characters: &Vec<u8>, states: &Vec<u64>) -> (res: Result<
        AssignedRegexResult,
        WitnessError,
    >)
        ensures
            match res {
                Ok(r) => {
                    &&& characters@.len() == states@.len()
                    &&& r.wf()
                    &&& r.characters@.len() == characters@.len()
                    &&& forall|i: int|
                        0 <= i < characters@.len() ==> #[trigger] r.characters@[i]
                            == characters@[i] as u64
                    &&& r.states@ === states@
                },
                Err(e) => {
                    &&& e == WitnessError::LengthMismatch
                    &&& characters@.len() != states@.len()
                },
            },
    {
        if characters.len() != states.len() {
            return Err(WitnessError::LengthMismatch);
        }
        let n = characters.len();
        let mut assigned_characters: Vec<u64> = Vec::new();
        let mut assigned_states: Vec<u64> = Vec::new();
        let mut i: usize = 0;
        while i < n
            invariant
                n == characters@.len(),
                n == states@.len(),
                0 <= i <= n,
                assigned_characters@.len() == i,
                assigned_states@.len() == i,
                forall|j: int|
                    0 <= j < i ==> assigned_characters@[j] == #[trigger] characters@[j] as u64,
                forall|j: int| 0 <= j < i ==> assigned_states@[j] == #[trigger] states@[j],
            decreases n - i,
        {
            assigned_characters.push(characters[i] as u64);
            assigned_states.push(states[i]);
            i += 1;
        }
        proof {
            assert(assigned_states@ =~= states@);
        }
        Ok(AssignedRegexResult { characters: assigned_characters, states: assigned_states })
    }

    /// Evaluates the registered membership constraint on a completed
    /// assignment: the verdict the proving backend reaches for this gadget.
    /// Returns `true` exactly when every row's masked lookup target is in
    /// the table.
    pub fn check_satisfied(&self, result: &AssignedRegexResult) -> (b: bool)
        requires
            result.wf(),
        ensures
            b == constraint_satisfied(self.table(), result.characters@, result.states@),
    {
        lookup_satisfied(self.transition_table.rows(), result)
    }
}

} // verus!
