//! A regex-membership circuit gadget: a witness trace of `(state, character,
//! next state)` steps is tied to a fixed DFA transition table through a
//! masked three-column membership (lookup) constraint.
//!
//! The constraint semantics, the table loading rules (including the all-zero
//! sentinel row), and the witness-assignment logic live here and are verified.
//! Driving an actual proving backend is the surrounding harness's job.

pub mod regex;
pub mod soundness;
pub mod table;
