//! Import pipeline for hackathon submissions and judge rosters: delimited text
//! is tokenized into rows, rows are mapped onto records with per-row checks,
//! and accepted submissions get ascending table slots from a shared counter.
use vstd::prelude::*;

pub mod allocator;
pub mod error;
pub mod fields;
pub mod laws;
pub mod roster;
pub mod submission;
pub mod tokenizer;

verus! {

} // verus!
