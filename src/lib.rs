//! Composable validation: nested validators record failures into an
//! accumulator, each stamped with the path of fields and indices at which it
//! was found, and the whole run ends in one report.
//!
//! Paths are kept leaf first inside a failure, and written root first, as
//! in `$.b.cs[1]: value is odd`.
mod accumulator;
mod errors;
mod render;
pub mod synch;
mod wrapper;

pub use accumulator::{
    lemma_sequence_failures_item, lemma_sequence_failures_len, lemma_sequence_failures_prefix,
    sequence_failures, total_failures, Accumulator,
};
pub use errors::{
    lemma_nest_all_add, lemma_nest_all_empty, lemma_nest_all_twice, nest_all, nested_in,
    outcome_of, Error, Failure, FailureView, Key,
};
pub use render::{
    decimal, digit, lemma_render_key_path_add, lemma_render_nested, render_failure, render_key,
    render_key_path, render_lines, render_report,
};
pub use synch::{lemma_context_decides, lemma_validate_repeatable, Validate, ValidateContext};
pub use wrapper::Valid;

use vstd::prelude::*;

verus! {

/// The outcome of a top-level validation: nothing, or the report of what failed.
pub type Result<T = (), E = Error> = std::result::Result<T, E>;

} // verus!
