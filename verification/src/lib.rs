//! Splitting a borrowed slice into contiguous, non-empty runs at boundary
//! elements chosen by a caller-supplied predicate. A matched element either
//! opens the following run (`Before` mode) or closes the current one
//! (`After` mode); the runs, in order, cover the slice exactly once.

mod laws;
mod split;

pub use laws::lemma_empty_source_first_pull;
pub use laws::lemma_exhaustion_is_terminal;
pub use laws::lemma_runs_cover;
pub use laws::lemma_runs_nonempty;
pub use split::after_step_matches;
pub use split::before_step_matches;
pub use split::matcher_callable;
pub use split::matcher_returns;
pub use split::produced_view;
pub use split::pull_result;
pub use split::Mode;
pub use split::SplitAfter;
pub use split::SplitBefore;
pub use split::SplitInc;
