//! Sub-pixel snapping checks for a renderer: the snapping rule, the table of
//! scenarios and their variants, the scene descriptions built for each variant,
//! the golden-pixel validator and the state machine that sequences a run; and
//! a check that a hash function's one-shot and incremental digests agree.

pub mod snap;
pub mod catalog;
pub mod digest;
pub mod geometry;
pub mod scene;
pub mod validate;
pub mod runner;
