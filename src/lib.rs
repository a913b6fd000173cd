//! Print every item of a sequence, one after another, with no separator.
//!
//! `FmtIter` wraps a restartable item source. Rendering it writes the text
//! of each item in order; iterating it yields the source's items unchanged.
//! `repeat` builds one that holds a single value a fixed number of times.
pub mod adapter;
pub mod laws;
pub mod source;
pub mod text;

pub use adapter::{repeat, FmtIter};
