//! Bounded previews of slices for diagnostic output.
//!
//! A preview shows the first few elements of a slice between square
//! brackets and stands in for the rest with a count, as in
//! `[0, 1, 2, ...(3 more)]`.

pub mod decimal;
pub mod laws;
pub mod layout;
pub mod preview;

pub use preview::{TruncateSliceDebug, TruncatedSlice};
