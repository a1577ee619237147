//! Small, self-contained exercises on basic language features: classifying an
//! integer into ranges, deriving an owned text buffer from a borrowed view,
//! transforming conditionally-owned text, and duplicating small sequences.
//!
//! Every function returns the text it stands for instead of printing it, so
//! that its contract can say exactly what a caller will see.

pub mod classifier;
pub mod ownership;
pub mod processed;
pub mod sequences;
