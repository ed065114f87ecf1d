//! Delimiter consistency validation for line-oriented, CSV-like text.
//!
//! The first line of the input fixes the expected number of field separators;
//! every later line is scanned the same way and reported when its count
//! diverges.  Scanning may honour quoted spans, in which case separators
//! inside quotes are not counted.

pub mod laws;
pub mod numfmt;
pub mod scan;
pub mod validate;
