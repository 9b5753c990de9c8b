//! Row-wise extraction of regular-expression capture groups from columns of
//! text.
//!
//! A call takes three arguments: the subject texts, the patterns and the
//! capture-group indices. Each is either one value for every row or one value
//! per row. For every row the text of the requested group of the first match
//! is produced, or the empty text where there is no match or no such group.

pub mod column;
pub mod engine;
pub mod error;
pub mod extract;
pub mod function;
pub mod laws;
pub mod pattern;
