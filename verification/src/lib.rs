//! Evaluation engine of a regular-expression tester.
//!
//! A pattern and a subject go in, one plain-text report comes out: empty for
//! an empty pattern, the compiler's diagnostic for a pattern that does not
//! compile, a fixed marker when nothing matches, and otherwise one block per
//! match that lists every capture group of that match.

pub mod decimal;
pub mod matcher;
pub mod text;
pub mod captures;
pub mod report;
pub mod evaluate;
pub mod laws;
pub mod reference;
