//! The rules on the shape of single expressions.

pub mod single_match;
