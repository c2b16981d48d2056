//! Sequential parser combinators.
//!
//! The crate composes component parsers that run one after another over the
//! same input stream: each parser takes the cursor its predecessor left and
//! either succeeds with a remaining cursor and an output, or fails, in which
//! case the whole sequence stops and forwards that failure unchanged.

pub mod cursor;
pub mod error;
pub mod laws;
pub mod leaf;
pub mod parser;
pub mod sequence;
pub mod tuple;
