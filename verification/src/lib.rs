//! Extracts media metadata (year, codecs, resolution, source, colour range,
//! audio layout) from free-form video file names.
//!
//! A file name is lowercased, scanned left to right against an ordered table
//! of patterns, and the tokens found are folded into a record in which the
//! last token of each category wins.

pub mod kinds;
pub mod laws;
pub mod lexer;
pub mod number;
pub mod parse;
pub mod pattern;
pub mod record;
pub mod rules;
pub mod token;

pub use crate::parse::parse;
pub use crate::record::ParseResult;
