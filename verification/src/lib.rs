//! Extraction of scripture citations ("book, chapters, verses") from free text.
//!
//! A text may hold several citations among prose. [`parse`] finds them from
//! left to right and returns, for each, the book label as it was written and
//! the chapters and verses it names, with range and sequence notation
//! (`1-3`, `1,4`, `1-2,4`) expanded into explicit lists.

pub mod engine;
pub mod grammar;
pub mod location;
pub mod number;
pub mod range;
pub mod reference;

pub use grammar::parse;
pub use grammar::Grammar;
pub use grammar::GrammarError;
pub use grammar::LOCATION_PATTERN;
pub use grammar::REFERENCE_PATTERN;
pub use location::locations_from_captures;
pub use location::VerseLocation;
pub use number::parse_number;
pub use range::expand_range;
pub use reference::BibleReference;
