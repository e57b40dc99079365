//! Citations: a book label with the locations cited in that book.

use vstd::prelude::*;
use crate::location::{LocationView, VerseLocation};

verus! {

/// One citation: the book as it was written, and the locations cited in it.
#[derive(Debug)]
pub struct BibleReference {
    /// Book name
    pub book: String,
    /// Verse locations
    pub locations: Vec<VerseLocation>,
}

/// What a [`BibleReference`] holds, as mathematical sequences.
pub struct ReferenceView {
    pub book: Seq<char>,
    pub locations: Seq<LocationView>,
}

impl View for BibleReference {
    type V = ReferenceView;

    open spec fn view(&self) -> ReferenceView {
        ReferenceView { book: self.book@, locations: self.locations.deep_view() }
    }
}

impl DeepView for BibleReference {
    type V = ReferenceView;

    open spec fn deep_view(&self) -> ReferenceView {
        self@
    }
}

} // verus!
