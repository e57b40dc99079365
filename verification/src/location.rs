//! Chapter and verse locations, and their decoding from captured groups.

use vstd::prelude::*;
use crate::number::{decimal, parse_number};
use crate::range::{expand_range, expansion, lemma_run_counts_up, run};

verus! {

/// One chapter specification, optionally paired with a verse specification.
///
/// Both lists keep the order in which the notation names the numbers: a run
/// first, then the value given after a comma. They are not sorted and may
/// hold a number twice.
#[derive(Hash, Eq, PartialEq, Debug)]
pub struct VerseLocation {
    /// Chapters
    pub chapters: Vec<u8>,
    /// Verses
    pub verses: Option<Vec<u8>>,
}

/// What a [`VerseLocation`] holds, as mathematical sequences.
pub struct LocationView {
    pub chapters: Seq<u8>,
    pub verses: Option<Seq<u8>>,
}

impl LocationView {
    /// There is at least one chapter, and where verses are given, at least
    /// one verse.
    pub open spec fn well_formed(self) -> bool {
        &&& self.chapters.len() > 0
        &&& self.verses matches Some(verses) ==> verses.len() > 0
    }
}

impl View for VerseLocation {
    type V = LocationView;

    open spec fn view(&self) -> LocationView {
        LocationView {
            chapters: self.chapters@,
            verses: match self.verses {
                Some(verses) => Some(verses@),
                None => None,
            },
        }
    }
}

impl DeepView for VerseLocation {
    type V = LocationView;

    open spec fn deep_view(&self) -> LocationView {
        self@
    }
}

/// The number of groups that one match of the location grammar reports.
pub const LOCATION_GROUPS: usize = 6;

/// The number that a group captured, if the group took part in the match
/// and its text denotes a number below 256.
pub open spec fn captured_number(group: Option<Seq<char>>) -> Option<u8> {
    match group {
        Some(text) => decimal(text),
        None => None,
    }
}

/// A group can be read: it took no part in the match, or its text denotes
/// a number below 256.
pub open spec fn readable(group: Option<Seq<char>>) -> bool {
    group matches Some(text) ==> decimal(text) is Some
}

/// The location that one match of the location grammar stands for.
///
/// The groups are, in this order: the chapter, the chapter that ends a
/// range, the chapter after a comma, the verse, the verse that ends a range,
/// the verse after a comma.
///
/// A match stands for no location where it did not capture a chapter, and
/// where any group that it did capture holds a text that denotes no number
/// below 256: such a match is skipped whole, never read in part. Otherwise
/// it stands for the chapters that the three chapter groups expand to, and
/// it has verses exactly when the verse group took part.
pub open spec fn location_of(groups: Seq<Option<Seq<char>>>) -> Option<LocationView> {
    if groups.len() != LOCATION_GROUPS || groups[0] is None || !readable(groups[0]) || !readable(
        groups[1],
    ) || !readable(groups[2]) || !readable(groups[3]) || !readable(groups[4]) || !readable(
        groups[5],
    ) {
        None
    } else {
        Some(
            LocationView {
                chapters: expansion(
                    captured_number(groups[0])->0,
                    captured_number(groups[2]),
                    captured_number(groups[1]),
                ),
                verses: match captured_number(groups[3]) {
                    Some(verse) => Some(
                        expansion(verse, captured_number(groups[5]), captured_number(groups[4])),
                    ),
                    None => None,
                },
            },
        )
    }
}

/// The locations that a sequence of matches stands for: one for each match
/// that stands for a location, in the order of the matches.
pub open spec fn locations_of(found: Seq<Seq<Option<Seq<char>>>>) -> Seq<LocationView>
    decreases found.len(),
{
    if found.len() == 0 {
        Seq::empty()
    } else {
        let before = locations_of(found.drop_last());
        match location_of(found.last()) {
            Some(location) => before.push(location),
            None => before,
        }
    }
}

fn read_group(group: &Option<String>) -> (r: Option<Option<u8>>)
    ensures
        r is Some <==> readable(group.deep_view()),
        r matches Some(number) ==> number == captured_number(group.deep_view()),
{
    match group {
        Some(text) => match parse_number(text.as_str()) {
            Some(number) => Some(Some(number)),
            None => None,
        },
        None => Some(None),
    }
}

impl VerseLocation {
    /// Builds the location that one match of the location grammar stands
    /// for, from the texts of its six groups.
    ///
    /// Returns `None` where the match has no chapter, and where a group
    /// holds a text that cannot be read as a number below 256.
    pub fn from_groups(groups: &Vec<Option<String>>) -> (r: Option<VerseLocation>)
        ensures
            r.deep_view() == location_of(groups.deep_view()),
    {
        if groups.len() != LOCATION_GROUPS {
            return None;
        }
        let chapter: u8 = match read_group(&groups[0]) {
            Some(Some(chapter)) => chapter,
            _ => {
                return None;
            },
        };
        let chapter_end = match read_group(&groups[1]) {
            Some(number) => number,
            None => {
                return None;
            },
        };
        let chapter_next = match read_group(&groups[2]) {
            Some(number) => number,
            None => {
                return None;
            },
        };
        let verse = match read_group(&groups[3]) {
            Some(number) => number,
            None => {
                return None;
            },
        };
        let verse_end = match read_group(&groups[4]) {
            Some(number) => number,
            None => {
                return None;
            },
        };
        let verse_next = match read_group(&groups[5]) {
            Some(number) => number,
            None => {
                return None;
            },
        };
        let chapters = expand_range(chapter, chapter_next, chapter_end);
        let verses = match verse {
            Some(verse) => Some(expand_range(verse, verse_next, verse_end)),
            None => None,
        };
        Some(VerseLocation { chapters, verses })
    }
}

/// Builds the locations that a sequence of matches of the location grammar
/// stands for, skipping each match that stands for none.
pub fn locations_from_captures(found: &Vec<Vec<Option<String>>>) -> (out: Vec<VerseLocation>)
    ensures
        out.deep_view() == locations_of(found.deep_view()),
{
    let mut out: Vec<VerseLocation> = Vec::new();
    let mut i: usize = 0;
    while i < found.len()
        invariant
            i <= found.len(),
            out.deep_view() == locations_of(found.deep_view().take(i as int)),
        decreases found.len() - i,
    {
        assert(found.deep_view().take(i + 1).drop_last() =~= found.deep_view().take(i as int));
        match VerseLocation::from_groups(&found[i]) {
            Some(location) => {
                out.push(location);
            },
            None => {},
        }
        i = i + 1;
    }
    assert(found.deep_view().take(i as int) =~= found.deep_view());
    out
}

/// A range that names no number: its end lies below its start, and no value
/// follows after a comma.
pub open spec fn names_nothing(start: Option<u8>, next: Option<u8>, end: Option<u8>) -> bool {
    start is Some && next is None && end is Some && end->0 < start->0
}

/// A match stands for a location exactly when it reports six groups, has
/// captured a chapter, and every group that it captured can be read: one
/// unreadable group, whichever it is, makes the whole match stand for no
/// location.
pub proof fn lemma_location_exists(groups: Seq<Option<Seq<char>>>)
    ensures
        location_of(groups) is Some <==> (groups.len() == LOCATION_GROUPS && groups[0] is Some
            && forall|k: int| 0 <= k < LOCATION_GROUPS ==> readable(#[trigger] groups[k])),
{
}

/// A match that holds a chapter number and nothing else stands for that one
/// chapter, without verses.
pub proof fn lemma_single_chapter(chapter: Seq<char>, n: u8)
    requires
        decimal(chapter) == Some(n),
    ensures
        location_of(seq![Some(chapter), None, None, None, None, None]) == Some(
            LocationView { chapters: seq![n], verses: None },
        ),
{
}

/// A match that holds a chapter number and a verse number stands for that
/// one chapter and that one verse.
pub proof fn lemma_chapter_and_verse(chapter: Seq<char>, verse: Seq<char>, c: u8, v: u8)
    requires
        decimal(chapter) == Some(c),
        decimal(verse) == Some(v),
    ensures
        location_of(seq![Some(chapter), None, None, Some(verse), None, None]) == Some(
            LocationView { chapters: seq![c], verses: Some(seq![v]) },
        ),
{
}

/// A range of chapters `a-b` with `a <= b` stands for the chapters
/// `a, a + 1, ..., b`, without verses.
pub proof fn lemma_chapter_range(chapter: Seq<char>, chapter_end: Seq<char>, a: u8, b: u8)
    requires
        decimal(chapter) == Some(a),
        decimal(chapter_end) == Some(b),
        a <= b,
    ensures
        location_of(seq![Some(chapter), Some(chapter_end), None, None, None, None]) == Some(
            LocationView { chapters: run(a, b), verses: None },
        ),
        run(a, b).len() == b - a + 1,
        forall|i: int| 0 <= i <= b - a ==> #[trigger] run(a, b)[i] == a + i,
{
    lemma_run_counts_up(a, b);
}

/// A sequence of chapters `a,b` stands for the two chapters `a` and `b`, in
/// that order.
pub proof fn lemma_chapter_sequence(chapter: Seq<char>, chapter_next: Seq<char>, a: u8, b: u8)
    requires
        decimal(chapter) == Some(a),
        decimal(chapter_next) == Some(b),
    ensures
        location_of(seq![Some(chapter), None, Some(chapter_next), None, None, None]) == Some(
            LocationView { chapters: seq![a, b], verses: None },
        ),
{
    assert(seq![a].push(b) =~= seq![a, b]);
}

/// Mixed notation `a-b,c` stands for the run from `a` to `b` followed by
/// `c`: the value after the comma comes last.
pub proof fn lemma_chapter_range_then_value(
    chapter: Seq<char>,
    chapter_end: Seq<char>,
    chapter_next: Seq<char>,
    a: u8,
    b: u8,
    c: u8,
)
    requires
        decimal(chapter) == Some(a),
        decimal(chapter_end) == Some(b),
        decimal(chapter_next) == Some(c),
    ensures
        location_of(
            seq![Some(chapter), Some(chapter_end), Some(chapter_next), None, None, None],
        ) == Some(LocationView { chapters: run(a, b) + seq![c], verses: None }),
{
    assert(run(a, b).push(c) =~= run(a, b) + seq![c]);
}

/// A location lacks chapters, or has verses but none of them, only where
/// the notation gives a range that names nothing.
pub proof fn lemma_location_well_formed(groups: Seq<Option<Seq<char>>>)
    requires
        location_of(groups) is Some,
    ensures
        location_of(groups)->0.well_formed() <==> !names_nothing(
            captured_number(groups[0]),
            captured_number(groups[2]),
            captured_number(groups[1]),
        ) && !names_nothing(
            captured_number(groups[3]),
            captured_number(groups[5]),
            captured_number(groups[4]),
        ),
{
}

/// Locations come in the order of the matches: what two sequences of
/// matches stand for, one after the other, is what the first stands for
/// followed by what the second stands for.
pub proof fn lemma_locations_in_order(
    first: Seq<Seq<Option<Seq<char>>>>,
    second: Seq<Seq<Option<Seq<char>>>>,
)
    ensures
        locations_of(first + second) == locations_of(first) + locations_of(second),
    decreases second.len(),
{
    if second.len() > 0 {
        lemma_locations_in_order(first, second.drop_last());
        assert((first + second).drop_last() =~= first + second.drop_last());
    }
}

} // verus!
