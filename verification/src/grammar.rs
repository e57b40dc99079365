//! The two grammars, and the parser that runs them over a text.

use vstd::prelude::*;
use crate::engine::{captures, compile, regex_accepts, regex_captures, Pattern};
use crate::location::{
    location_of, locations_from_captures, locations_of, LocationView, VerseLocation,
};
use crate::reference::{BibleReference, ReferenceView};

verus! {

/// The grammar of one location.
///
/// Single chapter: `1`. Range: `1-2`. Sequence: `1,4`. Mixed chapters:
/// `1-2,4`. Single verse: `1:1`. Range: `1:1-3`. Sequence: `1:1,3`. Mixed
/// verses: `1:1-2,4`.
pub const LOCATION_PATTERN: &'static str = "(?P<Chapter>1?[0-9]?[0-9])\
(-(?P<ChapterEnd>\\d+)|,\\s*(?P<ChapterNext>\\d+))*\
(:\\s*(?P<Verse>\\d+))?\
(-(?P<VerseEnd>\\d+)|,\\s*(?P<VerseNext>\\d+))*";

/// The grammar of one citation: a book label, then one or more locations.
///
/// `Gen 1:1, 2`, `3 King 1:3-4`, `II Ki. 3:12-14, 25`.
pub const REFERENCE_PATTERN: &'static str = "(?P<Book>(([1234]|I{1,4})\\s*)?\\pL+\\.?)\\s*\
(?P<Locations>(\
(?P<Chapter>1?[0-9]?[0-9])\
(-(?P<ChapterEnd>\\d+)|,\\s*(?P<ChapterNext>\\d+))*\
(:\\s*(?P<Verse>\\d+))?\
(-(?P<VerseEnd>\\d+)|,\\s*(?P<VerseNext>\\d+))*\
\\s?)+)";

/// The number of groups that one match of the citation grammar reports.
pub const REFERENCE_GROUPS: usize = 2;

/// The groups read from a match of the location grammar, in the order in
/// which a location is decoded from them.
pub open spec fn location_group_names() -> Seq<Seq<char>> {
    seq!["Chapter"@, "ChapterEnd"@, "ChapterNext"@, "Verse"@, "VerseEnd"@, "VerseNext"@]
}

/// The groups read from a match of the citation grammar: the book label,
/// then the run of locations that follows it.
pub open spec fn reference_group_names() -> Seq<Seq<char>> {
    seq!["Book"@, "Locations"@]
}

/// The source texts of the two patterns that a [`Grammar`] was compiled
/// from.
pub struct GrammarView {
    /// The pattern of one citation, with the groups `Book` and `Locations`.
    pub reference: Seq<char>,
    /// The pattern of one location, with the groups `Chapter`, `ChapterEnd`,
    /// `ChapterNext`, `Verse`, `VerseEnd` and `VerseNext`.
    pub location: Seq<char>,
}

/// The grammar of this library: [`REFERENCE_PATTERN`] and
/// [`LOCATION_PATTERN`].
pub open spec fn standard_grammar() -> GrammarView {
    GrammarView { reference: REFERENCE_PATTERN@, location: LOCATION_PATTERN@ }
}

/// The engine compiles both patterns.
pub open spec fn compiles(grammar: GrammarView) -> bool {
    regex_accepts(grammar.reference) && regex_accepts(grammar.location)
}

/// The locations written in a text that holds location notation only: one
/// for each match of the location pattern that stands for a location.
pub open spec fn locations_in(location_pattern: Seq<char>, text: Seq<char>) -> Seq<LocationView> {
    locations_of(regex_captures(location_pattern, text, location_group_names()))
}

/// The citation that one match of the citation pattern stands for: the book
/// label as captured, with the locations written in the captured run of
/// locations. A match that lacks either group stands for no citation.
pub open spec fn reference_of(
    location_pattern: Seq<char>,
    groups: Seq<Option<Seq<char>>>,
) -> Option<ReferenceView> {
    if groups.len() != REFERENCE_GROUPS {
        None
    } else {
        match (groups[0], groups[1]) {
            (Some(book), Some(locations)) => Some(
                ReferenceView { book, locations: locations_in(location_pattern, locations) },
            ),
            _ => None,
        }
    }
}

/// The citations that a sequence of matches stands for: one for each match
/// that stands for a citation, in the order of the matches.
pub open spec fn references_of(
    location_pattern: Seq<char>,
    found: Seq<Seq<Option<Seq<char>>>>,
) -> Seq<ReferenceView>
    decreases found.len(),
{
    if found.len() == 0 {
        Seq::empty()
    } else {
        let before = references_of(location_pattern, found.drop_last());
        match reference_of(location_pattern, found.last()) {
            Some(reference) => before.push(reference),
            None => before,
        }
    }
}

/// The citations that a grammar finds in a text: what the non-overlapping
/// matches of its citation pattern stand for, from left to right.
pub open spec fn citations_in(grammar: GrammarView, text: Seq<char>) -> Seq<ReferenceView> {
    references_of(
        grammar.location,
        regex_captures(grammar.reference, text, reference_group_names()),
    )
}

/// The citations in a text, by the grammar of this library.
pub open spec fn citations(text: Seq<char>) -> Seq<ReferenceView> {
    citations_in(standard_grammar(), text)
}

/// The pattern that did not compile.
#[derive(Clone, Copy, Debug, PartialEq, Eq, Structural)]
pub enum GrammarError {
    /// The citation pattern.
    Reference,
    /// The location pattern.
    Location,
}

/// The two patterns in compiled form.
///
/// Compiling is costly and matching is cheap: build one `Grammar` and parse
/// any number of texts with it. A `Grammar` is never changed after it is
/// built, and can be shared freely.
pub struct Grammar {
    reference: Pattern,
    location: Pattern,
}

impl View for Grammar {
    type V = GrammarView;

    closed spec fn view(&self) -> GrammarView {
        GrammarView { reference: self.reference@, location: self.location@ }
    }
}

fn location_names() -> (names: Vec<&'static str>)
    ensures
        names.deep_view() == location_group_names(),
{
    let mut names: Vec<&'static str> = Vec::new();
    names.push("Chapter");
    names.push("ChapterEnd");
    names.push("ChapterNext");
    names.push("Verse");
    names.push("VerseEnd");
    names.push("VerseNext");
    names
}

fn reference_names() -> (names: Vec<&'static str>)
    ensures
        names.deep_view() == reference_group_names(),
{
    let mut names: Vec<&'static str> = Vec::new();
    names.push("Book");
    names.push("Locations");
    names
}

impl Grammar {
    /// Compiles the grammar of this library.
    ///
    /// Fails only where the engine refuses one of the two patterns.
    pub fn new() -> (r: Result<Grammar, GrammarError>)
        ensures
            r is Ok <==> compiles(standard_grammar()),
            r matches Ok(grammar) ==> grammar@ == standard_grammar(),
            r matches Err(e) ==> (e == GrammarError::Reference <==> !regex_accepts(
                REFERENCE_PATTERN@,
            )),
    {
        Grammar::with_patterns(REFERENCE_PATTERN, LOCATION_PATTERN)
    }

    /// Compiles a grammar from two patterns of the caller's own.
    ///
    /// The citation pattern is expected to capture the groups `Book` and
    /// `Locations`, the location pattern the groups `Chapter`, `ChapterEnd`,
    /// `ChapterNext`, `Verse`, `VerseEnd` and `VerseNext`; a group that a
    /// pattern lacks never takes part in a match.
    ///
    /// Fails exactly where the engine refuses one of the patterns, and names
    /// the first one that it refused.
    pub fn with_patterns(reference: &str, location: &str) -> (r: Result<Grammar, GrammarError>)
        ensures
            r is Ok <==> regex_accepts(reference@) && regex_accepts(location@),
            r matches Ok(grammar) ==> grammar@ == (GrammarView {
                reference: reference@,
                location: location@,
            }),
            r matches Err(e) ==> (e == GrammarError::Reference <==> !regex_accepts(reference@)),
    {
        let reference = match compile(reference) {
            Ok(pattern) => pattern,
            Err(_) => {
                return Err(GrammarError::Reference);
            },
        };
        let location = match compile(location) {
            Ok(pattern) => pattern,
            Err(_) => {
                return Err(GrammarError::Location);
            },
        };
        Ok(Grammar { reference, location })
    }

    /// Parses a text that holds location notation only into the locations
    /// written in it.
    pub fn parse_locations(&self, string: &str) -> (out: Vec<VerseLocation>)
        ensures
            out.deep_view() == locations_in(self@.location, string@),
    {
        let names = location_names();
        let found = captures(&self.location, string, &names);
        locations_from_captures(&found)
    }

    /// Finds the citations in a text: for each non-overlapping match of the
    /// citation pattern, from left to right, the captured book label and the
    /// captured run of locations, in these two places.
    pub fn match_references(&self, string: &str) -> (found: Vec<Vec<Option<String>>>)
        ensures
            found.deep_view() == regex_captures(
                self@.reference,
                string@,
                reference_group_names(),
            ),
            forall|i: int|
                0 <= i < found@.len() ==> (#[trigger] found@[i])@.len() == REFERENCE_GROUPS,
    {
        let names = reference_names();
        assert(names@.len() == names.deep_view().len());
        captures(&self.reference, string, &names)
    }

    /// Builds the citation that one match of the citation pattern stands
    /// for, from the texts of its two groups.
    pub fn reference_from_groups(&self, groups: &Vec<Option<String>>) -> (r: Option<
        BibleReference,
    >)
        ensures
            r.deep_view() == reference_of(self@.location, groups.deep_view()),
    {
        if groups.len() != REFERENCE_GROUPS {
            return None;
        }
        match (&groups[0], &groups[1]) {
            (Some(book), Some(locations)) => Some(
                BibleReference {
                    book: book.clone(),
                    locations: self.parse_locations(locations.as_str()),
                },
            ),
            _ => None,
        }
    }

    /// Builds the citations that a sequence of matches of the citation
    /// pattern stands for, skipping each match that stands for none.
    pub fn assemble(&self, found: &Vec<Vec<Option<String>>>) -> (out: Vec<BibleReference>)
        ensures
            out.deep_view() == references_of(self@.location, found.deep_view()),
    {
        let mut out: Vec<BibleReference> = Vec::new();
        let mut i: usize = 0;
        while i < found.len()
            invariant
                i <= found.len(),
                out.deep_view() == references_of(
                    self@.location,
                    found.deep_view().take(i as int),
                ),
            decreases found.len() - i,
        {
            assert(found.deep_view().take(i + 1).drop_last() =~= found.deep_view().take(
                i as int,
            ));
            match self.reference_from_groups(&found[i]) {
                Some(reference) => {
                    out.push(reference);
                },
                None => {},
            }
            i = i + 1;
        }
        assert(found.deep_view().take(i as int) =~= found.deep_view());
        out
    }

    /// Parses a text into the citations found in it, from left to right.
    pub fn parse(&self, string: &str) -> (refs: Vec<BibleReference>)
        ensures
            refs.deep_view() == citations_in(self@, string@),
    {
        let found = self.match_references(string);
        self.assemble(&found)
    }
}

/// Parses string into references
///
/// Compiles the grammar of this library, then parses the text with it: to
/// parse many texts, build a [`Grammar`] once and call [`Grammar::parse`].
/// Where the engine refuses the grammar, no citation is found.
pub fn parse(string: &str) -> (refs: Vec<BibleReference>)
    ensures
        compiles(standard_grammar()) ==> refs.deep_view() == citations(string@),
        !compiles(standard_grammar()) ==> refs.deep_view() == Seq::<ReferenceView>::empty(),
{
    match Grammar::new() {
        Ok(grammar) => grammar.parse(string),
        Err(_) => {
            let refs: Vec<BibleReference> = Vec::new();
            refs
        },
    }
}

/// The book label is kept as it was captured: a match that holds a book
/// label and a run of locations stands for a citation with that very label,
/// and with the locations written in that run and nowhere else.
pub proof fn lemma_book_as_captured(
    location_pattern: Seq<char>,
    book: Seq<char>,
    locations: Seq<char>,
)
    ensures
        reference_of(location_pattern, seq![Some(book), Some(locations)]) == Some(
            ReferenceView { book, locations: locations_in(location_pattern, locations) },
        ),
        references_of(location_pattern, seq![seq![Some(book), Some(locations)]]) == seq![
            ReferenceView { book, locations: locations_in(location_pattern, locations) },
        ],
{
    let groups = seq![Some(book), Some(locations)];
    let found = seq![groups];
    assert(references_of(location_pattern, found.drop_last()) =~= Seq::empty());
    assert(Seq::<ReferenceView>::empty().push(reference_of(location_pattern, groups)->0)
        =~= seq![reference_of(location_pattern, groups)->0]);
}

/// Citations come in the order of the matches, one for each match: what two
/// sequences of matches stand for, one after the other, is what the first
/// stands for followed by what the second stands for.
pub proof fn lemma_references_in_order(
    location_pattern: Seq<char>,
    first: Seq<Seq<Option<Seq<char>>>>,
    second: Seq<Seq<Option<Seq<char>>>>,
)
    ensures
        references_of(location_pattern, first + second) == references_of(
            location_pattern,
            first,
        ) + references_of(location_pattern, second),
    decreases second.len(),
{
    if second.len() > 0 {
        lemma_references_in_order(location_pattern, first, second.drop_last());
        assert((first + second).drop_last() =~= first + second.drop_last());
    }
}

/// A text in which the citation pattern matches once, capturing a book
/// label and a run of locations in which the location pattern matches once,
/// holds one citation: that label with the one location that the match
/// stands for.
pub proof fn lemma_single_citation(
    grammar: GrammarView,
    text: Seq<char>,
    book: Seq<char>,
    locations: Seq<char>,
    groups: Seq<Option<Seq<char>>>,
)
    ensures
        ({
            &&& regex_captures(grammar.reference, text, reference_group_names()) == seq![
                seq![Some(book), Some(locations)],
            ]
            &&& regex_captures(grammar.location, locations, location_group_names()) == seq![
                groups,
            ]
            &&& location_of(groups) is Some
        }) ==> citations_in(grammar, text) == seq![
            ReferenceView { book, locations: seq![location_of(groups)->0] },
        ],
{
    lemma_book_as_captured(grammar.location, book, locations);
    let found = seq![groups];
    assert(locations_of(found.drop_last()) =~= Seq::empty());
    assert(Seq::<LocationView>::empty().push(location_of(groups)->0) =~= seq![
        location_of(groups)->0,
    ]);
}

/// Where the citation pattern matches in a joined text what it matches in
/// the first part followed by what it matches in the second, the citations
/// of the joined text are those of the first part followed by those of the
/// second: no citation is lost, none changes place, and no location passes
/// from one citation to another.
pub proof fn lemma_citations_of_joined_text(
    grammar: GrammarView,
    first: Seq<char>,
    second: Seq<char>,
    joined: Seq<char>,
)
    ensures
        regex_captures(grammar.reference, joined, reference_group_names()) == regex_captures(
            grammar.reference,
            first,
            reference_group_names(),
        ) + regex_captures(grammar.reference, second, reference_group_names())
            ==> citations_in(grammar, joined) == citations_in(grammar, first) + citations_in(
            grammar,
            second,
        ),
{
    lemma_references_in_order(
        grammar.location,
        regex_captures(grammar.reference, first, reference_group_names()),
        regex_captures(grammar.reference, second, reference_group_names()),
    );
}

} // verus!
