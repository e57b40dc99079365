//! Expansion of range and sequence notation into explicit number lists.
//!
//! A location names its chapters (or verses) by a start value, an optional
//! end value written after a hyphen, and an optional extra value written
//! after a comma: `3`, `3-5`, `3,7` or `3-5,7`.

use vstd::prelude::*;

verus! {

/// The inclusive ascending run `start, start + 1, ..., end`.
///
/// A descending pair (`end < start`) names no number at all: the run is empty.
pub open spec fn run(start: u8, end: u8) -> Seq<u8> {
    Seq::new(
        (if start <= end {
            end - start + 1
        } else {
            0
        }) as nat,
        |i: int| (start + i) as u8,
    )
}

/// The numbers that a start value, an optional extra value and an optional
/// end value stand for.
///
/// Without an end value the start value stands alone; with one, the run from
/// start to end takes its place. The extra value always comes last, after the
/// run, whether or not the run already holds it.
pub open spec fn expansion(start: u8, next: Option<u8>, end: Option<u8>) -> Seq<u8> {
    let head = match end {
        Some(e) => run(start, e),
        None => seq![start],
    };
    match next {
        Some(n) => head.push(n),
        None => head,
    }
}

/// Expands a start value, an optional extra value and an optional end value
/// into the explicit list of numbers they stand for.
pub fn expand_range(start: u8, next: Option<u8>, end: Option<u8>) -> (out: Vec<u8>)
    ensures
        out@ == expansion(start, next, end),
{
    let mut out: Vec<u8> = Vec::new();
    match end {
        Some(e) => {
            if start <= e {
                let mut current: u8 = start;
                while current < e
                    invariant
                        start <= current <= e,
                        out@ == run(start, current).drop_last(),
                    decreases e - current,
                {
                    out.push(current);
                    current = current + 1;
                }
                out.push(e);
            }
        },
        None => {
            out.push(start);
        },
    }
    match next {
        Some(n) => {
            out.push(n);
        },
        None => {},
    }
    out
}

/// An ascending run counts up by one from its start to its end: it holds
/// `end - start + 1` numbers, and the number at place `i` is `start + i`.
pub proof fn lemma_run_counts_up(start: u8, end: u8)
    requires
        start <= end,
    ensures
        run(start, end).len() == end - start + 1,
        run(start, end).first() == start,
        run(start, end).last() == end,
        forall|i: int| 0 <= i <= end - start ==> #[trigger] run(start, end)[i] == start + i,
{
}

/// The value after a comma is appended to what stands before it, and never
/// merged into it: with or without a range, the expansion is that of the
/// notation without the comma part, followed by the extra value.
pub proof fn lemma_extra_value_comes_last(start: u8, next: u8, end: Option<u8>)
    ensures
        expansion(start, Some(next), end) == expansion(start, None, end).push(next),
        expansion(start, Some(next), end).last() == next,
{
}

/// The four forms of the notation: a single value, a sequence, a range, and
/// a range followed by one more value.
pub proof fn lemma_expansion_forms(start: u8, next: u8, end: u8)
    ensures
        expansion(start, None, None) == seq![start],
        expansion(start, Some(next), None) == seq![start, next],
        expansion(start, None, Some(end)) == run(start, end),
        expansion(start, Some(next), Some(end)) == run(start, end) + seq![next],
{
}

/// An expansion names no number at all in one case only: a range whose end
/// lies below its start, with no value after a comma.
pub proof fn lemma_expansion_empty(start: u8, next: Option<u8>, end: Option<u8>)
    ensures
        expansion(start, next, end).len() == 0 <==> (next is None && end is Some && end->0
            < start),
{
}

/// A notation that expands to the given list of numbers, read off the list
/// itself: its start value, extra value and end value, in this order.
///
/// One number is written as a single value, two as a sequence, a run of
/// three or more as a range, and anything else as a range followed by the
/// last number.
pub open spec fn notation_of(numbers: Seq<u8>) -> (u8, Option<u8>, Option<u8>)
    recommends
        numbers.len() > 0,
{
    let first = numbers.first();
    let last = numbers.last();
    if numbers.len() == 1 {
        (first, None, None)
    } else if numbers.len() == 2 {
        (first, Some(last), None)
    } else if numbers == run(first, last) {
        (first, None, Some(last))
    } else {
        (first, Some(last), Some(numbers[numbers.len() - 2]))
    }
}

/// Expanding loses nothing that a notation could bring back: what a
/// notation with no descending range expands to can be written as notation
/// again, with no descending range either, and that notation expands to the
/// same numbers in the same order.
pub proof fn lemma_notation_round_trip(start: u8, next: Option<u8>, end: Option<u8>)
    requires
        end matches Some(e) ==> start <= e,
    ensures
        ({
            let numbers = expansion(start, next, end);
            let (s, n, e) = notation_of(numbers);
            &&& numbers.len() > 0
            &&& expansion(s, n, e) == numbers
            &&& e matches Some(last) ==> s <= last
        }),
{
    let numbers = expansion(start, next, end);
    if numbers.len() >= 3 && next is None {
        assert(numbers =~= run(numbers.first(), numbers.last()));
    }
}

} // verus!
