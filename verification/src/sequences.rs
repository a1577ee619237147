//! Duplicating, reversing and building small sequences, and showing them in
//! the standard debug notation.

use vstd::prelude::*;
use vstd::string::StringExecFns;

verus! {

/// The debug notation of a list of integers, as the standard library's
/// formatter writes it.
pub uninterp spec fn debug_of_integers(items: Seq<i32>) -> Seq<char>;

/// The debug notation of a list of texts, as the standard library's formatter
/// writes it.
pub uninterp spec fn debug_of_texts(items: Seq<Seq<char>>) -> Seq<char>;

/// Formats a slice of integers with `{:?}`, which goes through
/// `<[i32] as Debug>::fmt`. Nothing is proved of the call: the contract only
/// gives its result a name, as a function of the integers handed in.
#[verifier::external_body]
fn debug_integers(items: &[i32]) -> (text: String)
    ensures
        text@ == debug_of_integers(items@),
{
    format!("{:?}", items)
}

/// Formats a slice of texts with `{:?}`, which goes through
/// `<[&str] as Debug>::fmt`. Nothing is proved of the call: the contract only
/// gives its result a name, as a function of the texts handed in.
#[verifier::external_body]
fn debug_texts(items: &[&str]) -> (text: String)
    ensures
        text@ == debug_of_texts(items.deep_view()),
{
    format!("{:?}", items)
}

/// The line that shows a sequence beside its duplicate.
pub open spec fn pair_report(first: Seq<char>, second: Seq<char>) -> Seq<char> {
    "x = "@ + first + ", y = "@ + second
}

/// A copy of `items`, element by element. The copy is a value of its own:
/// a later change to either is invisible in the other.
pub fn duplicate(items: &[i32; 2]) -> (copy: [i32; 2])
    ensures
        copy@ == items@,
{
    let copy = items.clone();
    assert(copy@ =~= items@);
    copy
}

/// The line that shows two sequences, each already in debug notation.
pub fn pair_line(first: &str, second: &str) -> (line: String)
    ensures
        line@ == pair_report(first@, second@),
{
    String::from_str("x = ").concat(first).concat(", y = ").concat(second)
}

/// The line that shows `items` beside a duplicate of it.
pub fn duplicate_line(items: &[i32; 2]) -> (line: String)
    ensures
        line@ == pair_report(debug_of_integers(items@), debug_of_integers(items@)),
{
    let copy = duplicate(items);
    let first = debug_integers(items.as_slice());
    let second = debug_integers(copy.as_slice());
    pair_line(first.as_str(), second.as_str())
}

/// Duplicates `items`, then overwrites one element of `items` itself. The
/// duplicate still holds what `items` held when it was taken.
pub fn duplicate_then_set(items: &mut [i32; 2], index: usize, value: i32) -> (copy: [i32; 2])
    requires
        index < 2,
    ensures
        copy@ == old(items)@,
        final(items)@ == old(items)@.update(index as int, value),
{
    let copy = duplicate(items);
    items[index] = value;
    assert(items@ =~= old(items)@.update(index as int, value));
    copy
}

/// `<[T]>::reverse` turns the order of a slice's elements round, in place.
pub assume_specification<T>[ <[T]>::reverse ](items: &mut [T])
    ensures
        final(items)@ == old(items)@.reverse(),
;

/// The integers from `start` up to, and without, `end`, in rising order;
/// none where `end` is not above `start`.
pub open spec fn range_items(start: int, end: int) -> Seq<i32> {
    Seq::new(
        if start < end {
            (end - start) as nat
        } else {
            0
        },
        |i: int| (start + i) as i32,
    )
}

/// Turns the half-open range from `start` to `end` into a sequence of its
/// members.
pub fn materialize(start: i32, end: i32) -> (items: Vec<i32>)
    ensures
        items@ == range_items(start as int, end as int),
{
    let mut items: Vec<i32> = Vec::new();
    let mut next: i32 = start;
    while next < end
        invariant
            start <= next,
            next <= end || next == start,
            items@ =~= range_items(start as int, next as int),
        decreases end - next,
    {
        items.push(next);
        next = next + 1;
    }
    assert(items@ =~= range_items(start as int, end as int));
    items
}

/// The line that shows the members of the range from `start` to `end`.
pub fn range_line(start: i32, end: i32) -> (line: String)
    ensures
        line@ == debug_of_integers(range_items(start as int, end as int)),
{
    let items = materialize(start, end);
    debug_integers(items.as_slice())
}

/// The names that the list exercise collects, in the order it adds them.
pub open spec fn names() -> Seq<Seq<char>> {
    seq!["String1"@, "String2"@, "String3"@]
}

/// The two lines of the list exercise: the names in the order they were
/// added, then the same list turned round in place.
pub fn names_lines() -> (lines: Vec<String>)
    ensures
        lines.deep_view() == seq![debug_of_texts(names()), debug_of_texts(names().reverse())],
{
    let mut listed: Vec<&str> = Vec::new();
    listed.push("String1");
    listed.push("String2");
    listed.push("String3");
    assert(listed.deep_view() =~= names());
    let mut lines: Vec<String> = Vec::new();
    lines.push(debug_texts(listed.as_slice()));
    listed.as_mut_slice().reverse();
    assert(listed.deep_view() =~= names().reverse());
    lines.push(debug_texts(listed.as_slice()));
    assert(lines.deep_view() =~= seq![
        debug_of_texts(names()),
        debug_of_texts(names().reverse()),
    ]);
    lines
}

} // verus!
