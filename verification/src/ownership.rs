//! A borrowed view of text against an owned buffer derived from it.

use vstd::prelude::*;
use vstd::string::StringExecFns;

verus! {

/// The text that the exercise starts from.
pub open spec fn greeting() -> Seq<char> {
    "Jai Shree Ram!"@
}

/// The text that the exercise appends to its owned buffer.
pub open spec fn addition() -> Seq<char> {
    "Jai Bajrang bali"@
}

/// The line that shows a borrowed view.
pub open spec fn borrowed_report(view: Seq<char>) -> Seq<char> {
    "Borrowed string: "@ + view
}

/// The line that shows an owned buffer.
pub open spec fn owned_report(owned: Seq<char>) -> Seq<char> {
    "Owned string: "@ + owned
}

/// What a view and the buffer derived from it hold once the buffer has grown.
pub struct Derived<'a> {
    /// The view the buffer was derived from, as it was handed in.
    pub view: &'a str,
    /// The buffer: the view's content followed by what was appended.
    pub owned: String,
}

/// Duplicates `view` into a buffer of its own and appends `suffix` to the
/// buffer only.
pub fn derive_owned<'a>(view: &'a str, suffix: &str) -> (derived: Derived<'a>)
    ensures
        derived.view@ == view@,
        derived.owned@ == view@ + suffix@,
{
    let mut owned: String = view.to_owned();
    owned.append(suffix);
    Derived { view, owned }
}

/// The line that shows a borrowed view.
pub fn borrowed_line(view: &str) -> (line: String)
    ensures
        line@ == borrowed_report(view@),
{
    String::from_str("Borrowed string: ").concat(view)
}

/// The line that shows an owned buffer.
pub fn owned_line(owned: &str) -> (line: String)
    ensures
        line@ == owned_report(owned@),
{
    String::from_str("Owned string: ").concat(owned)
}

/// The two lines of the exercise: the view, then the buffer derived from it
/// after the append.
pub fn ownership_lines() -> (lines: Vec<String>)
    ensures
        lines.deep_view() == seq![
            borrowed_report(greeting()),
            owned_report(greeting() + addition()),
        ],
{
    let derived = derive_owned("Jai Shree Ram!", "Jai Bajrang bali");
    let mut lines: Vec<String> = Vec::new();
    lines.push(borrowed_line(derived.view));
    lines.push(owned_line(derived.owned.as_str()));
    assert(lines.deep_view() =~= seq![
        borrowed_report(greeting()),
        owned_report(greeting() + addition()),
    ]);
    lines
}

} // verus!
