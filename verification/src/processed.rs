//! Upper-casing text that is either borrowed or owned.

use std::borrow::Cow;
use vstd::prelude::*;
use vstd::string::StringExecFns;

verus! {

/// The upper-case equivalent of a text, as the standard library computes it
/// from the Unicode case mappings.
pub uninterp spec fn uppercase_of(text: Seq<char>) -> Seq<char>;

/// The line that shows a processed text.
pub open spec fn processed_report(upper: Seq<char>) -> Seq<char> {
    "Processed data: "@ + upper
}

/// Calls `str::to_uppercase`. Nothing is proved of the call: the contract only
/// gives its result a name, as a function of the characters handed in.
#[verifier::external_body]
fn to_uppercase(text: &str) -> (upper: String)
    ensures
        upper@ == uppercase_of(text@),
{
    text.to_uppercase()
}

/// The content of a conditionally-owned text, whichever variant holds it.
pub fn content<'a>(data: &'a Cow<'_, str>) -> (text: &'a str)
    ensures
        text@ == data@,
{
    match data {
        Cow::Borrowed(view) => view,
        Cow::Owned(owned) => owned.as_str(),
    }
}

/// The upper-cased copy of `data`. The input is left untouched, so a borrowed
/// and an owned input with the same content give the same result.
pub fn uppercased(data: &Cow<'_, str>) -> (upper: String)
    ensures
        upper@ == uppercase_of(data@),
{
    to_uppercase(content(data))
}

/// The line that shows an upper-cased text.
pub fn processed_line(upper: &str) -> (line: String)
    ensures
        line@ == processed_report(upper@),
{
    String::from_str("Processed data: ").concat(upper)
}

/// The line that reports `data` in upper case.
pub fn process_data(data: Cow<'_, str>) -> (line: String)
    ensures
        line@ == processed_report(uppercase_of(data@)),
{
    let upper = uppercased(&data);
    processed_line(upper.as_str())
}

/// The two lines of the exercise: one text handed in borrowed, another handed
/// in owned, each reported in upper case.
pub fn processed_lines() -> (lines: Vec<String>)
    ensures
        lines.deep_view() == seq![
            processed_report(uppercase_of("Jai Shree Ram!"@)),
            processed_report(uppercase_of("Jai Bajarang Bali!"@)),
        ],
{
    let borrowed_data: Cow<'_, str> = Cow::Borrowed("Jai Shree Ram!");
    let owned_data: Cow<'_, str> = Cow::Owned(String::from_str("Jai Bajarang Bali!"));
    let mut lines: Vec<String> = Vec::new();
    lines.push(process_data(borrowed_data));
    lines.push(process_data(owned_data));
    assert(lines.deep_view() =~= seq![
        processed_report(uppercase_of("Jai Shree Ram!"@)),
        processed_report(uppercase_of("Jai Bajarang Bali!"@)),
    ]);
    lines
}

/// A borrowed and an owned text with the same content are one value to every
/// consumer: they have the same view, and so the same upper-cased report.
pub proof fn lemma_variants_agree(view: &str, owned: String)
    requires
        view@ == owned@,
    ensures
        Cow::<str>::Borrowed(view)@ == view@,
        Cow::<str>::Owned(owned)@ == owned@,
        processed_report(uppercase_of(Cow::<str>::Borrowed(view)@)) == processed_report(
            uppercase_of(Cow::<str>::Owned(owned)@),
        ),
{
}

} // verus!
