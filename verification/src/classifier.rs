//! Classification of an integer into one of four disjoint bands.

use vstd::prelude::*;

verus! {

/// The four bands an integer can fall into.
#[derive(Clone, Copy, Debug, PartialEq, Eq, Structural)]
pub enum Band {
    /// Exactly one.
    One,
    /// Below twenty-five, and not one.
    BelowTwentyFive,
    /// Above fifty.
    AboveFifty,
    /// From twenty-five to fifty, both ends included.
    Between,
}

/// The band of `x`. Equality with one is tested before any range, so one is
/// never reported as merely "less than 25".
pub open spec fn band_of(x: int) -> Band {
    if x == 1 {
        Band::One
    } else if x < 25 {
        Band::BelowTwentyFive
    } else if x > 50 {
        Band::AboveFifty
    } else {
        Band::Between
    }
}

/// The line of text that reports a band.
pub open spec fn message_of(band: Band) -> Seq<char> {
    match band {
        Band::One => "The value is one"@,
        Band::BelowTwentyFive => "The value is less than 25"@,
        Band::AboveFifty => "The value is greater than 50"@,
        Band::Between => "The value is greater than 25 but less than 50"@,
    }
}

impl Band {
    /// Classifies `x`.
    pub fn of(x: i32) -> (band: Band)
        ensures
            band == band_of(x as int),
    {
        if x == 1 {
            Band::One
        } else if x < 25 {
            Band::BelowTwentyFive
        } else if x > 50 {
            Band::AboveFifty
        } else {
            Band::Between
        }
    }

    /// The line of text that reports this band.
    pub fn message(self) -> (text: &'static str)
        ensures
            text@ == message_of(self),
    {
        match self {
            Band::One => "The value is one",
            Band::BelowTwentyFive => "The value is less than 25",
            Band::AboveFifty => "The value is greater than 50",
            Band::Between => "The value is greater than 25 but less than 50",
        }
    }
}

/// The line that reports where `x` lies: exactly one of the four messages,
/// for every integer.
pub fn control_flow(x: i32) -> (text: &'static str)
    ensures
        text@ == message_of(band_of(x as int)),
{
    Band::of(x).message()
}

/// The lines that report each of `inputs`, in the order given.
pub open spec fn reports_of(inputs: Seq<i32>) -> Seq<Seq<char>> {
    Seq::new(inputs.len(), |i: int| message_of(band_of(inputs[i] as int)))
}

/// Reports every one of `inputs`: one line for each, in the order given.
pub fn control_flow_lines(inputs: &[i32]) -> (lines: Vec<&'static str>)
    ensures
        lines.deep_view() == reports_of(inputs@),
{
    let mut lines: Vec<&'static str> = Vec::new();
    let mut done: usize = 0;
    while done < inputs.len()
        invariant
            done <= inputs@.len(),
            lines@.len() == done,
            forall|i: int|
                0 <= i < done ==> (#[trigger] lines@[i])@ == message_of(band_of(inputs@[i] as int)),
        decreases inputs@.len() - done,
    {
        lines.push(control_flow(inputs[done]));
        done = done + 1;
    }
    assert(lines.deep_view() =~= reports_of(inputs@));
    lines
}

/// The bands are disjoint ranges that cover every integer: one alone; what
/// lies below twenty-five except one; what lies above fifty; and the closed
/// range from twenty-five to fifty.
pub proof fn lemma_bands_partition(x: int)
    ensures
        band_of(x) == Band::One <==> x == 1,
        band_of(x) == Band::BelowTwentyFive <==> x < 25 && x != 1,
        band_of(x) == Band::AboveFifty <==> x > 50,
        band_of(x) == Band::Between <==> 25 <= x <= 50,
{
}

/// Two integers are reported by the same line exactly when they lie in the
/// same band: the four messages differ from one another.
pub proof fn lemma_messages_distinct(a: Band, b: Band)
    ensures
        message_of(a) == message_of(b) <==> a == b,
{
    reveal_strlit("The value is one");
    reveal_strlit("The value is less than 25");
    reveal_strlit("The value is greater than 50");
    reveal_strlit("The value is greater than 25 but less than 50");
    if a != b {
        assert(message_of(a).len() != message_of(b).len());
    }
}

} // verus!
