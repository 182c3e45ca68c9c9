//! Text helpers: case folding, substring search and decimal numerals.

use vstd::prelude::*;
use vstd::string::*;

verus! {

/// The lowercase form of a text, as `str::to_lowercase` produces it.
pub uninterp spec fn lowercase_of(text: Seq<char>) -> Seq<char>;

/// `needle` stands in `hay` as a run of consecutive characters that begins
/// at `start`.
pub open spec fn occurs_at(hay: Seq<char>, needle: Seq<char>, start: int) -> bool {
    &&& 0 <= start
    &&& start + needle.len() <= hay.len()
    &&& hay.subrange(start, start + needle.len()) == needle
}

/// `needle` occurs somewhere in `hay`. The empty text occurs in every text.
pub open spec fn is_substring(hay: Seq<char>, needle: Seq<char>) -> bool {
    exists|start: int| occurs_at(hay, needle, start)
}

/// Calls `str::to_lowercase`. Trusted: the result is the lowercase form of
/// the argument, which depends on the characters of the argument alone.
#[verifier::external_body]
pub(crate) fn to_lowercase(text: &str) -> (lower: String)
    ensures
        lower@ == lowercase_of(text@),
{
    text.to_lowercase()
}

/// Calls `str::contains` with a string pattern. Trusted: the result tells
/// whether the pattern matches a sub-slice of the text.
#[verifier::external_body]
pub(crate) fn contains(hay: &str, needle: &str) -> (found: bool)
    ensures
        found == is_substring(hay@, needle@),
{
    hay.contains(needle)
}

/// The character that writes the digit `d`.
pub open spec fn digit_char(d: nat) -> char {
    if d == 0 {
        '0'
    } else if d == 1 {
        '1'
    } else if d == 2 {
        '2'
    } else if d == 3 {
        '3'
    } else if d == 4 {
        '4'
    } else if d == 5 {
        '5'
    } else if d == 6 {
        '6'
    } else if d == 7 {
        '7'
    } else if d == 8 {
        '8'
    } else {
        '9'
    }
}

/// The decimal numeral of `n`, most significant digit first, without
/// leading zeros.
pub open spec fn decimal(n: nat) -> Seq<char>
    decreases n,
{
    if n < 10 {
        seq![digit_char(n)]
    } else {
        decimal(n / 10).push(digit_char(n % 10))
    }
}

fn digit_str(d: u128) -> (s: &'static str)
    requires
        d < 10,
    ensures
        s@ == seq![digit_char(d as nat)],
{
    proof {
        reveal_strlit("0");
        reveal_strlit("1");
        reveal_strlit("2");
        reveal_strlit("3");
        reveal_strlit("4");
        reveal_strlit("5");
        reveal_strlit("6");
        reveal_strlit("7");
        reveal_strlit("8");
        reveal_strlit("9");
    }
    let s = if d == 0 {
        "0"
    } else if d == 1 {
        "1"
    } else if d == 2 {
        "2"
    } else if d == 3 {
        "3"
    } else if d == 4 {
        "4"
    } else if d == 5 {
        "5"
    } else if d == 6 {
        "6"
    } else if d == 7 {
        "7"
    } else if d == 8 {
        "8"
    } else {
        "9"
    };
    assert(s@ =~= seq![digit_char(d as nat)]);
    s
}

/// Writes `n` as a decimal numeral.
pub fn decimal_string(n: u128) -> (s: String)
    ensures
        s@ == decimal(n as nat),
    decreases n,
{
    if n < 10 {
        String::from_str(digit_str(n))
    } else {
        let mut s = decimal_string(n / 10);
        s.append(digit_str(n % 10));
        assert(s@ =~= decimal((n / 10) as nat).push(digit_char((n % 10) as nat)));
        s
    }
}

/// The positions `0, 1, .., n - 1`.
pub open spec fn positions(n: nat) -> Seq<int> {
    Seq::new(n, |i: int| i)
}

/// Whether `char::is_whitespace` counts the character as white space.
pub uninterp spec fn is_space(c: char) -> bool;

/// Calls `char::is_whitespace`. Trusted: the result depends on the
/// character alone.
#[verifier::external_body]
fn is_whitespace(c: char) -> (space: bool)
    ensures
        space == is_space(c),
{
    c.is_whitespace()
}

/// For each character of a text, whether it is white space.
pub open spec fn space_flags(text: Seq<char>) -> Seq<bool> {
    Seq::new(text.len(), |at: int| is_space(text[at]))
}

/// A run begins at `at`: the flag there is unset, and it is the first or
/// follows a flag that is set.
pub open spec fn run_starts_at(flags: Seq<bool>, at: int) -> bool {
    &&& 0 <= at < flags.len()
    &&& !flags[at]
    &&& at == 0 || flags[at - 1]
}

/// The test that picks the positions at which a run begins.
pub open spec fn run_starts(flags: Seq<bool>) -> spec_fn(int) -> bool {
    |at: int| run_starts_at(flags, at)
}

/// The number of runs of unset flags that cannot be made longer.
pub open spec fn runs(flags: Seq<bool>) -> nat {
    positions(flags.len()).filter(run_starts(flags)).len()
}

/// The number of words in a text: of the runs of characters that are no
/// white space and cannot be made longer.
pub open spec fn words(text: Seq<char>) -> nat {
    runs(space_flags(text))
}

/// Tells of each character of a text whether it is white space.
pub fn white_space_flags(text: &str) -> (flags: Vec<bool>)
    ensures
        flags@ == space_flags(text@),
{
    broadcast use vstd::string::group_string_axioms;

    let mut flags: Vec<bool> = Vec::new();
    for c in it: text.chars()
        invariant
            it.seq() == text@,
            flags@ == space_flags(text@.take(it.index())),
    {
        let ghost at = it.index();
        let space = is_whitespace(c);
        flags.push(space);
        assert(flags@ =~= space_flags(text@.take(at + 1)));
    }
    assert(text@.take(text@.len() as int) =~= text@);
    flags
}

/// Counts the runs of unset flags.
pub fn count_runs(flags: &Vec<bool>) -> (count: usize)
    ensures
        count == runs(flags@),
{
    let mut count: usize = 0;
    let mut after_set = true;
    let mut at: usize = 0;
    proof {
        assert(positions(0) =~= Seq::<int>::empty());
        reveal(Seq::filter);
    }
    while at < flags.len()
        invariant
            at <= flags.len(),
            count <= at,
            count == positions(at as nat).filter(run_starts(flags@)).len(),
            after_set == (at == 0 || flags[at - 1]),
        decreases flags.len() - at,
    {
        proof {
            assert(positions((at + 1) as nat) =~= positions(at as nat).push(at as int));
            positions(at as nat).lemma_filter_push(at as int, run_starts(flags@));
        }
        if !flags[at] && after_set {
            count += 1;
        }
        after_set = flags[at];
        at += 1;
    }
    count
}

/// Counts the words of a text.
pub fn word_count(text: &str) -> (count: usize)
    ensures
        count == words(text@),
{
    let flags = white_space_flags(text);
    count_runs(&flags)
}

} // verus!
