//! Naming rules: the academic-year label, the index URL for a year, and the
//! filename prefix that selects one category's documents.

use vstd::prelude::*;

verus! {

use vstd::string::StringExecFns;
use crate::{FIRST_YEAR, END_YEAR, PREFIX_CUTOFF_YEAR};
use crate::strings::{chars_of, push_char};

/// Upper bound used to saturate the parsed value; any value this large is
/// out of the supported interval, so saturating keeps the range test exact.
pub const YEAR_VALUE_CAP: usize = 1000000;

/// Which of the two fixed naming-prefix schemes applies.
#[derive(Clone, Copy, Debug, PartialEq, Eq, Structural)]
pub enum YearGroup {
    Y1,
    Y2,
}

/// The prefix used for years strictly before the cutoff.
pub open spec fn spec_old_prefix(g: YearGroup) -> Seq<char> {
    match g {
        YearGroup::Y1 => "C1"@,
        YearGroup::Y2 => "C2"@,
    }
}

/// The prefix used for years at or after the cutoff.
pub open spec fn spec_new_prefix(g: YearGroup) -> Seq<char> {
    match g {
        YearGroup::Y1 => "COMP4"@,
        YearGroup::Y2 => "COMP5"@,
    }
}

/// The filename prefix selecting one category's documents for one year.
pub open spec fn spec_prefix_for(year: nat, g: YearGroup) -> Seq<char> {
    if year >= PREFIX_CUTOFF_YEAR {
        spec_new_prefix(g)
    } else {
        spec_old_prefix(g)
    }
}

/// Returns the filename prefix for `year` and `year_group`.
pub fn year_to_prefix(year: usize, year_group: YearGroup) -> (r: &'static str)
    ensures
        r@ == spec_prefix_for(year as nat, year_group),
{
    if year >= PREFIX_CUTOFF_YEAR {
        match year_group {
            YearGroup::Y1 => "COMP4",
            YearGroup::Y2 => "COMP5",
        }
    } else {
        match year_group {
            YearGroup::Y1 => "C1",
            YearGroup::Y2 => "C2",
        }
    }
}

/// The prefix is always one of two fixed values per category, and the switch
/// between them happens exactly at the cutoff year.
pub proof fn lemma_prefix_switches_at_cutoff(year: nat, g: YearGroup)
    ensures
        spec_prefix_for(year, g) == spec_old_prefix(g) || spec_prefix_for(year, g)
            == spec_new_prefix(g),
        spec_prefix_for(year, g) == spec_new_prefix(g) <==> year >= PREFIX_CUTOFF_YEAR,
        spec_old_prefix(g) != spec_new_prefix(g),
{
    reveal_strlit("C1");
    reveal_strlit("C2");
    reveal_strlit("COMP4");
    reveal_strlit("COMP5");
    assert(spec_old_prefix(g).len() == 2);
    assert(spec_new_prefix(g).len() == 5);
}

/// The character for one decimal digit.
pub open spec fn spec_digit_char(d: nat) -> char {
    if d == 0 {
        '0'
    } else if d == 1 {
        '1'
    } else if d == 2 {
        '2'
    } else if d == 3 {
        '3'
    } else if d == 4 {
        '4'
    } else if d == 5 {
        '5'
    } else if d == 6 {
        '6'
    } else if d == 7 {
        '7'
    } else if d == 8 {
        '8'
    } else {
        '9'
    }
}

/// A number below 100 written as exactly two digits, zero-padded.
pub open spec fn spec_two_digits(n: nat) -> Seq<char> {
    seq![spec_digit_char(n / 10), spec_digit_char(n % 10)]
}

/// The two-digit year that precedes `curr` within a century, wrapping to 99.
pub open spec fn spec_prev_year(curr: nat) -> nat {
    if curr == 0 {
        99
    } else {
        (curr - 1) as nat
    }
}

/// The academic-year label: "AA-BB" where BB is the year mod 100 and AA the
/// year before it, both zero-padded, AA wrapping to 99 when BB is 00.
pub open spec fn spec_year_label(year: nat) -> Seq<char> {
    spec_two_digits(spec_prev_year(year % 100)) + seq!['-'] + spec_two_digits(year % 100)
}

fn digit_char(d: usize) -> (c: char)
    requires
        d < 10,
    ensures
        c == spec_digit_char(d as nat),
{
    if d == 0 {
        '0'
    } else if d == 1 {
        '1'
    } else if d == 2 {
        '2'
    } else if d == 3 {
        '3'
    } else if d == 4 {
        '4'
    } else if d == 5 {
        '5'
    } else if d == 6 {
        '6'
    } else if d == 7 {
        '7'
    } else if d == 8 {
        '8'
    } else {
        '9'
    }
}

/// Returns the label under which `year`'s documents are filed.
pub fn year_to_string(year: usize) -> (r: String)
    ensures
        r@ == spec_year_label(year as nat),
        r@.len() == 5,
{
    let curr = year % 100;
    let prev = if curr == 0 {
        99
    } else {
        curr - 1
    };
    let mut r = String::new();
    push_char(&mut r, digit_char(prev / 10));
    push_char(&mut r, digit_char(prev % 10));
    push_char(&mut r, '-');
    push_char(&mut r, digit_char(curr / 10));
    push_char(&mut r, digit_char(curr % 10));
    assert(r@ =~= spec_year_label(year as nat));
    r
}

/// The label is always five characters: two digits, a dash, two digits, with
/// the trailing pair the year mod 100 and the leading pair its predecessor.
pub proof fn lemma_year_label_shape(year: nat)
    ensures
        spec_year_label(year).len() == 5,
        spec_year_label(year)[2] == '-',
        spec_year_label(year).subrange(0, 2) == spec_two_digits(spec_prev_year(year % 100)),
        spec_year_label(year).subrange(3, 5) == spec_two_digits(year % 100),
{
    assert(spec_year_label(year).subrange(0, 2) =~= spec_two_digits(spec_prev_year(year % 100)));
    assert(spec_year_label(year).subrange(3, 5) =~= spec_two_digits(year % 100));
}

/// The index page for one year's documents.
pub open spec fn spec_index_url(year: nat) -> Seq<char> {
    "https://exams.doc.ic.ac.uk/pastpapers/papers."@ + spec_year_label(year) + "/"@
}

/// Returns the URL of the index page listing `year`'s documents.
pub fn year_to_url(year: usize) -> (r: String)
    ensures
        r@ == spec_index_url(year as nat),
{
    let mut r: String = "https://exams.doc.ic.ac.uk/pastpapers/papers.".to_owned();
    let label = year_to_string(year);
    r.append(label.as_str());
    r.append("/");
    r
}

/// Why a starting-year argument was rejected.
#[derive(Clone, Copy, Debug, PartialEq, Eq, Structural)]
pub enum YearArgError {
    /// The argument is not a string of decimal digits.
    NotAYear,
    /// The argument is a number, but outside the supported interval.
    OutOfRange,
}

impl YearArgError {
    /// A human-readable description; the out-of-range one states the
    /// supported interval.
    pub fn message(&self) -> (r: String)
        ensures
            *self is NotAYear ==> r@ == "not a calendar year"@,
            *self is OutOfRange ==> r@ == "papers are only available for the years 2000 to 2021"@,
    {
        match self {
            YearArgError::NotAYear => "not a calendar year".to_owned(),
            YearArgError::OutOfRange => "papers are only available for the years 2000 to 2021".to_owned(),
        }
    }
}

/// True for a decimal digit.
pub open spec fn spec_is_digit(c: char) -> bool {
    48 <= c as u32 <= 57
}

/// The value of one decimal digit character.
pub open spec fn spec_digit_val(c: char) -> nat {
    (c as u32 - 48) as nat
}

/// A non-empty string of decimal digits.
pub open spec fn spec_is_digit_string(s: Seq<char>) -> bool {
    s.len() > 0 && forall|i: int| 0 <= i < s.len() ==> spec_is_digit(s[i])
}

/// The number a digit string denotes.
pub open spec fn spec_digits_value(s: Seq<char>) -> nat
    decreases s.len(),
{
    if s.len() == 0 {
        0
    } else {
        spec_digits_value(s.drop_last()) * 10 + spec_digit_val(s.last())
    }
}

/// True when `y` lies in the supported interval.
pub open spec fn spec_year_in_range(y: nat) -> bool {
    FIRST_YEAR <= y < END_YEAR
}

/// Parses a starting-year argument. Returns the year for any digit string
/// inside the supported interval, an out-of-range error for a digit string
/// outside it, and a parse error for anything that is not a digit string.
pub fn parse_year_opt(s: &str) -> (r: Result<usize, YearArgError>)
    ensures
        r is Ok <==> spec_is_digit_string(s@) && spec_year_in_range(spec_digits_value(s@)),
        r matches Ok(y) ==> y as nat == spec_digits_value(s@),
        r == Err::<usize, YearArgError>(YearArgError::NotAYear) <==> !spec_is_digit_string(s@),
        r == Err::<usize, YearArgError>(YearArgError::OutOfRange) <==> spec_is_digit_string(s@)
            && !spec_year_in_range(spec_digits_value(s@)),
{
    let cs = chars_of(s);
    if cs.len() == 0 {
        return Err(YearArgError::NotAYear);
    }
    let mut val: usize = 0;
    let mut i: usize = 0;
    while i < cs.len()
        invariant
            cs@ == s@,
            0 < cs.len(),
            i <= cs.len(),
            forall|j: int| 0 <= j < i ==> spec_is_digit(s@[j]),
            val as nat == (if spec_digits_value(s@.take(i as int)) <= YEAR_VALUE_CAP {
                spec_digits_value(s@.take(i as int))
            } else {
                YEAR_VALUE_CAP as nat
            }),
        decreases cs.len() - i,
    {
        let c = cs[i];
        let cv = c as u32;
        if cv < 48 || cv > 57 {
            assert(!spec_is_digit(s@[i as int]));
            return Err(YearArgError::NotAYear);
        }
        let d = (cv - 48) as usize;
        proof {
            assert(s@.take(i + 1 as int).drop_last() =~= s@.take(i as int));
            assert(s@.take(i + 1 as int).last() == s@[i as int]);
        }
        let next = val * 10 + d;
        val = if next > YEAR_VALUE_CAP {
            YEAR_VALUE_CAP
        } else {
            next
        };
        i = i + 1;
    }
    proof {
        assert(s@.take(cs.len() as int) =~= s@);
    }
    if FIRST_YEAR <= val && val < END_YEAR {
        Ok(val)
    } else {
        Err(YearArgError::OutOfRange)
    }
}

} // verus!
