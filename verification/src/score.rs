//! Community ratings, held as the texts that write them.

use crate::text::chars_of;
use vstd::prelude::*;

verus! {

/// Whether a character is a decimal digit.
pub open spec fn is_digit(c: char) -> bool {
    '0' as u32 <= c as u32 <= '9' as u32
}

/// Whether a character is a plus or minus sign.
pub open spec fn is_sign(c: char) -> bool {
    c == '+' || c == '-'
}

/// The number of decimal digits that stand in `s` from position `at` on,
/// up to the first character that is none.
pub open spec fn digit_run(s: Seq<char>, at: int) -> int
    decreases s.len() - at,
{
    if 0 <= at < s.len() && is_digit(s[at]) {
        1 + digit_run(s, at + 1)
    } else {
        0
    }
}

/// Whether `s` from `at` to its end is an exponent: `e` or `E`, an optional
/// sign, and at least one digit.
pub open spec fn is_exponent_at(s: Seq<char>, at: int) -> bool {
    let digits = if at + 1 < s.len() && is_sign(s[at + 1]) {
        at + 2
    } else {
        at + 1
    };
    &&& 0 <= at < s.len()
    &&& (s[at] == 'e' || s[at] == 'E')
    &&& digits < s.len()
    &&& digits + digit_run(s, digits) == s.len()
}

/// Whether `s` from `at` to its end is an unsigned number: digits with at
/// most one decimal point among them, at least one digit in all, and an
/// optional exponent.
pub open spec fn is_number_at(s: Seq<char>, at: int) -> bool {
    let whole = digit_run(s, at);
    let point = at + whole;
    let has_point = point < s.len() && s[point] == '.';
    let fraction = if has_point {
        digit_run(s, point + 1)
    } else {
        0
    };
    let end = if has_point {
        point + 1 + fraction
    } else {
        point
    };
    &&& 0 <= at
    &&& whole + fraction > 0
    &&& (end == s.len() || is_exponent_at(s, end))
}

/// Whether a text writes a score: an optional sign, then a decimal number
/// as `is_number_at` reads it.
///
/// A text without a digit writes no score, whatever it spells: the words
/// for infinity and for what is no number are no scores.
pub open spec fn is_score_text(s: Seq<char>) -> bool {
    let at: int = if s.len() > 0 && is_sign(s[0]) {
        1
    } else {
        0
    };
    is_number_at(s, at)
}

/// Every score is numeric: its text holds at least one decimal digit.
pub proof fn lemma_score_holds_a_digit(s: Seq<char>)
    requires
        is_score_text(s),
    ensures
        exists|i: int| 0 <= i < s.len() && is_digit(#[trigger] s[i]),
{
    let at: int = if s.len() > 0 && is_sign(s[0]) {
        1
    } else {
        0
    };
    let whole = digit_run(s, at);
    if whole > 0 {
        assert(is_digit(s[at]));
    } else {
        assert(is_digit(s[at + 1]));
    }
}

fn digit(c: char) -> (yes: bool)
    ensures
        yes == is_digit(c),
{
    '0' as u32 <= c as u32 && c as u32 <= '9' as u32
}

fn sign(c: char) -> (yes: bool)
    ensures
        yes == is_sign(c),
{
    c == '+' || c == '-'
}

/// Counts the digits that stand in `s` from `at` on.
fn count_digits(s: &Vec<char>, at: usize) -> (run: usize)
    requires
        at <= s.len(),
    ensures
        run == digit_run(s@, at as int),
        at + run <= s.len(),
{
    let mut end = at;
    while end < s.len() && digit(s[end])
        invariant
            at <= end <= s.len(),
            digit_run(s@, at as int) == (end - at) + digit_run(s@, end as int),
        decreases s.len() - end,
    {
        end += 1;
    }
    end - at
}

fn exponent_at(s: &Vec<char>, at: usize) -> (yes: bool)
    requires
        at < s.len(),
    ensures
        yes == is_exponent_at(s@, at as int),
{
    if s[at] != 'e' && s[at] != 'E' {
        return false;
    }
    let digits = if at + 1 < s.len() && sign(s[at + 1]) {
        at + 2
    } else {
        at + 1
    };
    if digits >= s.len() {
        return false;
    }
    let run = count_digits(s, digits);
    digits + run == s.len()
}

fn number_at(s: &Vec<char>, at: usize) -> (yes: bool)
    requires
        at <= s.len(),
    ensures
        yes == is_number_at(s@, at as int),
{
    let whole = count_digits(s, at);
    let point = at + whole;
    let has_point = point < s.len() && s[point] == '.';
    let fraction = if has_point {
        count_digits(s, point + 1)
    } else {
        0
    };
    let end = if has_point {
        point + 1 + fraction
    } else {
        point
    };
    if whole + fraction == 0 {
        return false;
    }
    end == s.len() || exponent_at(s, end)
}

/// Decides whether a text writes a score.
pub fn is_score(text: &str) -> (yes: bool)
    ensures
        yes == is_score_text(text@),
{
    let s = chars_of(text);
    let at: usize = if s.len() > 0 && sign(s[0]) {
        1
    } else {
        0
    };
    number_at(&s, at)
}

/// A community rating as the catalog writes it: a text that is known to
/// write a number.
#[derive(Debug, PartialEq, Eq)]
pub struct Score {
    text: String,
}

impl Clone for Score {
    fn clone(&self) -> (copy: Score)
        ensures
            copy@ == self@,
    {
        proof {
            use_type_invariant(self);
        }
        Score { text: self.text.clone() }
    }
}

impl View for Score {
    type V = Seq<char>;

    closed spec fn view(&self) -> Seq<char> {
        self.text@
    }
}

impl Score {
    #[verifier::type_invariant]
    spec fn numeric(&self) -> bool {
        is_score_text(self.text@)
    }

    /// Reads a score from a text: `Some` exactly where the text writes one.
    pub fn parse(text: &str) -> (score: Option<Score>)
        ensures
            score is Some <==> is_score_text(text@),
            score matches Some(s) ==> s@ == text@,
    {
        if is_score(text) {
            Some(Score { text: text.to_owned() })
        } else {
            None
        }
    }

    /// The text of the score, which always writes a number.
    pub fn as_str(&self) -> (text: &str)
        ensures
            text@ == self@,
            is_score_text(text@),
    {
        proof {
            use_type_invariant(self);
        }
        self.text.as_str()
    }
}

} // verus!
