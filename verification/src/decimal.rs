//! Decimal numbers as the feed writes them: text in the syntax of a
//! floating-point literal.
//!
//! The feed sends prices, quantities and rates as JSON strings. This crate
//! keeps the text and checks its syntax; turning it into a binary number is
//! left to the caller, who can no longer fail at it.

use vstd::prelude::*;

verus! {

/// `0` to `9`.
pub open spec fn is_digit(c: char) -> bool {
    '0' <= c && c <= '9'
}

/// `+` or `-`.
pub open spec fn is_sign(c: char) -> bool {
    c == '+' || c == '-'
}

/// The position at which the run of digits that starts at `from` ends.
pub open spec fn digits_end(text: Seq<char>, from: int) -> int
    decreases text.len() - from,
{
    if 0 <= from < text.len() && is_digit(text[from]) {
        digits_end(text, from + 1)
    } else {
        from
    }
}

/// Whether `text` from `from` to its end is an exponent: `e` or `E`, an
/// optional sign, and at least one digit.
pub open spec fn is_exponent(text: Seq<char>, from: int) -> bool {
    &&& 0 <= from < text.len()
    &&& (text[from] == 'e' || text[from] == 'E')
    &&& {
        let digits = if from + 1 < text.len() && is_sign(text[from + 1]) {
            from + 2
        } else {
            from + 1
        };
        digits < digits_end(text, digits) && digits_end(text, digits) == text.len()
    }
}

/// Whether `text` from `from` to its end is a number: digits with at most one
/// point among them, at least one digit before or after the point, and an
/// optional exponent.
pub open spec fn is_number(text: Seq<char>, from: int) -> bool {
    let whole_end = digits_end(text, from);
    let fraction = if whole_end < text.len() && text[whole_end] == '.' {
        whole_end + 1
    } else {
        whole_end
    };
    let fraction_end = digits_end(text, fraction);
    &&& 0 <= from
    &&& (whole_end - from) + (fraction_end - fraction) >= 1
    &&& (fraction_end == text.len() || is_exponent(text, fraction_end))
}

/// Whether `text` from `from` to its end spells `word`, in either case of
/// each letter. `word` is written in lower case.
pub open spec fn spells(text: Seq<char>, from: int, word: Seq<char>) -> bool {
    &&& 0 <= from
    &&& text.len() - from == word.len()
    &&& forall|i: int|
        0 <= i < word.len() ==> #[trigger] text[from + i] == word[i] || text[from + i] as int
            + 32 == word[i] as int
}

/// Whether `text` is a floating-point literal: an optional sign, then a
/// number, `inf`, `infinity` or `nan`.
pub open spec fn is_float_text(text: Seq<char>) -> bool {
    let from: int = if text.len() > 0 && is_sign(text[0]) {
        1
    } else {
        0
    };
    ||| is_number(text, from)
    ||| spells(text, from, seq!['i', 'n', 'f'])
    ||| spells(text, from, seq!['n', 'a', 'n'])
    ||| spells(text, from, seq!['i', 'n', 'f', 'i', 'n', 'i', 't', 'y'])
}

/// Skips the run of digits that starts at `from`.
fn skip_digits(text: &str, length: usize, from: usize) -> (end: usize)
    requires
        length == text@.len(),
        from <= length,
    ensures
        end == digits_end(text@, from as int),
        from <= end <= length,
{
    let mut i: usize = from;
    while i < length && is_digit_char(text.get_char(i))
        invariant
            length == text@.len(),
            from <= i <= length,
            digits_end(text@, from as int) == digits_end(text@, i as int),
        decreases length - i,
    {
        i += 1;
    }
    i
}

fn is_digit_char(c: char) -> (digit: bool)
    ensures
        digit == is_digit(c),
{
    '0' <= c && c <= '9'
}

fn is_sign_char(c: char) -> (sign: bool)
    ensures
        sign == is_sign(c),
{
    c == '+' || c == '-'
}

fn check_exponent(text: &str, length: usize, from: usize) -> (ok: bool)
    requires
        length == text@.len(),
        from < length,
    ensures
        ok == is_exponent(text@, from as int),
{
    let marker = text.get_char(from);
    if !(marker == 'e' || marker == 'E') {
        return false;
    }
    let digits: usize = if from + 1 < length && is_sign_char(text.get_char(from + 1)) {
        from + 2
    } else {
        from + 1
    };
    let end = skip_digits(text, length, digits);
    digits < end && end == length
}

fn check_number(text: &str, length: usize, from: usize) -> (ok: bool)
    requires
        length == text@.len(),
        from <= length,
    ensures
        ok == is_number(text@, from as int),
{
    let whole_end = skip_digits(text, length, from);
    let fraction: usize = if whole_end < length && text.get_char(whole_end) == '.' {
        whole_end + 1
    } else {
        whole_end
    };
    let fraction_end = skip_digits(text, length, fraction);
    if (whole_end - from) + (fraction_end - fraction) < 1 {
        return false;
    }
    fraction_end == length || check_exponent(text, length, fraction_end)
}

fn check_spells(text: &str, length: usize, from: usize, word: &str) -> (ok: bool)
    requires
        length == text@.len(),
        from <= length,
        word@.len() <= 8,
    ensures
        ok == spells(text@, from as int, word@),
{
    let word_length = word.unicode_len();
    if length - from != word_length {
        return false;
    }
    let mut i: usize = 0;
    while i < word_length
        invariant
            length == text@.len(),
            word_length == word@.len(),
            from <= length,
            length - from == word_length,
            i <= word_length,
            forall|j: int|
                0 <= j < i ==> #[trigger] text@[from + j] == word@[j] || text@[from + j] as int
                    + 32 == word@[j] as int,
        decreases word_length - i,
    {
        let have = text.get_char(from + i);
        let want = word.get_char(i);
        if !(have == want || have as u32 + 32 == want as u32) {
            return false;
        }
        i += 1;
    }
    true
}

/// Whether `text` is a floating-point literal.
pub fn is_float_literal(text: &str) -> (ok: bool)
    ensures
        ok == is_float_text(text@),
{
    let length = text.unicode_len();
    let from: usize = if length > 0 && is_sign_char(text.get_char(0)) {
        1
    } else {
        0
    };
    proof {
        reveal_strlit("inf");
        reveal_strlit("nan");
        reveal_strlit("infinity");
        assert("inf"@ =~= seq!['i', 'n', 'f']);
        assert("nan"@ =~= seq!['n', 'a', 'n']);
        assert("infinity"@ =~= seq!['i', 'n', 'f', 'i', 'n', 'i', 't', 'y']);
    }
    check_number(text, length, from) || check_spells(text, length, from, "inf") || check_spells(
        text,
        length,
        from,
        "nan",
    ) || check_spells(text, length, from, "infinity")
}

/// A decimal number, held as the text of a floating-point literal.
#[derive(Debug, PartialEq, Eq)]
pub struct Decimal {
    text: String,
}

impl Clone for Decimal {
    fn clone(&self) -> (copy: Self)
        ensures
            copy@ == self@,
    {
        proof {
            use_type_invariant(self);
        }
        Decimal { text: self.text.clone() }
    }
}

impl View for Decimal {
    type V = Seq<char>;

    closed spec fn view(&self) -> Seq<char> {
        self.text@
    }
}

impl Decimal {
    /// Every `Decimal` that this crate hands out is a floating-point literal.
    #[verifier::type_invariant]
    closed spec fn well_formed(self) -> bool {
        is_float_text(self.text@)
    }

    /// Reads a decimal from its text.
    pub fn parse(text: &str) -> (decimal: Option<Decimal>)
        ensures
            decimal is Some <==> is_float_text(text@),
            decimal is Some ==> decimal->0@ == text@,
    {
        if is_float_literal(text) {
            Some(Decimal { text: String::from_str(text) })
        } else {
            None
        }
    }

    /// The decimal `0`.
    pub fn zero() -> (decimal: Decimal)
        ensures
            decimal@ == seq!['0'],
    {
        proof {
            reveal_strlit("0");
            assert("0"@ =~= seq!['0']);
            assert(digits_end("0"@, 1) == 1);
        }
        Decimal { text: String::from_str("0") }
    }

    /// The text of the decimal.
    pub fn as_str(&self) -> (text: &str)
        ensures
            text@ == self@,
            is_float_text(text@),
    {
        proof {
            use_type_invariant(self);
        }
        self.text.as_str()
    }
}

} // verus!
