//! The text of a measured value: a decimal number with an optional sign,
//! fraction and exponent.
//!
//! ```text
//! Literal  ::= Sign? Number
//! Number   ::= ( Digit+ | Digit+ '.' Digit* | Digit* '.' Digit+ ) Exponent?
//! Exponent ::= ( 'e' | 'E' ) Sign? Digit+
//! Sign     ::= [+-]
//! Digit    ::= [0-9]
//! ```
//!
//! Every such text is read as a number by Rust's reading of floating-point
//! numbers. The words that it also reads, for infinity and for what is not a
//! number, are no measured values.
use vstd::prelude::*;

use crate::text::decimal::all_digits;
use crate::text::decimal::is_digit;
use crate::text::decimal::is_digit_char;

verus! {

/// Whether `c` is the lower-case letter `low` or its upper-case form.
pub open spec fn is_letter(c: char, low: char) -> bool {
    c == low || c as int + 32 == low as int
}

/// `s` without a leading sign.
pub open spec fn unsign(s: Seq<char>) -> Seq<char> {
    if s.len() > 0 && (s[0] == '+' || s[0] == '-') {
        s.drop_first()
    } else {
        s
    }
}

/// How many digits `s` begins with.
pub open spec fn digit_run(s: Seq<char>) -> nat
    decreases s.len(),
{
    if s.len() > 0 && is_digit(s[0]) {
        1 + digit_run(s.drop_first())
    } else {
        0
    }
}

/// An exponent: the letter e, an optional sign, then one digit or more.
pub open spec fn is_exponent(s: Seq<char>) -> bool {
    &&& s.len() > 0
    &&& is_letter(s[0], 'e')
    &&& unsign(s.drop_first()).len() > 0
    &&& all_digits(unsign(s.drop_first()))
}

/// `s` is empty or an exponent.
pub open spec fn is_exponent_or_empty(s: Seq<char>) -> bool {
    s.len() == 0 || is_exponent(s)
}

/// A number: digits with at most one point among them, at least one digit in
/// all, and an optional exponent behind.
pub open spec fn is_number(s: Seq<char>) -> bool {
    let whole = digit_run(s);
    let rest = s.skip(whole as int);
    if rest.len() > 0 && rest[0] == '.' {
        let fraction = digit_run(rest.drop_first());
        whole + fraction > 0 && is_exponent_or_empty(rest.skip(1 + fraction as int))
    } else {
        whole > 0 && is_exponent_or_empty(rest)
    }
}

/// The text of a measured value: a number, behind a sign or not.
pub open spec fn is_literal(s: Seq<char>) -> bool {
    is_number(unsign(s))
}

/// A measured value holds a digit: a word without one, such as the words for
/// infinity and for what is not a number, is no measured value.
pub proof fn lemma_literal_has_a_digit(s: Seq<char>)
    requires
        is_literal(s),
    ensures
        exists|i: int| 0 <= i < s.len() && is_digit(#[trigger] s[i]),
{
    let body = unsign(s);
    let shift: int = if body.len() == s.len() {
        0
    } else {
        1
    };
    assert(forall|i: int| 0 <= i < body.len() ==> body[i] == s[i + shift]);
    let whole = digit_run(body);
    if whole > 0 {
        assert(is_digit(body[0]));
        assert(is_digit(s[shift]));
    } else {
        let rest = body.skip(0);
        assert(rest == body);
        let tail = rest.drop_first();
        assert(digit_run(tail) > 0);
        assert(is_digit(tail[0]));
        assert(tail[0] == body[1]);
        assert(is_digit(s[1 + shift]));
    }
}

/// The length of the run of digits of `s` that begins at `from`.
fn count_digits(s: &Vec<char>, from: usize) -> (n: usize)
    requires
        from <= s.len(),
    ensures
        n == digit_run(s@.skip(from as int)),
        from + n <= s.len(),
{
    let mut i: usize = from;
    while i < s.len() && is_digit_char(s[i])
        invariant
            from <= i <= s.len(),
            digit_run(s@.skip(from as int)) == (i - from) + digit_run(s@.skip(i as int)),
        decreases s.len() - i,
    {
        assert(s@.skip(i as int)[0] == s@[i as int]);
        assert(s@.skip(i as int).drop_first() == s@.skip(i + 1));
        i += 1;
    }
    proof {
        if i < s.len() {
            assert(s@.skip(i as int)[0] == s@[i as int]);
        }
    }
    i - from
}

/// Whether the characters of `s` from `from` on are all digits.
fn only_digits(s: &Vec<char>, from: usize) -> (b: bool)
    requires
        from <= s.len(),
    ensures
        b == all_digits(s@.skip(from as int)),
{
    let mut i: usize = from;
    while i < s.len()
        invariant
            from <= i <= s.len(),
            forall|j: int| from <= j < i ==> is_digit(#[trigger] s@[j]),
        decreases s.len() - i,
    {
        if !is_digit_char(s[i]) {
            assert(s@.skip(from as int)[i - from] == s@[i as int]);
            return false;
        }
        i += 1;
    }
    assert forall|k: int| 0 <= k < s@.skip(from as int).len() implies is_digit(
        #[trigger] s@.skip(from as int)[k],
    ) by {
        assert(s@.skip(from as int)[k] == s@[from + k]);
    }
    true
}

/// Whether `c` is the lower-case letter `low` or its upper-case form.
fn is_letter_char(c: char, low: char) -> (b: bool)
    ensures
        b == is_letter(c, low),
{
    c == low || c as u32 + 32 == low as u32
}

/// Whether the characters of `s` from `from` on are nothing, or an exponent.
fn exponent_or_empty(s: &Vec<char>, from: usize) -> (b: bool)
    requires
        from <= s.len(),
    ensures
        b == is_exponent_or_empty(s@.skip(from as int)),
{
    if from == s.len() {
        return true;
    }
    let ghost tail = s@.skip(from as int);
    assert(tail[0] == s@[from as int]);
    if !is_letter_char(s[from], 'e') {
        return false;
    }
    assert(tail.drop_first() == s@.skip(from + 1));
    let mut at: usize = from + 1;
    if at < s.len() && (s[at] == '+' || s[at] == '-') {
        assert(s@.skip(from + 1)[0] == s@[at as int]);
        assert(s@.skip(from + 1).drop_first() == s@.skip(from + 2));
        at = at + 1;
    } else if at < s.len() {
        assert(s@.skip(from + 1)[0] == s@[at as int]);
    }
    assert(unsign(tail.drop_first()) == s@.skip(at as int));
    at < s.len() && only_digits(s, at)
}

/// Whether `s` is the text of a measured value.
pub fn is_literal_text(s: &Vec<char>) -> (b: bool)
    ensures
        b == is_literal(s@),
{
    let start: usize = if s.len() > 0 && (s[0] == '+' || s[0] == '-') { 1 } else { 0 };
    let ghost body = unsign(s@);
    assert(body == s@.skip(start as int));
    let whole = count_digits(s, start);
    let dot = start + whole;
    let ghost rest = body.skip(whole as int);
    assert(rest == s@.skip(dot as int));
    if dot < s.len() && s[dot] == '.' {
        assert(rest[0] == s@[dot as int]);
        assert(rest.drop_first() == s@.skip(dot + 1));
        let fraction = count_digits(s, dot + 1);
        assert(rest.skip(1 + fraction) == s@.skip(dot + 1 + fraction));
        whole + fraction > 0 && exponent_or_empty(s, dot + 1 + fraction)
    } else {
        proof {
            if dot < s.len() {
                assert(rest[0] == s@[dot as int]);
            }
        }
        whole > 0 && exponent_or_empty(s, dot)
    }
}

} // verus!
