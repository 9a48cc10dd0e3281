//! Reading unsigned decimal numbers and trimming whitespace, as the standard
//! library does it.

use vstd::prelude::*;

verus! {

/// The characters of an optional string.
pub open spec fn string_chars(s: Option<String>) -> Option<Seq<char>> {
    match s {
        Some(t) => Some(t@),
        None => None,
    }
}

/// An ASCII decimal digit.
pub open spec fn is_decimal_digit(c: char) -> bool {
    '0' <= c && c <= '9'
}

/// The value of a sequence of decimal digits, most significant first.
pub open spec fn digits_value(s: Seq<char>) -> nat
    decreases s.len(),
{
    if s.len() == 0 {
        0
    } else {
        digits_value(s.drop_last()) * 10 + ((s.last() as nat) - ('0' as nat)) as nat
    }
}

/// The digits of an unsigned number: the text without one leading `+`.
pub open spec fn unsigned_digits(s: Seq<char>) -> Seq<char> {
    if s.len() > 0 && s[0] == '+' {
        s.drop_first()
    } else {
        s
    }
}

/// The value of an unsigned decimal number written as an optional `+`
/// followed by one or more digits, with nothing else; `None` for any other text.
pub open spec fn unsigned_decimal(s: Seq<char>) -> Option<nat> {
    let d = unsigned_digits(s);
    if d.len() > 0 && forall|i: int| 0 <= i < d.len() ==> is_decimal_digit(#[trigger] d[i]) {
        Some(digits_value(d))
    } else {
        None
    }
}

/// The text that `usize::from_str` reports as its error for `s`.
pub uninterp spec fn usize_parse_error_text(s: Seq<char>) -> Seq<char>;

/// The text that `u32::from_str` reports as its error for `s`.
pub uninterp spec fn u32_parse_error_text(s: Seq<char>) -> Seq<char>;

/// `str::parse::<usize>`, with the error rendered as text. Claimed, as the
/// standard library documents it: the text must be an optional `+` followed by
/// decimal digits only, whose value fits in a `usize`; the value is returned,
/// and otherwise the error's text.
#[verifier::external_body]
pub(crate) fn parse_usize(s: &str) -> (r: Result<usize, String>)
    ensures
        r is Ok <==> (unsigned_decimal(s@) is Some && unsigned_decimal(s@)->0 <= usize::MAX),
        r matches Ok(v) ==> unsigned_decimal(s@) == Some(v as nat),
        r matches Err(e) ==> e@ == usize_parse_error_text(s@),
{
    s.parse::<usize>().map_err(|e| format!("{e}"))
}

/// `str::parse::<u32>`, with the error rendered as text. Claimed, as the
/// standard library documents it: the text must be an optional `+` followed by
/// decimal digits only, whose value fits in a `u32`; the value is returned,
/// and otherwise the error's text.
#[verifier::external_body]
pub(crate) fn parse_u32(s: &str) -> (r: Result<u32, String>)
    ensures
        r is Ok <==> (unsigned_decimal(s@) is Some && unsigned_decimal(s@)->0 <= u32::MAX),
        r matches Ok(v) ==> unsigned_decimal(s@) == Some(v as nat),
        r matches Err(e) ==> e@ == u32_parse_error_text(s@),
{
    s.parse::<u32>().map_err(|e| format!("{e}"))
}

/// A character with the Unicode property `White_Space`.
pub open spec fn is_white_space(c: char) -> bool {
    let u = c as u32;
    ||| 0x09 <= u <= 0x0d
    ||| u == 0x20
    ||| u == 0x85
    ||| u == 0xa0
    ||| u == 0x1680
    ||| 0x2000 <= u <= 0x200a
    ||| u == 0x2028
    ||| u == 0x2029
    ||| u == 0x202f
    ||| u == 0x205f
    ||| u == 0x3000
}

/// The text without its leading white space.
pub open spec fn trim_start_chars(s: Seq<char>) -> Seq<char>
    decreases s.len(),
{
    if s.len() > 0 && is_white_space(s[0]) {
        trim_start_chars(s.drop_first())
    } else {
        s
    }
}

/// The text without its trailing white space.
pub open spec fn trim_end_chars(s: Seq<char>) -> Seq<char>
    decreases s.len(),
{
    if s.len() > 0 && is_white_space(s.last()) {
        trim_end_chars(s.drop_last())
    } else {
        s
    }
}

/// The text without its leading and trailing white space.
pub open spec fn trim_chars(s: Seq<char>) -> Seq<char> {
    trim_end_chars(trim_start_chars(s))
}

/// `str::trim`. Claimed, as the standard library documents it: the result is
/// the text with leading and trailing `White_Space` characters removed.
#[verifier::external_body]
pub(crate) fn trim(s: &str) -> (t: &str)
    ensures
        t@ == trim_chars(s@),
{
    s.trim()
}


/// The decimal digit character for `d`, which must be below ten.
pub open spec fn digit_char(d: nat) -> char
    recommends
        d < 10,
{
    ((d + 48) as u32) as char
}

/// The decimal rendering of `n`: its digits, most significant first, with no
/// sign and no leading zeros.
pub open spec fn decimal_chars(n: nat) -> Seq<char>
    decreases n,
{
    if n < 10 {
        seq![digit_char(n)]
    } else {
        decimal_chars(n / 10).push(digit_char(n % 10))
    }
}

/// The decimal rendering of a number consists of digits only and reads back
/// as that number.
pub proof fn lemma_decimal_chars_digits(n: nat)
    ensures
        decimal_chars(n).len() > 0,
        forall|i: int| 0 <= i < decimal_chars(n).len() ==> is_decimal_digit(#[trigger] decimal_chars(n)[i]),
        digits_value(decimal_chars(n)) == n,
    decreases n,
{
    let c = digit_char(n % 10);
    assert(c as u32 == n % 10 + 48) by {
        vstd::utf8::char_u32_cast(c, (n % 10 + 48) as u32);
    }
    if n >= 10 {
        lemma_decimal_chars_digits(n / 10);
        let s = decimal_chars(n);
        assert(s.drop_last() =~= decimal_chars(n / 10));
        assert forall|i: int| 0 <= i < s.len() implies is_decimal_digit(#[trigger] s[i]) by {
            if i < s.len() - 1 {
                assert(s[i] == decimal_chars(n / 10)[i]);
            }
        }
        assert(s.last() == c);
        assert((n / 10) * 10 + n % 10 == n) by (nonlinear_arith);
        assert(digits_value(s.drop_last()) == n / 10);
        assert(digits_value(s) == digits_value(s.drop_last()) * 10 + ((c as nat) - 48) as nat);
    } else {
        let s = decimal_chars(n);
        assert(s.drop_last() =~= Seq::<char>::empty());
        assert(digits_value(s.drop_last()) == 0);
        assert(n % 10 == n);
    }
}

/// Round trip: the decimal rendering of any number parses back to that number.
pub proof fn lemma_decimal_round_trip(n: nat)
    ensures
        unsigned_decimal(decimal_chars(n)) == Some(n),
{
    lemma_decimal_chars_digits(n);
    assert(decimal_chars(n)[0] != '+');
    assert(unsigned_digits(decimal_chars(n)) == decimal_chars(n));
}

} // verus!
