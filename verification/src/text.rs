//! Strings of the `compact_str` crate as verified code sees them, and the
//! decimal form of unsigned integers.
use compact_str::CompactString;
use vstd::prelude::*;

verus! {

/// `compact_str::CompactString`, an owned UTF-8 string. Its representation is
/// hidden: contracts speak of [`chars_of`].
#[verifier::external_type_specification]
#[verifier::external_body]
pub struct ExCompactString(CompactString);

/// The characters that a `CompactString` holds, first to last.
pub uninterp spec fn chars_of(s: CompactString) -> Seq<char>;

/// `CompactString::from(&str)` copies the slice: the new string holds exactly
/// its characters.
pub assume_specification<'a>[ <CompactString as From<&'a str>>::from ](s: &'a str) -> (r:
    CompactString)
    ensures
        chars_of(r) == s@,
;

/// `CompactString::clone` yields a string with the same characters.
pub assume_specification[ <CompactString as Clone>::clone ](s: &CompactString) -> (r:
    CompactString)
    ensures
        chars_of(r) == chars_of(*s),
;

/// `CompactString::as_str` borrows the whole string as a slice of the same
/// characters.
pub assume_specification<'a>[ CompactString::as_str ](s: &'a CompactString) -> (r: &'a str)
    ensures
        r@ == chars_of(*s),
;

/// `CompactString::push_str` appends the characters of `tail` and leaves what
/// was there in place.
pub assume_specification[ CompactString::push_str ](s: &mut CompactString, tail: &str)
    ensures
        chars_of(*final(s)) == chars_of(*old(s)) + tail@,
;

/// `CompactString::push` appends the one character `ch`.
pub assume_specification[ CompactString::push ](s: &mut CompactString, ch: char)
    ensures
        chars_of(*final(s)) == chars_of(*old(s)).push(ch),
;

/// The characters of an optional string.
pub open spec fn opt_chars(s: Option<CompactString>) -> Option<Seq<char>> {
    match s {
        Some(t) => Some(chars_of(t)),
        None => None,
    }
}

/// The characters of each string of a list.
pub open spec fn list_chars(l: Seq<CompactString>) -> Seq<Seq<char>> {
    l.map_values(|t: CompactString| chars_of(t))
}

/// The decimal digit for `d`, where `d < 10`.
pub open spec fn digit_char(d: nat) -> char
    recommends
        d < 10,
{
    (48 + d) as char
}

/// Whether `c` is one of `'0'` to `'9'`.
pub open spec fn is_digit(c: char) -> bool {
    48 <= c as int <= 57
}

/// The decimal form of `n`: no sign, no leading zero, `"0"` for zero.
pub open spec fn decimal(n: nat) -> Seq<char>
    decreases n,
{
    if n < 10 {
        seq![digit_char(n)]
    } else {
        decimal(n / 10).push(digit_char(n % 10))
    }
}

/// A decimal form is not empty and holds digits only.
pub proof fn lemma_decimal_digits(n: nat)
    ensures
        decimal(n).len() >= 1,
        forall|i: int| 0 <= i < decimal(n).len() ==> is_digit(#[trigger] decimal(n)[i]),
    decreases n,
{
    if n >= 10 {
        lemma_decimal_digits(n / 10);
    }
}

/// A number of two digits or more has a decimal form of two characters or more.
proof fn lemma_decimal_long(n: nat)
    requires
        n >= 10,
    ensures
        decimal(n).len() >= 2,
{
    lemma_decimal_digits(n / 10);
}

/// Two numbers with the same decimal form are the same number.
pub proof fn lemma_decimal_injective(a: nat, b: nat)
    requires
        decimal(a) == decimal(b),
    ensures
        a == b,
    decreases a,
{
    if a < 10 {
        if b >= 10 {
            lemma_decimal_long(b);
        }
        assert(seq![digit_char(a)][0] == digit_char(a));
        assert(seq![digit_char(b)][0] == digit_char(b));
    } else {
        if b < 10 {
            lemma_decimal_long(a);
        }
        let da = decimal(a / 10);
        let db = decimal(b / 10);
        assert(da.push(digit_char(a % 10)).last() == digit_char(a % 10));
        assert(db.push(digit_char(b % 10)).last() == digit_char(b % 10));
        assert(da.push(digit_char(a % 10)).drop_last() == da);
        assert(db.push(digit_char(b % 10)).drop_last() == db);
        lemma_decimal_injective(a / 10, b / 10);
    }
}

/// The character of a digit.
fn digit(d: u8) -> (c: char)
    requires
        d < 10,
    ensures
        c == digit_char(d as nat),
{
    (48u8 + d) as char
}

/// Appends the decimal form of `n` to `s`.
pub fn push_decimal(s: &mut CompactString, n: u64)
    ensures
        chars_of(*final(s)) == chars_of(*old(s)) + decimal(n as nat),
    decreases n,
{
    if n >= 10 {
        push_decimal(s, n / 10);
    }
    s.push(digit((n % 10) as u8));
}

/// The decimal form of `n` as a string of its own.
pub fn decimal_string(n: u64) -> (r: CompactString)
    ensures
        chars_of(r) == decimal(n as nat),
{
    let mut r = CompactString::from("");
    proof {
        reveal_strlit("");
    }
    push_decimal(&mut r, n);
    r
}

/// The two strings one after the other.
pub fn join(head: &CompactString, tail: &str) -> (r: CompactString)
    ensures
        chars_of(r) == chars_of(*head) + tail@,
{
    let mut r = head.clone();
    r.push_str(tail);
    r
}

/// A `String` with the characters of `s`.
pub fn to_std_string(s: &CompactString) -> (r: String)
    ensures
        r@ == chars_of(*s),
{
    String::from_str(s.as_str())
}

} // verus!
