use vstd::prelude::*;

verus! {

/// The characters with the Unicode `White_Space` property.
pub open spec fn is_white_space(c: char) -> bool {
    let u = c as u32;
    ||| 0x9 <= u <= 0xd
    ||| u == 0x20
    ||| u == 0x85
    ||| u == 0xa0
    ||| u == 0x1680
    ||| 0x2000 <= u <= 0x200a
    ||| u == 0x2028
    ||| u == 0x2029
    ||| u == 0x202f
    ||| u == 0x205f
    ||| u == 0x3000
}

/// Text made of white space only (the empty text among it).
pub open spec fn is_blank_text(s: Seq<char>) -> bool {
    forall|i: int| 0 <= i < s.len() ==> is_white_space(#[trigger] s[i])
}

/// `char::is_whitespace`: whether `c` has the Unicode `White_Space` property,
/// which std's documentation names as its definition.
#[verifier::external_body]
fn char_is_whitespace(c: char) -> (r: bool)
    ensures
        r == is_white_space(c),
{
    c.is_whitespace()
}

/// Whether `text` is empty once leading and trailing white space is trimmed,
/// that is, whether every character of it is white space.
pub fn is_blank(text: &str) -> (r: bool)
    ensures
        r == is_blank_text(text@),
{
    let n = text.unicode_len();
    let mut i: usize = 0;
    while i < n
        invariant
            n == text@.len(),
            i <= n,
            forall|j: int| 0 <= j < i ==> is_white_space(#[trigger] text@[j]),
        decreases n - i,
    {
        let c = text.get_char(i);
        if !char_is_whitespace(c) {
            return false;
        }
        i = i + 1;
    }
    true
}

/// Whether two texts are the same character for character.
pub fn same_text(a: &str, b: &str) -> (r: bool)
    ensures
        r == (a@ == b@),
{
    a.to_owned() == b.to_owned()
}

/// A character among `'0'` to `'9'`.
pub open spec fn is_decimal_digit(c: char) -> bool {
    0x30 <= (c as u32) <= 0x39
}

/// The number that a string of decimal digits writes.
pub open spec fn decimal_value(d: Seq<char>) -> int
    decreases d.len(),
{
    if d.len() == 0 {
        0
    } else {
        decimal_value(d.drop_last()) * 10 + ((d.last() as u32) - 0x30)
    }
}

/// What `str::parse::<u32>` accepts: an optional `+` followed by one or more
/// decimal digits whose value fits in a `u32`; nothing else (no `-`, no white
/// space, no underscores).
pub open spec fn parsed_u32(s: Seq<char>) -> Option<u32> {
    let d = if s.len() > 0 && s[0] == '+' { s.drop_first() } else { s };
    if d.len() > 0 && (forall|i: int| 0 <= i < d.len() ==> is_decimal_digit(#[trigger] d[i]))
        && decimal_value(d) <= u32::MAX {
        Some(decimal_value(d) as u32)
    } else {
        None
    }
}

/// The character of the decimal digit `d`.
pub open spec fn digit_char(d: nat) -> char {
    if d == 0 { '0' } else if d == 1 { '1' } else if d == 2 { '2' } else if d == 3 { '3' }
    else if d == 4 { '4' } else if d == 5 { '5' } else if d == 6 { '6' } else if d == 7 { '7' }
    else if d == 8 { '8' } else { '9' }
}

/// The decimal text of `n`, without sign or leading zeros.
pub open spec fn decimal_text(n: nat) -> Seq<char>
    decreases n,
{
    if n < 10 {
        seq![digit_char(n)]
    } else {
        decimal_text(n / 10).push(digit_char(n % 10))
    }
}

/// Appending a digit to a decimal text multiplies its value by ten and adds
/// the digit, whatever the digit (`0` included).
pub proof fn lemma_decimal_value_append(d: Seq<char>, c: char)
    requires
        is_decimal_digit(c),
    ensures
        decimal_value(d.push(c)) == 10 * decimal_value(d) + ((c as u32) - 0x30),
{
    assert(d.push(c).drop_last() =~= d);
}

/// The decimal text of a number is made of digits and has that number as its
/// value.
pub proof fn lemma_decimal_text_value(n: nat)
    ensures
        decimal_text(n).len() > 0,
        forall|i: int| 0 <= i < decimal_text(n).len() ==> is_decimal_digit(#[trigger] decimal_text(n)[i]),
        decimal_value(decimal_text(n)) == n,
    decreases n,
{
    if n < 10 {
        let t = decimal_text(n);
        assert(t.drop_last() =~= Seq::<char>::empty());
        assert(decimal_value(t.drop_last()) == 0);
        assert(t.last() == digit_char(n));
        assert((digit_char(n) as u32) == 0x30 + n);
        assert(decimal_value(decimal_text(n)) == n);
    } else {
        lemma_decimal_text_value(n / 10);
        let d = decimal_text(n / 10);
        lemma_decimal_value_append(d, digit_char(n % 10));
        assert((digit_char(n % 10) as u32) == 0x30 + n % 10);
        assert(decimal_value(decimal_text(n)) == 10 * (n / 10) + n % 10);
        assert(forall|i: int| 0 <= i < d.len() ==> #[trigger] d.push(digit_char(n % 10))[i] == d[i]);
    }
}

/// The decimal text of every `u32` is read back as that number: a genre id
/// written out in decimal selects that very genre.
pub proof fn lemma_parse_decimal_text(id: u32)
    ensures
        parsed_u32(decimal_text(id as nat)) == Some(id),
{
    lemma_decimal_text_value(id as nat);
    let s = decimal_text(id as nat);
    assert(is_decimal_digit(s[0]));
    assert(s[0] != '+');
}

/// Among the ASCII characters, the white space is exactly space, tab, line
/// feed, vertical tab, form feed and carriage return; no letter, digit or
/// punctuation mark is white space.
pub proof fn lemma_ascii_white_space(c: char)
    requires
        (c as u32) < 0x80,
    ensures
        is_white_space(c) <==> (c == ' ' || c == '\t' || c == '\n' || c == '\u{0B}' || c == '\u{0C}' || c == '\r'),
{
}

/// An ASCII letter or digit.
pub open spec fn is_ascii_alphanumeric(c: char) -> bool {
    ||| 0x30 <= (c as u32) <= 0x39
    ||| 0x41 <= (c as u32) <= 0x5a
    ||| 0x61 <= (c as u32) <= 0x7a
}

/// A text with an ASCII letter or digit in it is not blank.
pub proof fn lemma_alphanumeric_not_blank(s: Seq<char>, i: int)
    requires
        0 <= i < s.len(),
        is_ascii_alphanumeric(s[i]),
    ensures
        !is_blank_text(s),
{
    lemma_ascii_white_space(s[i]);
}

/// `str::parse::<u32>`, its error dropped: std documents that the text must be
/// an optional `+` sign followed by decimal digits only, with a value that fits
/// in a `u32`, and that anything else is an error.
#[verifier::external_body]
pub(crate) fn parse_u32(s: &str) -> (r: Option<u32>)
    ensures
        r == parsed_u32(s@),
{
    s.parse::<u32>().ok()
}

} // verus!
