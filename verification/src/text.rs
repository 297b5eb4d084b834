//! Character-level helpers shared by the protocol-text builders and
//! parsers: decimal rendering of integers, hexadecimal rendering of byte
//! strings, and the character classes the credential codec relies on.

use vstd::prelude::*;

verus! {

/// Relies on `String::push`: appends the given character to the end of
/// the string.
#[verifier::external_body]
pub(crate) fn push_char(s: &mut String, c: char)
    ensures
        final(s)@ == old(s)@.push(c),
{
    s.push(c);
}

/// JSON insignificant whitespace.
pub open spec fn is_ws(c: char) -> bool {
    c == ' ' || c == '\n' || c == '\t' || c == '\r'
}

/// An ASCII decimal digit.
pub open spec fn is_digit(c: char) -> bool {
    '0' <= c && c <= '9'
}

/// Numeric value of a decimal digit character.
pub open spec fn digit_val(c: char) -> int {
    c as u32 - 48
}

/// The decimal digit character for a value below ten.
pub open spec fn digit_char(d: u64) -> char
    recommends
        d < 10,
{
    ((48 + d) as u8) as char
}

/// The usual decimal rendering of `n`: no sign, no leading zero except
/// for zero itself.
pub open spec fn dec_digits(n: u64) -> Seq<char>
    decreases n,
{
    if n < 10 {
        seq![digit_char(n)]
    } else {
        dec_digits(n / 10).push(digit_char(n % 10))
    }
}

pub proof fn lemma_dec_digits_are_digits(n: u64)
    ensures
        dec_digits(n).len() >= 1,
        forall|i: int|
            0 <= i < dec_digits(n).len() ==> is_digit(#[trigger] dec_digits(n)[i])
                && digit_val(dec_digits(n)[i]) < 10,
    decreases n,
{
    if n >= 10 {
        lemma_dec_digits_are_digits(n / 10);
    }
}

/// Renders `n` in decimal.
pub fn u64_to_string(n: u64) -> (r: String)
    ensures
        r@ == dec_digits(n),
    decreases n,
{
    if n < 10 {
        let mut s = String::new();
        push_char(&mut s, (48 + (n as u8)) as char);
        s
    } else {
        let mut s = u64_to_string(n / 10);
        push_char(&mut s, (48 + ((n % 10) as u8)) as char);
        s
    }
}

/// The lowercase hexadecimal digit for a value below sixteen.
pub open spec fn hex_char(d: u8) -> char
    recommends
        d < 16,
{
    if d < 10 {
        ((48 + d) as u8) as char
    } else {
        ((87 + d) as u8) as char
    }
}

/// Lowercase hexadecimal rendering of a byte string, two digits per byte.
pub open spec fn hex_of(bs: Seq<u8>) -> Seq<char>
    decreases bs.len(),
{
    if bs.len() == 0 {
        Seq::empty()
    } else {
        hex_of(bs.drop_last()) + seq![hex_char(bs.last() / 16), hex_char(bs.last() % 16)]
    }
}

fn push_hex_byte(s: &mut String, b: u8)
    ensures
        final(s)@ == old(s)@ + seq![hex_char(b / 16), hex_char(b % 16)],
{
    let hi = b / 16;
    let lo = b % 16;
    let hc: char = if hi < 10 {
        (48 + hi) as char
    } else {
        (87 + hi) as char
    };
    let lc: char = if lo < 10 {
        (48 + lo) as char
    } else {
        (87 + lo) as char
    };
    push_char(s, hc);
    push_char(s, lc);
    assert(s@ =~= old(s)@ + seq![hex_char(b / 16), hex_char(b % 16)]);
}

/// Renders a byte string as lowercase hexadecimal.
pub fn bytes_to_hex(bs: &[u8]) -> (r: String)
    ensures
        r@ == hex_of(bs@),
{
    let mut s = String::new();
    let mut i: usize = 0;
    while i < bs.len()
        invariant
            i <= bs@.len(),
            s@ == hex_of(bs@.subrange(0, i as int)),
        decreases bs@.len() - i,
    {
        let b = bs[i];
        push_hex_byte(&mut s, b);
        proof {
            let next = bs@.subrange(0, (i + 1) as int);
            assert(next.drop_last() =~= bs@.subrange(0, i as int));
            assert(next.last() == b);
        }
        i = i + 1;
    }
    proof {
        assert(bs@.subrange(0, bs@.len() as int) =~= bs@);
    }
    s
}

} // verus!
