//! Decimal text: writing numbers out and reading an index back in.

use vstd::prelude::*;

verus! {

/// `String::push` of std appends the given character to the end of the string.
pub assume_specification[ String::push ](s: &mut String, c: char)
    ensures
        final(s)@ == old(s)@.push(c),
;

/// `String::pop` of std removes the last character and returns it, or returns
/// `None` and leaves the string alone when it is empty.
pub assume_specification[ String::pop ](s: &mut String) -> (last: Option<char>)
    ensures
        old(s)@.len() == 0 ==> last is None && final(s)@ == old(s)@,
        old(s)@.len() > 0 ==> last == Some(old(s)@.last()) && final(s)@ == old(s)@.drop_last(),
;

/// The character that shows the digit `d`.
pub open spec fn digit_char(d: nat) -> char
    recommends
        d < 10,
{
    ('0' as nat + d) as char
}

/// The decimal numeral of `n`, most significant digit first, without padding.
pub open spec fn decimal(n: nat) -> Seq<char>
    decreases n,
{
    if n < 10 {
        seq![digit_char(n)]
    } else {
        decimal(n / 10).push(digit_char(n % 10))
    }
}

/// The character that shows the digit `d`.
fn digit(d: u8) -> (c: char)
    requires
        d < 10,
    ensures
        c == digit_char(d as nat),
{
    (48u8 + d) as char
}

/// Appends the decimal numeral of `n` to `out`.
pub fn push_decimal(out: &mut String, n: u64)
    ensures
        final(out)@ == old(out)@ + decimal(n as nat),
    decreases n,
{
    if n >= 10 {
        push_decimal(out, n / 10);
    }
    out.push(digit((n % 10) as u8));
}

/// Whether `c` is one of the ten decimal digits.
pub open spec fn is_digit(c: char) -> bool {
    '0' <= c <= '9'
}

/// The number that the digit `c` stands for.
pub open spec fn digit_value(c: char) -> nat
    recommends
        is_digit(c),
{
    (c as nat - '0' as nat) as nat
}

/// Whether `text` is a decimal numeral: one digit or more and nothing else.
pub open spec fn is_numeral(text: Seq<char>) -> bool {
    text.len() > 0 && forall|i: int| 0 <= i < text.len() ==> is_digit(#[trigger] text[i])
}

/// The number that a decimal numeral stands for, however long it is.
pub open spec fn numeral_value(text: Seq<char>) -> nat
    decreases text.len(),
{
    if text.len() == 0 {
        0
    } else {
        numeral_value(text.drop_last()) * 10 + digit_value(text.last())
    }
}

/// Reads `text` as a decimal numeral. The result is `None` unless `text` is
/// made of decimal digits alone, at least one. A number beyond `u64::MAX` is
/// reported as `u64::MAX`.
pub fn parse_index(text: &str) -> (index: Option<u64>)
    ensures
        index is Some <==> is_numeral(text@),
        index matches Some(v) ==> v == if numeral_value(text@) <= u64::MAX {
            numeral_value(text@)
        } else {
            u64::MAX as nat
        },
{
    let len: usize = text.unicode_len();
    if len == 0 {
        return None;
    }
    let mut value: u64 = 0;
    let mut i: usize = 0;
    while i < len
        invariant
            i <= len,
            len == text@.len(),
            forall|j: int| 0 <= j < i ==> is_digit(#[trigger] text@[j]),
            value == if numeral_value(text@.subrange(0, i as int)) <= u64::MAX {
                numeral_value(text@.subrange(0, i as int))
            } else {
                u64::MAX as nat
            },
        decreases len - i,
    {
        let c: char = text.get_char(i);
        if c < '0' || c > '9' {
            return None;
        }
        let d: u64 = (c as u32 - '0' as u32) as u64;
        proof {
            let before = text@.subrange(0, i as int);
            let after = text@.subrange(0, i + 1);
            assert(after.drop_last() == before);
            assert(after.last() == c);
            assert(numeral_value(after) == numeral_value(before) * 10 + d);
        }
        value = match value.checked_mul(10) {
            Some(tens) => match tens.checked_add(d) {
                Some(sum) => sum,
                None => u64::MAX,
            },
            None => u64::MAX,
        };
        i = i + 1;
    }
    assert(text@.subrange(0, len as int) == text@);
    Some(value)
}

} // verus!
