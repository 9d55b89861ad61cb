//! Decimal text of an 8-bit unsigned index, read and written as Rust's
//! `u8` does (`str::parse::<u8>`, `Display`).
use vstd::prelude::*;

verus! {

/// The character of a decimal digit `d` (`0 <= d < 10`).
pub open spec fn digit_char(d: int) -> char {
    "0123456789"@[d]
}

/// Whether `c` is an ASCII decimal digit.
pub open spec fn is_digit(c: char) -> bool {
    '0' <= c && c <= '9'
}

/// The number that a sequence of decimal digits denotes.
pub open spec fn digits_value(s: Seq<char>) -> nat
    decreases s.len(),
{
    if s.len() == 0 {
        0
    } else {
        digits_value(s.drop_last()) * 10 + ((s.last() as u32 - '0' as u32) as nat)
    }
}

/// The digits of an unsigned number's text: an optional leading `+` is dropped.
pub open spec fn unsigned_digits(s: Seq<char>) -> Seq<char> {
    if s.len() > 0 && s[0] == '+' {
        s.drop_first()
    } else {
        s
    }
}

/// Whether `s` is the text of a `u8`: an optional `+`, then one or more
/// decimal digits whose value is at most 255.
pub open spec fn is_u8_text(s: Seq<char>) -> bool {
    let d = unsigned_digits(s);
    &&& d.len() > 0
    &&& forall|i: int| 0 <= i < d.len() ==> is_digit(#[trigger] d[i])
    &&& digits_value(d) <= 255
}

/// The decimal text of `n`, with no sign and no leading zeros.
pub open spec fn decimal_text(n: nat) -> Seq<char>
    decreases n,
{
    if n < 10 {
        seq![digit_char(n as int)]
    } else {
        decimal_text(n / 10).push(digit_char((n % 10) as int))
    }
}

proof fn lemma_value_grows(v: nat, d: nat)
    requires
        v > 255,
    ensures
        v * 10 + d > 255,
{
}

/// Reads `s` as `str::parse::<u8>` does: `Some` exactly when `s` is the text
/// of a `u8`, with its value.
pub fn parse_u8(s: &str) -> (r: Option<u8>)
    ensures
        r is Some <==> is_u8_text(s@),
        r is Some ==> r->Some_0 as nat == digits_value(unsigned_digits(s@)),
{
    let len = s.unicode_len();
    let start: usize = if len > 0 && s.get_char(0) == '+' {
        1
    } else {
        0
    };
    if start >= len {
        return None;
    }
    let ghost d = unsigned_digits(s@);
    assert(d =~= s@.subrange(start as int, len as int));
    // `acc` is the value of the digits read so far, held at 256 once it
    // exceeds what a `u8` can hold.
    let mut acc: u32 = 0;
    let mut i: usize = start;
    while i < len
        invariant
            start <= i <= len,
            len == s@.len(),
            d == unsigned_digits(s@),
            d =~= s@.subrange(start as int, len as int),
            forall|j: int| 0 <= j < i - start ==> is_digit(#[trigger] d[j]),
            acc as nat == if digits_value(d.subrange(0, i - start)) > 255 {
                256
            } else {
                digits_value(d.subrange(0, i - start))
            },
        decreases len - i,
    {
        let c = s.get_char(i);
        if !('0' <= c && c <= '9') {
            assert(d[i - start] == c);
            assert(!is_digit(d[i - start]));
            return None;
        }
        let ghost pre = d.subrange(0, i - start);
        let ghost next = d.subrange(0, i - start + 1);
        assert(next.drop_last() =~= pre);
        assert(next.last() == c);
        let digit = c as u32 - '0' as u32;
        proof {
            if digits_value(pre) > 255 {
                lemma_value_grows(digits_value(pre), digit as nat);
            }
        }
        if acc > 255 {
            acc = 256;
        } else {
            acc = acc * 10 + digit;
            if acc > 255 {
                acc = 256;
            }
        }
        i = i + 1;
    }
    assert(d.subrange(0, len - start) =~= d);
    if acc > 255 {
        None
    } else {
        Some(acc as u8)
    }
}

/// Appends the character of the digit `d` to `out`.
fn push_digit(out: &mut String, d: u8)
    requires
        d < 10,
    ensures
        final(out)@ == old(out)@.push(digit_char(d as int)),
{
    let digits = "0123456789";
    proof {
        reveal_strlit("0123456789");
    }
    let one = digits.substring_char(d as usize, d as usize + 1);
    assert(one@ =~= seq![digit_char(d as int)]);
    out.append(one);
}

/// Appends the decimal text of `n` to `out`, as `Display` writes a `u8`.
pub fn append_decimal(out: &mut String, n: u8)
    ensures
        final(out)@ == old(out)@ + decimal_text(n as nat),
{
    proof {
        reveal_with_fuel(decimal_text, 3);
    }
    if n >= 100 {
        push_digit(out, n / 100);
        push_digit(out, (n / 10) % 10);
        push_digit(out, n % 10);
    } else if n >= 10 {
        push_digit(out, n / 10);
        push_digit(out, n % 10);
    } else {
        push_digit(out, n);
    }
    assert(out@ =~= old(out)@ + decimal_text(n as nat));
}

} // verus!
