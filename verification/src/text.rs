//! Decimal text and byte buffers.

use vstd::prelude::*;
use vstd::string::*;

verus! {

/// The character for a decimal digit.
pub open spec fn digit_char(d: int) -> char {
    if d == 0 {
        '0'
    } else if d == 1 {
        '1'
    } else if d == 2 {
        '2'
    } else if d == 3 {
        '3'
    } else if d == 4 {
        '4'
    } else if d == 5 {
        '5'
    } else if d == 6 {
        '6'
    } else if d == 7 {
        '7'
    } else if d == 8 {
        '8'
    } else {
        '9'
    }
}

/// The decimal digits of `n`, most significant first, without leading zeros.
pub open spec fn decimal_text(n: nat) -> Seq<char>
    decreases n,
{
    if n < 10 {
        seq![digit_char(n as int)]
    } else {
        decimal_text(n / 10).push(digit_char((n % 10) as int))
    }
}

/// The last three decimal digits of `n`, zeros included.
pub open spec fn three_digits(n: nat) -> Seq<char> {
    seq![
        digit_char(((n / 100) % 10) as int),
        digit_char(((n / 10) % 10) as int),
        digit_char((n % 10) as int),
    ]
}

/// The last six decimal digits of `n`, zeros included.
pub open spec fn six_digits(n: nat) -> Seq<char> {
    three_digits(n / 1000) + three_digits(n % 1000)
}

/// The bytes of a text in UTF-8.
pub open spec fn utf8(text: Seq<char>) -> Seq<u8> {
    vstd::utf8::encode_utf8(text)
}

/// One decimal digit as text.
pub fn digit_str(d: u8) -> (s: &'static str)
    requires
        d < 10,
    ensures
        s@ == seq![digit_char(d as int)],
{
    proof {
        reveal_strlit("0");
        reveal_strlit("1");
        reveal_strlit("2");
        reveal_strlit("3");
        reveal_strlit("4");
        reveal_strlit("5");
        reveal_strlit("6");
        reveal_strlit("7");
        reveal_strlit("8");
        reveal_strlit("9");
    }
    let s = match d {
        0 => "0",
        1 => "1",
        2 => "2",
        3 => "3",
        4 => "4",
        5 => "5",
        6 => "6",
        7 => "7",
        8 => "8",
        _ => "9",
    };
    assert(s@ =~= seq![digit_char(d as int)]);
    s
}

/// Appends the decimal digits of `n` to `out`.
pub fn push_decimal(out: &mut String, n: u64)
    ensures
        final(out)@ == old(out)@ + decimal_text(n as nat),
    decreases n,
{
    if n >= 10 {
        push_decimal(out, n / 10);
    }
    out.append(digit_str((n % 10) as u8));
}

/// Appends the last three decimal digits of `n` to `out`.
pub fn push_three_digits(out: &mut String, n: u64)
    ensures
        final(out)@ == old(out)@ + three_digits(n as nat),
{
    out.append(digit_str(((n / 100) % 10) as u8));
    out.append(digit_str(((n / 10) % 10) as u8));
    out.append(digit_str((n % 10) as u8));
}

/// Appends `bytes` to `buf`.
pub fn push_bytes(buf: &mut Vec<u8>, bytes: &[u8])
    ensures
        final(buf)@ == old(buf)@ + bytes@,
{
    let mut i: usize = 0;
    while i < bytes.len()
        invariant
            i <= bytes@.len(),
            buf@ == old(buf)@ + bytes@.subrange(0, i as int),
        decreases bytes@.len() - i,
    {
        buf.push(bytes[i]);
        i = i + 1;
    }
    assert(bytes@.subrange(0, i as int) =~= bytes@);
}

/// Appends the UTF-8 bytes of `text` to `buf`.
pub fn push_text(buf: &mut Vec<u8>, text: &str)
    ensures
        final(buf)@ == old(buf)@ + utf8(text@),
{
    push_bytes(buf, text.as_bytes());
}

} // verus!
