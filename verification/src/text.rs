//! Building the text of diagnostic dumps: hexadecimal numbers and padding.

use vstd::prelude::*;

verus! {

/// What `String::push` of the standard library does, taken on trust:
/// after the call the text is the text before it with `c` at its end.
pub assume_specification[ String::push ](text: &mut String, c: char)
    ensures
        final(text)@ == old(text)@.push(c),
;

/// The upper-case hexadecimal digit of `d`, for `d` in `0..16`.
pub open spec fn hex_digit(d: int) -> char {
    if d < 10 {
        ('0' as int + d) as char
    } else {
        ('A' as int + d - 10) as char
    }
}

/// The last `width` hexadecimal digits of `n`, most significant first,
/// with leading zeros.
pub open spec fn hex(n: int, width: nat) -> Seq<char>
    decreases width,
{
    if width == 0 {
        Seq::empty()
    } else {
        hex(n / 16, (width - 1) as nat).push(hex_digit(n % 16))
    }
}

/// The number of hexadecimal digits of `n`, for `n` in `0..=0xFFFF`.
pub open spec fn hex_width(n: int) -> nat {
    if n < 0x10 {
        1
    } else if n < 0x100 {
        2
    } else if n < 0x1000 {
        3
    } else {
        4
    }
}

/// `n` in hexadecimal after `0x`, without leading zeros.
pub open spec fn prefixed_hex(n: int) -> Seq<char> {
    seq!['0', 'x'] + hex(n, hex_width(n))
}

/// `text`, and after it as many spaces as it is shorter than `width`.
pub open spec fn padded(text: Seq<char>, width: nat) -> Seq<char> {
    if text.len() < width {
        text + Seq::new((width - text.len()) as nat, |k: int| ' ')
    } else {
        text
    }
}

/// `hex(n, width)` has `width` digits.
pub proof fn lemma_hex_len(n: int, width: nat)
    ensures
        hex(n, width).len() == width,
    decreases width,
{
    if width > 0 {
        lemma_hex_len(n / 16, (width - 1) as nat);
    }
}

/// The hexadecimal digit of `d`.
pub fn hex_digit_of(d: u8) -> (c: char)
    requires
        d < 16,
    ensures
        c == hex_digit(d as int),
{
    if d < 10 {
        (0x30 + d) as char
    } else {
        (0x41 + (d - 10)) as char
    }
}

/// Appends the last `width` hexadecimal digits of `n` to `text`.
pub fn push_hex(text: &mut String, n: u16, width: u8)
    ensures
        final(text)@ == old(text)@ + hex(n as int, width as nat),
    decreases width,
{
    if width > 0 {
        push_hex(text, n / 16, width - 1);
        text.push(hex_digit_of((n % 16) as u8));
    }
}

/// Appends `n` in hexadecimal after `0x`, and then spaces until `width`
/// characters are written, if they are not yet.
pub fn push_prefixed_hex(text: &mut String, n: u16, width: u8)
    ensures
        final(text)@ == old(text)@ + padded(prefixed_hex(n as int), width as nat),
{
    let digits: u8 = if n < 0x10 {
        1
    } else if n < 0x100 {
        2
    } else if n < 0x1000 {
        3
    } else {
        4
    };
    text.push('0');
    text.push('x');
    push_hex(text, n, digits);
    proof {
        lemma_hex_len(n as int, digits as nat);
    }
    let ghost number = prefixed_hex(n as int);
    let mut written: u8 = digits + 2;
    while written < width
        invariant
            number.len() == digits + 2,
            digits + 2 <= written,
            digits <= 4,
            written <= width || written == digits + 2,
            text@ == old(text)@ + number + Seq::new((written - number.len()) as nat, |k: int| ' '),
        decreases width - written,
    {
        text.push(' ');
        written = written + 1;
    }
}

} // verus!
