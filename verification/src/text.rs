//! Fixed- and variable-width rendering of integers as character sequences.
//!
//! These are the building blocks of the instruction trace and of the CPU
//! state dump: hexadecimal words of a fixed width, decimal numbers with
//! zero padding, and space padding to a column width.

use vstd::prelude::*;

verus! {

/// The hexadecimal digit character for a value below 16.
pub open spec fn hex_digit(d: int) -> char {
    if d == 0 {
        '0'
    } else if d == 1 {
        '1'
    } else if d == 2 {
        '2'
    } else if d == 3 {
        '3'
    } else if d == 4 {
        '4'
    } else if d == 5 {
        '5'
    } else if d == 6 {
        '6'
    } else if d == 7 {
        '7'
    } else if d == 8 {
        '8'
    } else if d == 9 {
        '9'
    } else if d == 10 {
        'a'
    } else if d == 11 {
        'b'
    } else if d == 12 {
        'c'
    } else if d == 13 {
        'd'
    } else if d == 14 {
        'e'
    } else {
        'f'
    }
}

/// The digit character for `d`, for `d < 16`.
pub fn hex_digit_char(d: u8) -> (c: char)
    requires
        d < 16,
    ensures
        c == hex_digit(d as int),
{
    if d == 0 {
        '0'
    } else if d == 1 {
        '1'
    } else if d == 2 {
        '2'
    } else if d == 3 {
        '3'
    } else if d == 4 {
        '4'
    } else if d == 5 {
        '5'
    } else if d == 6 {
        '6'
    } else if d == 7 {
        '7'
    } else if d == 8 {
        '8'
    } else if d == 9 {
        '9'
    } else if d == 10 {
        'a'
    } else if d == 11 {
        'b'
    } else if d == 12 {
        'c'
    } else if d == 13 {
        'd'
    } else if d == 14 {
        'e'
    } else {
        'f'
    }
}

/// Nibble `i` of a 32-bit word, counting from the most significant.
pub open spec fn nibble32(v: u32, i: int) -> u8 {
    ((v >> ((28 - 4 * i) as u32)) & 0xf) as u8
}

/// Nibble `i` of a 64-bit word, counting from the most significant.
pub open spec fn nibble64(v: u64, i: int) -> u8 {
    ((v >> ((60 - 4 * i) as u64)) & 0xf) as u8
}

/// A 32-bit word as eight hexadecimal digits, most significant first.
pub open spec fn hex32(v: u32) -> Seq<char> {
    Seq::new(8, |i: int| hex_digit(nibble32(v, i) as int))
}

/// A 64-bit word as sixteen hexadecimal digits, most significant first.
pub open spec fn hex64(v: u64) -> Seq<char> {
    Seq::new(16, |i: int| hex_digit(nibble64(v, i) as int))
}

/// Appends the eight hexadecimal digits of `v` to `out`.
pub fn push_hex32(out: &mut Vec<char>, v: u32)
    ensures
        final(out)@ == old(out)@ + hex32(v),
{
    let mut j: usize = 0;
    while j < 8
        invariant
            j <= 8,
            out@ == old(out)@ + hex32(v).subrange(0, j as int),
        decreases 8 - j,
    {
        let shift: u32 = (28 - 4 * j) as u32;
        let d: u8 = ((v >> shift) & 0xf) as u8;
        assert((v >> shift) & 0xf < 16) by (bit_vector);
        assert(d == nibble32(v, j as int));
        let c = hex_digit_char(d);
        out.push(c);
        assert(out@ =~= old(out)@ + hex32(v).subrange(0, j + 1));
        j = j + 1;
    }
    assert(out@ =~= old(out)@ + hex32(v));
}

/// Appends the sixteen hexadecimal digits of `v` to `out`.
pub fn push_hex64(out: &mut Vec<char>, v: u64)
    ensures
        final(out)@ == old(out)@ + hex64(v),
{
    let mut j: usize = 0;
    while j < 16
        invariant
            j <= 16,
            out@ == old(out)@ + hex64(v).subrange(0, j as int),
        decreases 16 - j,
    {
        let shift: u64 = (60 - 4 * j) as u64;
        let d: u8 = ((v >> shift) & 0xf) as u8;
        assert((v >> shift) & 0xf < 16) by (bit_vector);
        assert(d == nibble64(v, j as int));
        let c = hex_digit_char(d);
        out.push(c);
        assert(out@ =~= old(out)@ + hex64(v).subrange(0, j + 1));
        j = j + 1;
    }
    assert(out@ =~= old(out)@ + hex64(v));
}

/// The decimal digits of `n`, most significant first, with no leading zeros
/// (a single `'0'` for zero).
pub open spec fn dec(n: nat) -> Seq<char>
    decreases n,
{
    if n < 10 {
        seq![hex_digit(n as int)]
    } else {
        dec(n / 10) + seq![hex_digit((n % 10) as int)]
    }
}

/// A run of `k` zero characters.
pub open spec fn zeros(k: int) -> Seq<char> {
    Seq::new(if k < 0 { 0 } else { k as nat }, |i: int| '0')
}

/// The decimal digits of `n`, zero-padded on the left to at least `w`
/// characters.
pub open spec fn dec_pad(n: nat, w: int) -> Seq<char> {
    zeros(w - dec(n).len()) + dec(n)
}

/// A run of `k` space characters.
pub open spec fn spaces(k: int) -> Seq<char> {
    Seq::new(if k < 0 { 0 } else { k as nat }, |i: int| ' ')
}

/// `s` padded on the right with spaces to at least `w` characters.
pub open spec fn pad_right(s: Seq<char>, w: int) -> Seq<char> {
    s + spaces(w - s.len())
}

/// The decimal digits of `n`, most significant first.
pub fn dec_chars(n: u64) -> (r: Vec<char>)
    ensures
        r@ == dec(n as nat),
{
    let mut tmp: Vec<char> = Vec::new();
    let mut cur: u64 = n;
    while cur >= 10
        invariant
            dec(n as nat) == dec(cur as nat) + tmp@,
        decreases cur,
    {
        let d: u8 = (cur % 10) as u8;
        let c = hex_digit_char(d);
        tmp.insert(0, c);
        assert(dec(cur as nat) == dec((cur / 10) as nat) + seq![hex_digit(d as int)]);
        assert(dec(n as nat) =~= dec((cur / 10) as nat) + tmp@);
        cur = cur / 10;
    }
    let c = hex_digit_char(cur as u8);
    tmp.insert(0, c);
    assert(dec(cur as nat) =~= seq![hex_digit(cur as int)]);
    assert(tmp@ =~= dec(n as nat));
    tmp
}

/// Appends the decimal digits of `n`, zero-padded on the left to at least
/// `w` characters, to `out`.
pub fn push_dec_pad(out: &mut Vec<char>, n: u64, w: usize)
    ensures
        final(out)@ == old(out)@ + dec_pad(n as nat, w as int),
{
    let mut digits = dec_chars(n);
    let mut pad: usize = 0;
    let ghost padding = zeros(w - dec(n as nat).len());
    if digits.len() < w {
        pad = w - digits.len();
    }
    let mut k: usize = 0;
    while k < pad
        invariant
            k <= pad,
            pad == (if dec(n as nat).len() < w { w - dec(n as nat).len() } else { 0 }),
            digits@ == dec(n as nat),
            out@ == old(out)@ + padding.subrange(0, k as int),
            padding == zeros(w - dec(n as nat).len()),
        decreases pad - k,
    {
        out.push('0');
        assert(out@ =~= old(out)@ + padding.subrange(0, k + 1));
        k = k + 1;
    }
    assert(padding.subrange(0, pad as int) =~= padding);
    out.append(&mut digits);
    assert(out@ =~= old(out)@ + dec_pad(n as nat, w as int));
}

/// Appends spaces to `out` until it holds at least `w` characters.
pub fn pad_to(out: &mut Vec<char>, w: usize)
    ensures
        final(out)@ == pad_right(old(out)@, w as int),
{
    let ghost padding = spaces(w - old(out)@.len());
    let start: usize = out.len();
    let mut k: usize = 0;
    let mut pad: usize = 0;
    if start < w {
        pad = w - start;
    }
    while k < pad
        invariant
            k <= pad,
            pad == (if old(out)@.len() < w { w - old(out)@.len() } else { 0 }),
            out@ == old(out)@ + padding.subrange(0, k as int),
            padding == spaces(w - old(out)@.len()),
        decreases pad - k,
    {
        out.push(' ');
        assert(out@ =~= old(out)@ + padding.subrange(0, k + 1));
        k = k + 1;
    }
    assert(padding.subrange(0, pad as int) =~= padding);
    assert(out@ =~= pad_right(old(out)@, w as int));
}

/// Relies on `String`'s `FromIterator<char>` implementation: collecting
/// characters yields a string holding exactly those characters in order.
#[verifier::external_body]
pub fn chars_to_string(v: Vec<char>) -> (r: String)
    ensures
        r@ == v@,
{
    String::from_iter(v)
}

} // verus!
