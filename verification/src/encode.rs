//! Canonical byte and text encodings used when hashing ledger data:
//! big-endian bytes for fixed-width integers and decimal text for counters.

use vstd::prelude::*;

verus! {

/// The eight big-endian bytes of a 64-bit integer, high byte first.
pub open spec fn be_bytes_u64(x: u64) -> Seq<u8> {
    seq![
        (x / 72057594037927936) as u8,
        ((x / 281474976710656) % 256) as u8,
        ((x / 1099511627776) % 256) as u8,
        ((x / 4294967296) % 256) as u8,
        ((x / 16777216) % 256) as u8,
        ((x / 65536) % 256) as u8,
        ((x / 256) % 256) as u8,
        (x % 256) as u8,
    ]
}

/// The four big-endian bytes of a 32-bit integer, high byte first.
pub open spec fn be_bytes_u32(x: u32) -> Seq<u8> {
    seq![
        (x / 16777216) as u8,
        ((x / 65536) % 256) as u8,
        ((x / 256) % 256) as u8,
        (x % 256) as u8,
    ]
}

/// Appends the eight big-endian bytes of `x` to `out`.
pub fn push_be_bytes_u64(out: &mut Vec<u8>, x: u64)
    ensures
        final(out)@ == old(out)@ + be_bytes_u64(x),
{
    out.push((x / 72057594037927936) as u8);
    out.push(((x / 281474976710656) % 256) as u8);
    out.push(((x / 1099511627776) % 256) as u8);
    out.push(((x / 4294967296) % 256) as u8);
    out.push(((x / 16777216) % 256) as u8);
    out.push(((x / 65536) % 256) as u8);
    out.push(((x / 256) % 256) as u8);
    out.push((x % 256) as u8);
    proof {
        assert(final(out)@ =~= old(out)@ + be_bytes_u64(x));
    }
}

/// Appends the four big-endian bytes of `x` to `out`.
pub fn push_be_bytes_u32(out: &mut Vec<u8>, x: u32)
    ensures
        final(out)@ == old(out)@ + be_bytes_u32(x),
{
    out.push((x / 16777216) as u8);
    out.push(((x / 65536) % 256) as u8);
    out.push(((x / 256) % 256) as u8);
    out.push((x % 256) as u8);
    proof {
        assert(final(out)@ =~= old(out)@ + be_bytes_u32(x));
    }
}

/// The decimal digit character for a value below 10.
pub open spec fn dec_char(n: u8) -> char {
    if n == 0 {
        '0'
    } else if n == 1 {
        '1'
    } else if n == 2 {
        '2'
    } else if n == 3 {
        '3'
    } else if n == 4 {
        '4'
    } else if n == 5 {
        '5'
    } else if n == 6 {
        '6'
    } else if n == 7 {
        '7'
    } else if n == 8 {
        '8'
    } else {
        '9'
    }
}

/// The decimal text of a nonnegative integer, without leading zeroes
/// (a single zero for zero itself).
pub open spec fn dec_str(x: int) -> Seq<char>
    recommends
        x >= 0,
    decreases x,
{
    if x < 10 {
        seq![dec_char(if x < 0 { 0 } else { x as u8 })]
    } else {
        dec_str(x / 10) + seq![dec_char((x % 10) as u8)]
    }
}

/// The one-character string holding the decimal digit for `n`.
fn dec_digit_str(n: u8) -> (r: &'static str)
    requires
        n < 10,
    ensures
        r@ == seq![dec_char(n)],
{
    proof {
        reveal_strlit("0");
        reveal_strlit("1");
        reveal_strlit("2");
        reveal_strlit("3");
        reveal_strlit("4");
        reveal_strlit("5");
        reveal_strlit("6");
        reveal_strlit("7");
        reveal_strlit("8");
        reveal_strlit("9");
    }
    if n == 0 {
        "0"
    } else if n == 1 {
        "1"
    } else if n == 2 {
        "2"
    } else if n == 3 {
        "3"
    } else if n == 4 {
        "4"
    } else if n == 5 {
        "5"
    } else if n == 6 {
        "6"
    } else if n == 7 {
        "7"
    } else if n == 8 {
        "8"
    } else {
        "9"
    }
}

/// Renders a 64-bit integer as decimal text.
pub fn u64_to_dec(x: u64) -> (r: String)
    ensures
        r@ == dec_str(x as int),
    decreases x,
{
    if x < 10 {
        let mut s = String::new();
        s.append(dec_digit_str(x as u8));
        s
    } else {
        let mut s = u64_to_dec(x / 10);
        s.append(dec_digit_str((x % 10) as u8));
        s
    }
}

} // verus!
