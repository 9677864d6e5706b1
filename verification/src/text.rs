//! Digits as text: what the displayed forms of a message, a label and a parity error are built
//! from.

use vstd::prelude::*;
use vstd::string::*;

verus! {

/// The sixteen digits of lower-case hexadecimal, in order of value.
pub open spec fn digit_chars() -> Seq<char> {
    seq!['0', '1', '2', '3', '4', '5', '6', '7', '8', '9', 'a', 'b', 'c', 'd', 'e', 'f']
}

/// The character that stands for the digit `d`, for `d` below 16. The first eight are the
/// octal digits, the first two the binary ones.
pub open spec fn digit_char(d: int) -> char
    recommends
        0 <= d < 16,
{
    digit_chars()[d]
}

/// The digit of `v` that stands `place` places from the right when `v` is written to the base
/// `2^bits_per_digit`: the rightmost one at place 0.
pub open spec fn digit_at(v: u32, bits_per_digit: u32, place: u32) -> u32 {
    (v >> (bits_per_digit * place) as u32) & (((1u32 << bits_per_digit) - 1) as u32)
}

/// The eight hexadecimal digits of `v`, most significant first, with leading zeros.
pub open spec fn hex_digits(v: u32) -> Seq<char> {
    Seq::new(8, |i: int| digit_char(digit_at(v, 4, (7 - i) as u32) as int))
}

/// The three octal digits of `v`, most significant first, with leading zeros.
pub open spec fn octal_digits(v: u8) -> Seq<char> {
    Seq::new(3, |i: int| digit_char(digit_at(v as u32, 3, (2 - i) as u32) as int))
}

/// The eight hexadecimal digits of `v` are digits below 16 and stand for `v`: each weighted
/// by the power of 16 of its place, they add up to it.
pub proof fn lemma_hex_digits_value(v: u32)
    ensures
        hex_digits(v).len() == 8,
        forall|place: u32| place < 8 ==> #[trigger] digit_at(v, 4, place) < 16,
        v == digit_at(v, 4, 7) * 0x1000_0000 + digit_at(v, 4, 6) * 0x100_0000 + digit_at(v, 4, 5)
            * 0x10_0000 + digit_at(v, 4, 4) * 0x1_0000 + digit_at(v, 4, 3) * 0x1000 + digit_at(
            v,
            4,
            2,
        ) * 0x100 + digit_at(v, 4, 1) * 0x10 + digit_at(v, 4, 0),
{
    assert(forall|place: u32| place < 8 ==> digit_at(v, 4, place) < 16) by (bit_vector);
    assert(v == digit_at(v, 4, 7) * 0x1000_0000 + digit_at(v, 4, 6) * 0x100_0000 + digit_at(v, 4, 5)
        * 0x10_0000 + digit_at(v, 4, 4) * 0x1_0000 + digit_at(v, 4, 3) * 0x1000 + digit_at(v, 4, 2)
        * 0x100 + digit_at(v, 4, 1) * 0x10 + digit_at(v, 4, 0)) by (bit_vector);
}

/// The three octal digits of `v` are digits below 8 and stand for `v`: each weighted by the
/// power of 8 of its place, they add up to it. So three digits always hold a label.
pub proof fn lemma_octal_digits_value(v: u8)
    ensures
        octal_digits(v).len() == 3,
        forall|place: u32| place < 3 ==> #[trigger] digit_at(v as u32, 3, place) < 8,
        v == digit_at(v as u32, 3, 2) * 64 + digit_at(v as u32, 3, 1) * 8 + digit_at(v as u32, 3, 0),
{
    let w = v as u32;
    assert(forall|place: u32| place < 3 ==> digit_at(w, 3, place) < 8) by (bit_vector);
    assert(w == digit_at(w, 3, 2) * 64 + digit_at(w, 3, 1) * 8 + digit_at(w, 3, 0)) by (bit_vector)
        requires
            w < 256,
    ;
}

/// The one-character text of the digit `d`.
pub(crate) fn digit_text(d: u8) -> (text: &'static str)
    requires
        d < 16,
    ensures
        text@ == seq![digit_char(d as int)],
{
    proof {
        reveal_strlit("0");
        reveal_strlit("1");
        reveal_strlit("2");
        reveal_strlit("3");
        reveal_strlit("4");
        reveal_strlit("5");
        reveal_strlit("6");
        reveal_strlit("7");
        reveal_strlit("8");
        reveal_strlit("9");
        reveal_strlit("a");
        reveal_strlit("b");
        reveal_strlit("c");
        reveal_strlit("d");
        reveal_strlit("e");
        reveal_strlit("f");
    }
    let text = match d {
        0 => "0",
        1 => "1",
        2 => "2",
        3 => "3",
        4 => "4",
        5 => "5",
        6 => "6",
        7 => "7",
        8 => "8",
        9 => "9",
        10 => "a",
        11 => "b",
        12 => "c",
        13 => "d",
        14 => "e",
        _ => "f",
    };
    assert(text@ =~= seq![digit_char(d as int)]);
    text
}

/// Appends the eight hexadecimal digits of `v` to `out`.
pub(crate) fn push_hex(out: &mut String, v: u32)
    ensures
        final(out)@ == old(out)@ + hex_digits(v),
{
    let ghost before = out@;
    let mut i: u32 = 0;
    while i < 8
        invariant
            i <= 8,
            out@ == before + hex_digits(v).subrange(0, i as int),
        decreases 8 - i,
    {
        let shift: u32 = 4 * (7 - i);
        let d: u32 = (v >> shift) & 0xf;
        assert(d < 16 && d == digit_at(v, 4, (7 - i) as u32)) by (bit_vector)
            requires
                i < 8,
                shift == 4 * (7 - i),
                d == (v >> shift) & 0xf,
        ;
        out.append(digit_text(d as u8));
        assert(out@ =~= before + hex_digits(v).subrange(0, i + 1));
        i = i + 1;
    }
    assert(hex_digits(v).subrange(0, 8) =~= hex_digits(v));
}

/// Appends the three octal digits of `v` to `out`.
pub(crate) fn push_octal(out: &mut String, v: u8)
    ensures
        final(out)@ == old(out)@ + octal_digits(v),
{
    let ghost before = out@;
    let w: u32 = v as u32;
    let mut i: u32 = 0;
    while i < 3
        invariant
            i <= 3,
            w == v,
            out@ == before + octal_digits(v).subrange(0, i as int),
        decreases 3 - i,
    {
        let shift: u32 = 3 * (2 - i);
        let d: u32 = (w >> shift) & 0x7;
        assert(d < 8 && d == digit_at(w, 3, (2 - i) as u32)) by (bit_vector)
            requires
                i < 3,
                shift == 3 * (2 - i),
                d == (w >> shift) & 0x7,
        ;
        out.append(digit_text(d as u8));
        assert(out@ =~= before + octal_digits(v).subrange(0, i + 1));
        i = i + 1;
    }
    assert(octal_digits(v).subrange(0, 3) =~= octal_digits(v));
}

} // verus!
