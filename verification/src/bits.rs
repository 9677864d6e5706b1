//! Bit-level vocabulary for 32-bit ARINC 429 words.
//!
//! A word is held exactly as it travels on the wire: bit 0 is the least significant bit of the
//! integer and the first one transmitted, bits 0 to 7 carry the label, bits 8 to 30 the payload,
//! and bit 31 the parity bit. The spec functions of this module say what the operations on a
//! message compute; the proof functions state what holds of them for every word.

use vstd::prelude::*;

verus! {

/// The mask that selects the parity bit, bit 31.
pub const PARITY_MASK: u32 = 0x8000_0000;

/// The mask that selects the label field, bits 0 to 7.
pub const LABEL_MASK: u32 = 0x0000_00ff;

/// The mask that selects everything but the label field, bits 8 to 31.
pub const PAYLOAD_MASK: u32 = 0xffff_ff00;

/// Whether bit `i` of `v` is set. Bit 0 is the least significant bit.
pub open spec fn bit(v: u32, i: u32) -> bool {
    (v >> i) & 1 == 1
}

/// How many of the `n` lowest bits of `v` are set.
pub open spec fn ones_below(v: u32, n: nat) -> nat
    decreases n,
{
    if n == 0 {
        0
    } else {
        ones_below(v, (n - 1) as nat) + if bit(v, (n - 1) as u32) {
            1nat
        } else {
            0nat
        }
    }
}

/// The population count of `v`: how many of its 32 bits are set.
pub open spec fn ones(v: u32) -> nat {
    ones_below(v, 32)
}

/// Whether `v` has the odd parity that ARINC 429 asks for: an odd number of set bits over the
/// whole word, the parity bit included.
pub open spec fn has_odd_parity(v: u32) -> bool {
    ones(v) % 2 == 1
}

/// The value of the parity bit of `v`, 0 or 1.
pub open spec fn parity_bit(v: u32) -> u8 {
    if bit(v, 31) {
        1
    } else {
        0
    }
}

/// The word `v` with its parity bit set so that the parity of the whole is odd: `v` itself
/// where it already is, and `v` with bit 31 flipped where it is not.
pub open spec fn with_odd_parity(v: u32) -> u32 {
    if has_odd_parity(v) {
        v
    } else {
        v ^ PARITY_MASK
    }
}

/// Moves the `width` lowest binary digits of `v` onto `acc`, lowest digit first, so that the
/// digit that was lowest in `v` ends up highest among the digits added.
pub open spec fn mirror_onto(acc: nat, v: nat, width: nat) -> nat
    decreases width,
{
    if width == 0 {
        acc
    } else {
        mirror_onto(2 * acc + v % 2, v / 2, (width - 1) as nat)
    }
}

/// The `width` lowest binary digits of `v`, read in the opposite order.
pub open spec fn mirrored(v: nat, width: nat) -> nat {
    mirror_onto(0, v, width)
}

/// The label of the word `v` as it is read: the eight label bits in the order opposite to the
/// one in which the wire carries them.
pub open spec fn label_value(v: u32) -> u8 {
    mirrored((v % 256) as nat, 8) as u8
}

/// The word `v` with its eight label bits in the opposite order and bits 8 to 31 as they are.
pub open spec fn label_swapped(v: u32) -> u32 {
    (v - v % 256 + label_value(v)) as u32
}

/// Taken on trust, not proved: `u32::count_ones` of the standard library returns the number of
/// ones in the binary representation of its argument, which is what `ones` counts bit by bit.
pub assume_specification[ u32::count_ones ](v: u32) -> (n: u32)
    ensures
        n == ones(v),
;

/// The label field `label` with its eight bits in the opposite order, by masks and shifts.
pub open spec fn reversed_label_bits(label: u32) -> u32 {
    ((label & 0x1) << 7) | ((label & 0x2) << 5) | ((label & 0x4) << 3) | ((label & 0x8) << 1) | ((
    label & 0x10) >> 1) | ((label & 0x20) >> 3) | ((label & 0x40) >> 5) | ((label & 0x80) >> 7)
}

/// The eight lowest binary digits of `b`, weighted in the opposite order.
spec fn digits_mirrored(b: u32) -> int {
    let b1 = b / 2;
    let b2 = b1 / 2;
    let b3 = b2 / 2;
    let b4 = b3 / 2;
    let b5 = b4 / 2;
    let b6 = b5 / 2;
    let b7 = b6 / 2;
    128 * (b % 2) + 64 * (b1 % 2) + 32 * (b2 % 2) + 16 * (b3 % 2) + 8 * (b4 % 2) + 4 * (b5 % 2) + 2
        * (b6 % 2) + (b7 % 2)
}

/// Reading the label by masks and shifts gives the label value.
pub proof fn lemma_label_value_by_shifts(v: u32)
    ensures
        label_value(v) == reversed_label_bits(v & LABEL_MASK),
        label_swapped(v) == (v & PAYLOAD_MASK) | reversed_label_bits(v & LABEL_MASK),
{
    let b: u32 = v % 256;
    assert(mirrored(b as nat, 8) == digits_mirrored(b)) by {
        reveal_with_fuel(mirror_onto, 9);
    }
    assert(digits_mirrored(v % 256) == reversed_label_bits(v & 0xff) && reversed_label_bits(
        v & 0xff,
    ) < 256) by (bit_vector);
    assert(v - v % 256 + reversed_label_bits(v & 0xff) == (v & 0xffff_ff00) | reversed_label_bits(
        v & 0xff,
    )) by (bit_vector);
}

/// Swapping the label bits puts bit `7 - i` where bit `i` was, for each of the eight label
/// bits, and leaves bits 8 to 31 alone.
pub proof fn lemma_label_swapped_bits(v: u32)
    ensures
        forall|i: u32| i < 8 ==> #[trigger] bit(label_swapped(v), i) == bit(v, (7 - i) as u32),
        forall|i: u32| 8 <= i < 32 ==> #[trigger] bit(label_swapped(v), i) == bit(v, i),
        label_swapped(v) & PAYLOAD_MASK == v & PAYLOAD_MASK,
{
    lemma_label_value_by_shifts(v);
    let r = label_swapped(v);
    assert(forall|i: u32| i < 8 ==> bit(r, i) == bit(v, (7 - i) as u32)) by (bit_vector)
        requires
            r == (v & 0xffff_ff00) | reversed_label_bits(v & 0xff),
    ;
    assert(forall|i: u32| 8 <= i < 32 ==> bit(r, i) == bit(v, i)) by (bit_vector)
        requires
            r == (v & 0xffff_ff00) | reversed_label_bits(v & 0xff),
    ;
    assert(r & 0xffff_ff00 == v & 0xffff_ff00) by (bit_vector)
        requires
            r == (v & 0xffff_ff00) | reversed_label_bits(v & 0xff),
    ;
}

/// Swapping the label bits twice gives the word back.
pub proof fn lemma_label_swapped_involutive(v: u32)
    ensures
        label_swapped(label_swapped(v)) == v,
{
    let r = label_swapped(v);
    let rr = label_swapped(r);
    lemma_label_value_by_shifts(v);
    lemma_label_value_by_shifts(r);
    assert(rr == v) by (bit_vector)
        requires
            r == (v & 0xffff_ff00) | reversed_label_bits(v & 0xff),
            rr == (r & 0xffff_ff00) | reversed_label_bits(r & 0xff),
    ;
}

/// The label value holds the eight label bits in the opposite order, and depends on nothing
/// else: two words with the same label field have the same label value.
pub proof fn lemma_label_value_bits(v: u32)
    ensures
        forall|i: u32| i < 8 ==> #[trigger] bit(label_value(v) as u32, i) == bit(v, (7 - i) as u32),
        forall|w: u32| w & LABEL_MASK == v & LABEL_MASK ==> #[trigger] label_value(w) == label_value(v),
{
    lemma_label_value_by_shifts(v);
    let r = label_value(v) as u32;
    assert(forall|i: u32| i < 8 ==> bit(r, i) == bit(v, (7 - i) as u32)) by (bit_vector)
        requires
            r == reversed_label_bits(v & 0xff),
    ;
    assert forall|w: u32| w & LABEL_MASK == v & LABEL_MASK implies #[trigger] label_value(w)
        == label_value(v) by {
        assert(w % 256 == v % 256) by (bit_vector)
            requires
                w & 0xff == v & 0xff,
        ;
    }
}

/// Two words that agree on each of their `n` lowest bits have as many ones among them.
pub proof fn lemma_ones_below_agree(a: u32, b: u32, n: nat)
    requires
        n <= 32,
        forall|i: u32| i < n ==> bit(a, i) == bit(b, i),
    ensures
        ones_below(a, n) == ones_below(b, n),
    decreases n,
{
    if n > 0 {
        lemma_ones_below_agree(a, b, (n - 1) as nat);
        assert(bit(a, (n - 1) as u32) == bit(b, (n - 1) as u32));
    }
}

/// Flipping the parity bit changes bit 31 and no other bit, and turns even parity into odd
/// parity and odd into even.
pub proof fn lemma_flip_parity_bit(v: u32)
    ensures
        forall|i: u32| i < 31 ==> #[trigger] bit(v ^ PARITY_MASK, i) == bit(v, i),
        bit(v ^ PARITY_MASK, 31) == !bit(v, 31),
        has_odd_parity(v ^ PARITY_MASK) == !has_odd_parity(v),
        (v ^ PARITY_MASK) ^ PARITY_MASK == v,
{
    let w = v ^ PARITY_MASK;
    assert(forall|i: u32| i < 31 ==> bit(v ^ 0x8000_0000, i) == bit(v, i)) by (bit_vector);
    assert(bit(v ^ 0x8000_0000, 31) == !bit(v, 31)) by (bit_vector);
    assert((v ^ 0x8000_0000) ^ 0x8000_0000 == v) by (bit_vector);
    lemma_ones_below_agree(w, v, 31);
    assert(ones(w) == ones_below(w, 31) + if bit(w, 31) { 1nat } else { 0nat });
    assert(ones(v) == ones_below(v, 31) + if bit(v, 31) { 1nat } else { 0nat });
}

/// Setting the parity bit for odd parity gives a word of odd parity; it leaves a word of odd
/// parity as it is, and changes bit 31 alone of any other.
pub proof fn lemma_with_odd_parity(v: u32)
    ensures
        has_odd_parity(with_odd_parity(v)),
        has_odd_parity(v) ==> with_odd_parity(v) == v,
        forall|i: u32| i < 31 ==> #[trigger] bit(with_odd_parity(v), i) == bit(v, i),
        !has_odd_parity(v) ==> bit(with_odd_parity(v), 31) == !bit(v, 31),
{
    lemma_flip_parity_bit(v);
}

/// Setting the parity bit for odd parity a second time changes nothing.
pub proof fn lemma_with_odd_parity_idempotent(v: u32)
    ensures
        with_odd_parity(with_odd_parity(v)) == with_odd_parity(v),
{
    lemma_with_odd_parity(v);
}

} // verus!
