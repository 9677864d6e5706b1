//! The ARINC 429 message and the label read from it.

use vstd::prelude::*;
use vstd::std_specs::convert::FromSpec;
use vstd::string::*;
use crate::bits::{
    bit, has_odd_parity, label_swapped, label_value, lemma_flip_parity_bit,
    lemma_label_swapped_bits, lemma_label_value_bits, lemma_label_value_by_shifts, parity_bit,
    reversed_label_bits, with_odd_parity, PARITY_MASK, PAYLOAD_MASK,
};
use crate::parity_error::ParityError;
use crate::text::{hex_digits, octal_digits, push_hex, push_octal};

verus! {

/// An ARINC 429 message
///
/// The bits of a message are represented exactly as transmitted on the wires, with the least
/// significant bit transmitted first.
///
/// The label field is in the 8 least significant bits. Because the most significant digit of the
/// label is transmitted first, the label field is in the reverse of the usual bit order.
///
/// The parity bit is the most significant bit.
///
/// # Conversions
///
/// The `u32::from(Message)` and `Message::from(u32)` `From` implementations copy bits with no
/// changes.
///
/// Some ARINC 429 adapters use a different representation, where the bits of the label field are
/// reversed from their on-wire representation. The methods `Message::from_bits_label_swapped()`
/// and `Message::bits_label_swapped()` implement this conversion.
///
/// Conversions never panic.
///
/// # Comparison
///
/// Messages are equal, ordered and hashed bit for bit, as the unsigned integers that hold them:
/// nothing in a comparison knows of labels, payloads or parity.
#[derive(Copy, Clone, PartialEq, Eq, Structural, Ord, Hash)]
pub struct Message(u32);

/// A label from a message, displayed in normal bit ordering as an octal number
// Implementation detail: The enclosed label is stored in normal bit ordering
pub struct Label(u8);

/// The displayed form of a message with the given bits: `Message(0x` and `)` around its eight
/// hexadecimal digits.
pub open spec fn message_text(bits: u32) -> Seq<char> {
    "Message(0x"@ + hex_digits(bits) + ")"@
}

/// The displayed form of a label of the given value: `Label(0o` and `)` around its three octal
/// digits.
pub open spec fn label_text(value: u8) -> Seq<char> {
    "Label(0o"@ + octal_digits(value) + ")"@
}

impl View for Message {
    type V = u32;

    /// The 32 bits of the message, as transmitted.
    closed spec fn view(&self) -> u32 {
        self.0
    }
}

impl View for Label {
    type V = u8;

    /// The label in normal bit order.
    closed spec fn view(&self) -> u8 {
        self.0
    }
}

impl Message {
    /// Messages with the same bits are the same message.
    pub proof fn lemma_same_bits(self, other: Message)
        ensures
            self@ == other@ <==> self == other,
    {
    }

    /// Bits made into a message and read back are the same bits, and a message read as bits
    /// and made from them again is the same message: the conversions change nothing.
    pub proof fn lemma_raw_round_trip(bits: u32, message: Message)
        ensures
            <Message as FromSpec<u32>>::from_spec(bits)@ == bits,
            <u32 as FromSpec<Message>>::from_spec(<Message as FromSpec<u32>>::from_spec(bits))
                == bits,
            <Message as FromSpec<u32>>::from_spec(<u32 as FromSpec<Message>>::from_spec(message))
                == message,
    {
    }

    /// Returns the bits that represent this message
    pub fn bits(&self) -> (bits: u32)
        ensures
            bits == self@,
    {
        self.0
    }

    /// Returns the bits of this message, but
    /// with the order of the 8 label bits reversed.
    pub fn bits_label_swapped(&self) -> (bits: u32)
        ensures
            bits == label_swapped(self@),
            forall|i: u32| i < 8 ==> #[trigger] bit(bits, i) == bit(self@, (7 - i) as u32),
            forall|i: u32| 8 <= i < 32 ==> #[trigger] bit(bits, i) == bit(self@, i),
    {
        let bits = self.bits();
        Self::swap_label_bits(bits)
    }

    /// Creates a message from a message representation with the 8 label bits
    /// reversed. The returned Message will be represented as transmitted on the wires.
    pub fn from_bits_label_swapped(bits: u32) -> (message: Self)
        ensures
            message@ == label_swapped(bits),
            forall|i: u32| i < 8 ==> #[trigger] bit(message@, i) == bit(bits, (7 - i) as u32),
            forall|i: u32| 8 <= i < 32 ==> #[trigger] bit(message@, i) == bit(bits, i),
    {
        let bits = Self::swap_label_bits(bits);
        Message(bits)
    }

    /// Checks the parity of this message, and returns an error if the parity is not odd
    ///
    /// The error holds the parity bit that the message has and the opposite one, which the
    /// other 31 bits call for.
    pub fn check_parity(&self) -> (result: Result<(), ParityError>)
        ensures
            result is Ok <==> has_odd_parity(self@),
            result matches Err(error) ==> error.actual() == parity_bit(self@) && error.expected()
                == 1 - parity_bit(self@),
    {
        // Should have an odd number of ones
        if self.0.count_ones() % 2 == 1 {
            Ok(())
        } else {
            let bits = self.0;
            let top: u32 = bits >> 31;
            assert(top <= 1 && (top == 1 <==> bit(bits, 31))) by (bit_vector)
                requires
                    top == bits >> 31,
            ;
            let parity = top as u8;
            let expected = parity ^ 1;
            assert(expected == 1 - parity) by (bit_vector)
                requires
                    parity <= 1,
                    expected == parity ^ 1,
            ;
            Err(ParityError::new(expected, parity))
        }
    }

    /// Calculates the parity of this message and returns a new message with the parity bit (31)
    /// set to the correct value
    ///
    /// A message of odd parity comes back as it is. Of any other, bit 31 is flipped and the
    /// label and payload bits stay.
    pub fn update_parity(&self) -> (message: Message)
        ensures
            message@ == with_odd_parity(self@),
            has_odd_parity(message@),
            has_odd_parity(self@) ==> message == *self,
            !has_odd_parity(self@) ==> bit(message@, 31) == !bit(self@, 31),
            forall|i: u32| i < 31 ==> #[trigger] bit(message@, i) == bit(self@, i),
    {
        proof {
            lemma_flip_parity_bit(self@);
        }
        match self.check_parity() {
            Ok(_) => *self,
            Err(_) => {
                // Flip parity bit
                Message(self.0 ^ PARITY_MASK)
            },
        }
    }

    /// Returns the label of this message. This can be used to show the label as an octal number.
    ///
    /// The label depends on bits 0 to 7 of the message and on nothing else.
    pub fn label(&self) -> (label: Label)
        ensures
            label@ == label_value(self@),
            forall|i: u32| i < 8 ==> #[trigger] bit(label@ as u32, i) == bit(self@, (7 - i) as u32),
    {
        let swapped = Self::swap_label_bits(self.0);
        let low: u32 = swapped & 0xff;
        proof {
            let bits = self.0;
            lemma_label_value_by_shifts(bits);
            lemma_label_value_bits(bits);
            let reversed = reversed_label_bits(bits & 0xff);
            assert(low == reversed) by (bit_vector)
                requires
                    reversed == reversed_label_bits(bits & 0xff),
                    swapped == (bits & 0xffff_ff00) | reversed,
                    low == swapped & 0xff,
            ;
        }
        Label(low as u8)
    }

    /// Returns the displayed form of this message: `Message(0x00000000)` for the message whose
    /// bits are all clear, with the bits always as eight hexadecimal digits.
    pub fn to_debug_string(&self) -> (text: String)
        ensures
            text@ == message_text(self@),
    {
        let mut text = String::from_str("Message(0x");
        push_hex(&mut text, self.0);
        text.append(")");
        text
    }

    /// Reverses the order of the 8 least significant bits of a value.
    /// Returns bits 32-9 unmodified, but with bits 1-8 reversed.
    fn swap_label_bits(bits: u32) -> (swapped: u32)
        ensures
            swapped == label_swapped(bits),
            swapped == (bits & PAYLOAD_MASK) | reversed_label_bits(bits & 0xff),
            forall|i: u32| i < 8 ==> #[trigger] bit(swapped, i) == bit(bits, (7 - i) as u32),
            forall|i: u32| 8 <= i < 32 ==> #[trigger] bit(swapped, i) == bit(bits, i),
    {
        proof {
            lemma_label_value_by_shifts(bits);
            lemma_label_swapped_bits(bits);
        }
        let label = bits & 0xff;
        let new_label = ((label & 0x1) << 7) | ((label & 0x2) << 5) | ((label & 0x4) << 3) | ((label
            & 0x8) << 1) | ((label & 0x10) >> 1) | ((label & 0x20) >> 3) | ((label & 0x40) >> 5) | ((
        label & 0x80) >> 7);
        (bits & 0xffffff00) | new_label
    }
}

impl From<u32> for Message {
    /// Creates a message from bits as transmitted, with no modifications
    fn from(bits: u32) -> (message: Self)
        ensures
            message@ == bits,
    {
        Message(bits)
    }
}

impl vstd::std_specs::convert::FromSpecImpl<u32> for Message {
    open spec fn obeys_from_spec() -> bool {
        true
    }

    closed spec fn from_spec(bits: u32) -> Self {
        Message(bits)
    }
}

impl From<Message> for u32 {
    /// Converts a message into bits, with no modifications
    fn from(message: Message) -> (bits: u32)
        ensures
            bits == message@,
    {
        message.0
    }
}

impl vstd::std_specs::convert::FromSpecImpl<Message> for u32 {
    open spec fn obeys_from_spec() -> bool {
        true
    }

    open spec fn from_spec(message: Message) -> Self {
        message@
    }
}

impl Default for Message {
    /// The message whose bits are all clear.
    fn default() -> (message: Self)
        ensures
            message@ == 0,
    {
        Message(0)
    }
}

impl Label {
    /// Returns the displayed form of this label: `Label(0o220)` for the label 220 (octal), with
    /// the value always as three octal digits.
    pub fn to_debug_string(&self) -> (text: String)
        ensures
            text@ == label_text(self@),
    {
        let mut text = String::from_str("Label(0o");
        push_octal(&mut text, self.0);
        text.append(")");
        text
    }
}

} // verus!
