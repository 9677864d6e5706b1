//! Conversions, label swapping and parity of messages.

use arinc_429::{Message, ParityError, Speed};
use std::collections::hash_map::DefaultHasher;
use std::hash::{Hash, Hasher};

const SAMPLES: [u32; 16] = [
    0x0000_0000,
    0x0000_0001,
    0x0000_0056,
    0x0000_00ff,
    0x0000_0100,
    0x1000_0056,
    0x2244_3300,
    0x2244_3301,
    0x7fff_ffff,
    0x8000_0000,
    0x8000_0001,
    0x8400_0109,
    0xf03c_cccc,
    0xf13c_cccc,
    0xface_1234,
    0xffff_ffff,
];

fn hash_of(message: &Message) -> u64 {
    let mut hasher = DefaultHasher::new();
    message.hash(&mut hasher);
    hasher.finish()
}

fn error_of(bits: u32) -> ParityError {
    match Message::from(bits).check_parity() {
        Ok(()) => panic!("{:#010x} has odd parity", bits),
        Err(error) => error,
    }
}

#[test]
fn raw_conversion_copies_bits() {
    let message = Message::from(0x10000056);
    assert_eq!(0x10000056, u32::from(message));
    assert_eq!(0x10000056, message.bits());
}

#[test]
fn raw_round_trip_holds_for_samples() {
    for bits in SAMPLES {
        assert_eq!(u32::from(Message::from(bits)), bits);
        assert_eq!(Message::from(bits).bits(), bits);
        assert!(Message::from(u32::from(Message::from(bits))) == Message::from(bits));
    }
}

#[test]
fn from_bits_label_swapped_reverses_the_label_bits() {
    let message = Message::from_bits_label_swapped(0x10000056);
    assert_eq!(0x1000006a, u32::from(message));
}

#[test]
fn bits_label_swapped_reverses_the_label_bits() {
    assert_eq!(Message::from(0x10000056).bits_label_swapped(), 0x1000006a);
    assert_eq!(Message::from(0x1000006a).bits_label_swapped(), 0x10000056);
    assert_eq!(Message::from(0x00000001).bits_label_swapped(), 0x00000080);
    assert_eq!(Message::from(0xffffff80).bits_label_swapped(), 0xffffff01);
    assert_eq!(Message::from(0x0).bits_label_swapped(), 0x0);
    assert_eq!(Message::from(0xffffffff).bits_label_swapped(), 0xffffffff);
}

#[test]
fn label_swap_is_the_reversal_of_the_low_byte() {
    for low in 0u32..256 {
        for high in [0x0000_0000u32, 0xffff_ff00, 0x8400_0100, 0x1234_5600] {
            let bits = high | low;
            let expected = high | u32::from((low as u8).reverse_bits());
            assert_eq!(Message::from(bits).bits_label_swapped(), expected);
            assert_eq!(Message::from_bits_label_swapped(bits).bits(), expected);
        }
    }
}

#[test]
fn label_swap_twice_gives_the_bits_back() {
    for bits in SAMPLES {
        let swapped = Message::from(bits).bits_label_swapped();
        assert_eq!(Message::from(swapped).bits_label_swapped(), bits);
        assert_eq!(Message::from_bits_label_swapped(swapped).bits(), bits);
        assert_eq!(swapped & 0xffff_ff00, bits & 0xffff_ff00);
    }
}

#[test]
fn check_parity_of_documented_messages() {
    assert!(Message::from(0x0).check_parity().is_err());
    assert!(Message::from(0xf03ccccc).check_parity().is_err());
    assert!(Message::from(0x1).check_parity().is_ok());
    assert!(Message::from(0xf13ccccc).check_parity().is_ok());
}

#[test]
fn check_parity_succeeds_on_an_odd_count_of_ones() {
    for bits in SAMPLES {
        let mut count = 0;
        for i in 0..32 {
            if (bits >> i) & 1 == 1 {
                count += 1;
            }
        }
        assert_eq!(Message::from(bits).check_parity().is_ok(), count % 2 == 1);
    }
}

#[test]
fn parity_error_holds_the_parity_bit_and_its_complement() {
    let clear = error_of(0x0);
    assert_eq!(clear.actual(), 0);
    assert_eq!(clear.expected(), 1);
    let set = error_of(0x8000_0001);
    assert_eq!(set.actual(), 1);
    assert_eq!(set.expected(), 0);
    let documented = error_of(0xf03ccccc);
    assert_eq!(documented.actual(), 1);
    assert_eq!(documented.expected(), 0);
    let repaired = error_of(0x22443300);
    assert_eq!(repaired.actual(), 0);
    assert_eq!(repaired.expected(), 1);
}

#[test]
fn parity_error_message_states_both_bits() {
    assert_eq!(
        error_of(0x0).to_string(),
        "incorrect parity: expected 1, actual 0"
    );
    assert_eq!(
        error_of(0xf03ccccc).to_string(),
        "incorrect parity: expected 0, actual 1"
    );
}

#[test]
fn update_parity_flips_bit_31_of_an_even_message() {
    // Create a message with incorrect (even) parity
    let message = Message::from(0x22443300);
    assert_eq!(message.update_parity().bits(), 0xa2443300);
    assert_eq!(Message::from(0xf03ccccc).update_parity().bits(), 0x703ccccc);
    assert_eq!(Message::from(0x0).update_parity().bits(), 0x80000000);
}

#[test]
fn update_parity_keeps_an_odd_message() {
    // Create a message with correct (odd) parity
    let message = Message::from(0x22443301);
    // Message should not change
    assert!(message.update_parity() == message);
    assert_eq!(message.update_parity().bits(), 0x22443301);
}

#[test]
fn update_parity_always_gives_odd_parity() {
    for bits in SAMPLES {
        let message = Message::from(bits);
        let updated = message.update_parity();
        assert!(updated.check_parity().is_ok());
        assert_eq!(updated.bits() & 0x7fff_ffff, bits & 0x7fff_ffff);
        if message.check_parity().is_ok() {
            assert_eq!(updated.bits(), bits);
        } else {
            assert_eq!(updated.bits(), bits ^ 0x8000_0000);
        }
    }
}

#[test]
fn update_parity_twice_is_update_parity_once() {
    for bits in SAMPLES {
        let once = Message::from(bits).update_parity();
        let twice = once.update_parity();
        assert!(twice == once);
        assert_eq!(twice.bits(), once.bits());
    }
}

#[test]
fn messages_compare_as_their_bits() {
    for a in SAMPLES {
        for b in SAMPLES {
            let left = Message::from(a);
            let right = Message::from(b);
            assert_eq!(left == right, a == b);
            assert_eq!(left != right, a != b);
            assert_eq!(left < right, a < b);
            assert_eq!(left <= right, a <= b);
            assert_eq!(left > right, a > b);
            assert_eq!(left >= right, a >= b);
            assert_eq!(left.partial_cmp(&right), a.partial_cmp(&b));
            assert_eq!(left.cmp(&right), a.cmp(&b));
        }
    }
}

#[test]
fn equal_messages_hash_alike() {
    for bits in SAMPLES {
        assert_eq!(hash_of(&Message::from(bits)), hash_of(&Message::from(bits)));
    }
    assert_ne!(hash_of(&Message::from(0)), hash_of(&Message::from(1)));
}

#[test]
fn default_message_is_all_clear() {
    assert_eq!(Message::default().bits(), 0);
    assert!(Message::default() == Message::from(0));
}

#[test]
fn messages_are_copied_by_value() {
    let message = Message::from(0xface1234);
    let copy = message;
    let clone = message.clone();
    assert_eq!(copy.bits(), 0xface1234);
    assert_eq!(clone.bits(), 0xface1234);
    assert_eq!(message.bits(), 0xface1234);
}

#[test]
fn speeds_are_two_distinct_values() {
    assert_eq!(Speed::High, Speed::High);
    assert_eq!(Speed::Low, Speed::Low);
    assert_ne!(Speed::High, Speed::Low);
    assert_eq!(format!("{:?}", Speed::High), "High");
    assert_eq!(format!("{:?}", Speed::Low), "Low");
    let copy = Speed::Low;
    assert_eq!(copy.clone(), Speed::Low);
}
