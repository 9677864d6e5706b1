//! The displayed forms of messages and labels.

use arinc_429::{Label, Message};

fn check_message_debug(message: &Message, expected: &str) {
    let actual = message.to_debug_string();
    assert_eq!(actual, expected, "Incorrect debug representation");
}

fn check_label_debug(label: &Label, expected: &str) {
    let actual = label.to_debug_string();
    assert_eq!(actual, expected, "Incorrect debug representation");
}

#[test]
fn test_zero() {
    let message = Message::from(0x0);
    check_message_debug(&message, "Message(0x00000000)");
}

#[test]
fn test_all_ones() {
    let message = Message::from(0xffffffff);
    check_message_debug(&message, "Message(0xffffffff)");
}

#[test]
fn lib_test_zero() {
    let label = Message::from(0x0).label();
    check_label_debug(&label, "Label(0o000)");
}

#[test]
fn lib_test_all_ones() {
    let label = Message::from(0xff).label();
    check_label_debug(&label, "Label(0o377)");
}

#[test]
fn message_debug_pads_to_eight_hex_digits() {
    check_message_debug(&Message::from(0x1), "Message(0x00000001)");
    check_message_debug(&Message::from(0xabc), "Message(0x00000abc)");
    check_message_debug(&Message::from(0x10000056), "Message(0x10000056)");
    check_message_debug(&Message::from(0xface1234), "Message(0xface1234)");
    check_message_debug(&Message::from(0x89abcdef), "Message(0x89abcdef)");
    check_message_debug(&Message::from(0x01234567), "Message(0x01234567)");
}

#[test]
fn message_debug_matches_std_formatting() {
    let samples: [u32; 8] = [
        0, 1, 0xf, 0x10, 0x8000_0000, 0x7fff_ffff, 0xdead_beef, 0xffff_ffff,
    ];
    for bits in samples {
        let expected = format!("Message({:#010x})", bits);
        assert_eq!(Message::from(bits).to_debug_string(), expected);
    }
}

#[test]
fn label_debug_of_documented_messages() {
    check_label_debug(&Message::from(0x84000109).label(), "Label(0o220)");
    check_label_debug(&Message::from(0x84000180).label(), "Label(0o001)");
}

#[test]
fn label_debug_is_three_octal_digits_of_the_reversed_low_byte() {
    for low in 0u32..256 {
        let reversed = (low as u8).reverse_bits();
        let expected = format!("Label({:#05o})", reversed);
        let text = Message::from(low).label().to_debug_string();
        assert_eq!(text, expected);
        assert_eq!(text.len(), 12);
    }
}

#[test]
fn label_ignores_payload_and_parity() {
    for low in 0u32..256 {
        let plain = Message::from(low).label().to_debug_string();
        for high in [0xffff_ff00u32, 0x8000_0000, 0x0000_0100, 0x1234_5600, 0x7fff_ff00] {
            let other = Message::from(high | low).label().to_debug_string();
            assert_eq!(other, plain);
        }
    }
}
