use negl_core::codec::{decode_message, encode_message, RemoteMessage, MAX_PAYLOAD_BYTES};
use negl_core::command::{IndicatorCommand, KeyboardReport, MouseReport, Pattern};

#[test]
fn keyboard_report_exact_bytes() {
    let m = RemoteMessage::Keyboard(KeyboardReport {
        modifier: 0x02,
        keycodes: [4, 5, 6, 0, 0, 0],
    });
    assert_eq!(encode_message(&m), vec![1, 0x02, 4, 5, 6, 0, 0, 0]);
}

#[test]
fn mouse_report_exact_bytes() {
    let m = RemoteMessage::Mouse(MouseReport { buttons: 0x01, x: -1, y: 127, wheel: -128, pan: 0 });
    assert_eq!(encode_message(&m), vec![2, 0x01, 255, 127, 128, 0]);
}

#[test]
fn indicator_exact_bytes() {
    assert_eq!(encode_message(&RemoteMessage::Indicator(IndicatorCommand::Reset)), vec![3, 0]);
    assert_eq!(
        encode_message(&RemoteMessage::Indicator(IndicatorCommand::Start(Pattern::SolidColor(
            10, 20, 30
        )))),
        vec![3, 1, 10, 20, 30]
    );
}

#[test]
fn keyboard_six_keys_round_trip_within_payload_bound() {
    let m = RemoteMessage::Keyboard(KeyboardReport {
        modifier: 0x00,
        keycodes: [4, 5, 6, 7, 8, 9],
    });
    let bytes = encode_message(&m);
    assert!(bytes.len() <= MAX_PAYLOAD_BYTES);
    assert_eq!(decode_message(&bytes), Some(m));
}

#[test]
fn mouse_round_trip_with_negative_deltas() {
    let m = RemoteMessage::Mouse(MouseReport { buttons: 3, x: -5, y: -128, wheel: 127, pan: -1 });
    assert_eq!(decode_message(&encode_message(&m)), Some(m));
}

#[test]
fn indicator_round_trip_both_variants() {
    for m in [
        RemoteMessage::Indicator(IndicatorCommand::Reset),
        RemoteMessage::Indicator(IndicatorCommand::Start(Pattern::SolidColor(0, 0, 10))),
    ] {
        assert_eq!(decode_message(&encode_message(&m)), Some(m));
    }
}

#[test]
fn round_trip_over_all_i8_deltas() {
    for v in i8::MIN..=i8::MAX {
        let m = RemoteMessage::Mouse(MouseReport { buttons: 0, x: v, y: 0, wheel: v, pan: v });
        assert_eq!(decode_message(&encode_message(&m)), Some(m));
    }
}

#[test]
fn invalid_bytes_do_not_decode() {
    assert_eq!(decode_message(&[]), None);
    assert_eq!(decode_message(&[0, 1, 2]), None);
    assert_eq!(decode_message(&[9, 9, 9, 9, 9, 9, 9, 9]), None);
    // right tag, wrong length
    assert_eq!(decode_message(&[1, 0, 4, 5, 6, 0, 0]), None);
    assert_eq!(decode_message(&[2, 0, 0, 0, 0]), None);
    assert_eq!(decode_message(&[3]), None);
    // indicator tag with an unknown code
    assert_eq!(decode_message(&[3, 2]), None);
    assert_eq!(decode_message(&[3, 0, 0]), None);
}
