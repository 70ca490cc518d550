//! The wire encoding for remote messages: a stable, schema-ordered binary
//! format shared by both ends of the split link. Each message kind — a
//! keyboard report, a mouse report, or an indicator command — is a single
//! tagged, fixed-layout byte string, independently decodable, and small
//! enough for the link's fixed-capacity payload buffer.

use vstd::prelude::*;

use crate::command::{IndicatorCommand, KeyboardReport, MouseReport, Pattern};

verus! {

/// Wire tag of a keyboard report message.
pub const TAG_KEYBOARD_REPORT: u8 = 1;

/// Wire tag of a mouse report message.
pub const TAG_MOUSE_REPORT: u8 = 2;

/// Wire tag of an indicator command message.
pub const TAG_INDICATOR: u8 = 3;

/// Second byte of an indicator message carrying `Reset`.
pub const INDICATOR_RESET_CODE: u8 = 0;

/// Second byte of an indicator message carrying a solid colour.
pub const INDICATOR_SOLID_CODE: u8 = 1;

/// Capacity of the link's payload buffer; every encoded message fits in it.
pub const MAX_PAYLOAD_BYTES: usize = 64;

/// A message sent to the remote peer over the byte-oriented link.
#[derive(Clone, Copy, Debug, PartialEq, Eq)]
pub enum RemoteMessage {
    /// A keyboard report snapshot.
    Keyboard(KeyboardReport),
    /// A mouse report snapshot.
    Mouse(MouseReport),
    /// An indicator command.
    Indicator(IndicatorCommand),
}

/// The byte that stands for a signed delta on the wire (its two's
/// complement value).
pub open spec fn spec_i8_to_wire(x: i8) -> u8 {
    if x >= 0 {
        x as u8
    } else {
        (x + 256) as u8
    }
}

/// The signed delta a wire byte stands for; inverse of `spec_i8_to_wire`.
pub open spec fn spec_wire_to_i8(b: u8) -> i8 {
    if b < 128 {
        b as i8
    } else {
        (b - 256) as i8
    }
}

/// A signed delta survives the trip onto the wire and back.
pub proof fn lemma_wire_i8_round_trip(x: i8)
    ensures
        spec_wire_to_i8(spec_i8_to_wire(x)) == x,
{
}

/// Wire layout of a keyboard report: tag, modifier byte, six key codes.
pub open spec fn spec_encode_keyboard(r: KeyboardReport) -> Seq<u8> {
    seq![TAG_KEYBOARD_REPORT, r.modifier] + r.keycodes@
}

/// Wire layout of a mouse report: tag, buttons, then the x, y, wheel and
/// pan deltas as two's complement bytes.
pub open spec fn spec_encode_mouse(r: MouseReport) -> Seq<u8> {
    seq![
        TAG_MOUSE_REPORT,
        r.buttons,
        spec_i8_to_wire(r.x),
        spec_i8_to_wire(r.y),
        spec_i8_to_wire(r.wheel),
        spec_i8_to_wire(r.pan),
    ]
}

/// Wire layout of an indicator command: tag and a `Reset` code, or tag, a
/// solid-colour code and the three intensities.
pub open spec fn spec_encode_indicator(cmd: IndicatorCommand) -> Seq<u8> {
    match cmd {
        IndicatorCommand::Reset => seq![TAG_INDICATOR, INDICATOR_RESET_CODE],
        IndicatorCommand::Start(Pattern::SolidColor(red, green, blue)) => seq![
            TAG_INDICATOR,
            INDICATOR_SOLID_CODE,
            red,
            green,
            blue,
        ],
    }
}

/// Wire layout of any remote message.
pub open spec fn spec_encode_message(m: RemoteMessage) -> Seq<u8> {
    match m {
        RemoteMessage::Keyboard(r) => spec_encode_keyboard(r),
        RemoteMessage::Mouse(r) => spec_encode_mouse(r),
        RemoteMessage::Indicator(c) => spec_encode_indicator(c),
    }
}

/// The encoding is injective: distinct messages never share a byte string,
/// so the peer can reconstruct the message without a handshake.
pub proof fn lemma_encode_injective(m1: RemoteMessage, m2: RemoteMessage)
    requires
        spec_encode_message(m1) == spec_encode_message(m2),
    ensures
        m1 == m2,
{
    let b = spec_encode_message(m1);
    match (m1, m2) {
        (RemoteMessage::Keyboard(r1), RemoteMessage::Keyboard(r2)) => {
            assert forall|i: int| 0 <= i < 6 implies r1.keycodes@[i] == r2.keycodes@[i] by {
                assert(spec_encode_keyboard(r1)[i + 2] == r1.keycodes@[i]);
                assert(spec_encode_keyboard(r2)[i + 2] == r2.keycodes@[i]);
            }
            assert(r1.keycodes =~= r2.keycodes);
            assert(spec_encode_keyboard(r1)[1] == r1.modifier);
            assert(spec_encode_keyboard(r2)[1] == r2.modifier);
        },
        (RemoteMessage::Mouse(r1), RemoteMessage::Mouse(r2)) => {
            assert(spec_encode_mouse(r1)[1] == r1.buttons);
            lemma_wire_i8_round_trip(r1.x);
            lemma_wire_i8_round_trip(r2.x);
            lemma_wire_i8_round_trip(r1.y);
            lemma_wire_i8_round_trip(r2.y);
            lemma_wire_i8_round_trip(r1.wheel);
            lemma_wire_i8_round_trip(r2.wheel);
            lemma_wire_i8_round_trip(r1.pan);
            lemma_wire_i8_round_trip(r2.pan);
        },
        (RemoteMessage::Indicator(c1), RemoteMessage::Indicator(c2)) => {
            assert(spec_encode_indicator(c1) == spec_encode_indicator(c2));
        },
        _ => {
            assert(b[0] == spec_encode_message(m2)[0]);
        },
    }
}

/// The message a byte string decodes to: the unique message that encodes to
/// it, or nothing when no message does.
pub open spec fn spec_decode(b: Seq<u8>) -> Option<RemoteMessage> {
    if exists|m: RemoteMessage| spec_encode_message(m) == b {
        Some(choose|m: RemoteMessage| spec_encode_message(m) == b)
    } else {
        None
    }
}

/// A byte string that some message encodes to decodes to that message.
pub proof fn lemma_decode_of_encoding(m: RemoteMessage, b: Seq<u8>)
    requires
        spec_encode_message(m) == b,
    ensures
        spec_decode(b) == Some(m),
{
    let m0 = choose|m2: RemoteMessage| spec_encode_message(m2) == b;
    lemma_encode_injective(m, m0);
}

/// Round-trip encoding: decoding an encoded message yields the original
/// message, for every representable message of every kind.
pub proof fn lemma_round_trip(m: RemoteMessage)
    ensures
        spec_decode(spec_encode_message(m)) == Some(m),
{
    lemma_decode_of_encoding(m, spec_encode_message(m));
}

/// Every encoded message fits the link's fixed-capacity payload buffer.
pub proof fn lemma_encoding_bounded(m: RemoteMessage)
    ensures
        1 <= spec_encode_message(m).len() <= MAX_PAYLOAD_BYTES,
{
}

/// Converts a signed delta to its wire byte.
fn i8_to_wire_byte(x: i8) -> (b: u8)
    ensures
        b == spec_i8_to_wire(x),
{
    if x >= 0 {
        x as u8
    } else {
        ((x as i16) + 256) as u8
    }
}

/// Converts a wire byte back to the signed delta it stands for.
fn wire_byte_to_i8(b: u8) -> (x: i8)
    ensures
        x == spec_wire_to_i8(b),
{
    if b < 128 {
        b as i8
    } else {
        ((b as i16) - 256) as i8
    }
}

/// Encodes a keyboard report for the wire.
pub fn encode_keyboard_report(r: &KeyboardReport) -> (out: Vec<u8>)
    ensures
        out@ == spec_encode_keyboard(*r),
{
    let mut out: Vec<u8> = Vec::new();
    out.push(TAG_KEYBOARD_REPORT);
    out.push(r.modifier);
    out.push(r.keycodes[0]);
    out.push(r.keycodes[1]);
    out.push(r.keycodes[2]);
    out.push(r.keycodes[3]);
    out.push(r.keycodes[4]);
    out.push(r.keycodes[5]);
    proof {
        assert(out@ =~= spec_encode_keyboard(*r));
    }
    out
}

/// Encodes a mouse report for the wire.
pub fn encode_mouse_report(r: &MouseReport) -> (out: Vec<u8>)
    ensures
        out@ == spec_encode_mouse(*r),
{
    let mut out: Vec<u8> = Vec::new();
    out.push(TAG_MOUSE_REPORT);
    out.push(r.buttons);
    out.push(i8_to_wire_byte(r.x));
    out.push(i8_to_wire_byte(r.y));
    out.push(i8_to_wire_byte(r.wheel));
    out.push(i8_to_wire_byte(r.pan));
    proof {
        assert(out@ =~= spec_encode_mouse(*r));
    }
    out
}

/// Encodes an indicator command for the wire.
pub fn encode_indicator(cmd: &IndicatorCommand) -> (out: Vec<u8>)
    ensures
        out@ == spec_encode_indicator(*cmd),
{
    let mut out: Vec<u8> = Vec::new();
    out.push(TAG_INDICATOR);
    match cmd {
        IndicatorCommand::Reset => {
            out.push(INDICATOR_RESET_CODE);
        },
        IndicatorCommand::Start(Pattern::SolidColor(red, green, blue)) => {
            out.push(INDICATOR_SOLID_CODE);
            out.push(*red);
            out.push(*green);
            out.push(*blue);
        },
    }
    proof {
        assert(out@ =~= spec_encode_indicator(*cmd));
    }
    out
}

/// Encodes any remote message for the wire.
pub fn encode_message(m: &RemoteMessage) -> (out: Vec<u8>)
    ensures
        out@ == spec_encode_message(*m),
        out@.len() <= MAX_PAYLOAD_BYTES,
{
    proof {
        lemma_encoding_bounded(*m);
    }
    match m {
        RemoteMessage::Keyboard(r) => encode_keyboard_report(r),
        RemoteMessage::Mouse(r) => encode_mouse_report(r),
        RemoteMessage::Indicator(c) => encode_indicator(c),
    }
}

/// Decodes a received byte string. Returns the unique message that encodes
/// to it, and nothing exactly when the bytes are no valid message.
pub fn decode_message(bytes: &[u8]) -> (r: Option<RemoteMessage>)
    ensures
        r == spec_decode(bytes@),
{
    let n = bytes.len();
    if n == 8 && bytes[0] == TAG_KEYBOARD_REPORT {
        let keycodes: [u8; 6] = [bytes[2], bytes[3], bytes[4], bytes[5], bytes[6], bytes[7]];
        let m = RemoteMessage::Keyboard(KeyboardReport { modifier: bytes[1], keycodes });
        proof {
            assert(spec_encode_message(m) =~= bytes@);
            lemma_decode_of_encoding(m, bytes@);
        }
        Some(m)
    } else if n == 6 && bytes[0] == TAG_MOUSE_REPORT {
        let m = RemoteMessage::Mouse(
            MouseReport {
                buttons: bytes[1],
                x: wire_byte_to_i8(bytes[2]),
                y: wire_byte_to_i8(bytes[3]),
                wheel: wire_byte_to_i8(bytes[4]),
                pan: wire_byte_to_i8(bytes[5]),
            },
        );
        proof {
            assert(spec_encode_message(m) =~= bytes@);
            lemma_decode_of_encoding(m, bytes@);
        }
        Some(m)
    } else if n == 2 && bytes[0] == TAG_INDICATOR && bytes[1] == INDICATOR_RESET_CODE {
        let m = RemoteMessage::Indicator(IndicatorCommand::Reset);
        proof {
            assert(spec_encode_message(m) =~= bytes@);
            lemma_decode_of_encoding(m, bytes@);
        }
        Some(m)
    } else if n == 5 && bytes[0] == TAG_INDICATOR && bytes[1] == INDICATOR_SOLID_CODE {
        let m = RemoteMessage::Indicator(
            IndicatorCommand::Start(Pattern::SolidColor(bytes[2], bytes[3], bytes[4])),
        );
        proof {
            assert(spec_encode_message(m) =~= bytes@);
            lemma_decode_of_encoding(m, bytes@);
        }
        Some(m)
    } else {
        proof {
            assert forall|m: RemoteMessage| spec_encode_message(m) != bytes@ by {
                match m {
                    RemoteMessage::Keyboard(r) => {
                        assert(spec_encode_message(m).len() == 8);
                        assert(spec_encode_message(m)[0] == TAG_KEYBOARD_REPORT);
                    },
                    RemoteMessage::Mouse(r) => {
                        assert(spec_encode_message(m).len() == 6);
                        assert(spec_encode_message(m)[0] == TAG_MOUSE_REPORT);
                    },
                    RemoteMessage::Indicator(c) => {
                        match c {
                            IndicatorCommand::Reset => {
                                assert(spec_encode_message(m).len() == 2);
                                assert(spec_encode_message(m)[0] == TAG_INDICATOR);
                                assert(spec_encode_message(m)[1] == INDICATOR_RESET_CODE);
                            },
                            IndicatorCommand::Start(Pattern::SolidColor(red, green, blue)) => {
                                assert(spec_encode_message(m).len() == 5);
                                assert(spec_encode_message(m)[0] == TAG_INDICATOR);
                                assert(spec_encode_message(m)[1] == INDICATOR_SOLID_CODE);
                            },
                        }
                    },
                }
            }
        }
        None
    }
}

} // verus!
