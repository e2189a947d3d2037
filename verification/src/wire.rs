//! The byte form of the wire messages. A message is one tag byte and then its
//! fields; numbers are four bytes, most significant first; a text comes last
//! and runs to the end of the message, in UTF-8.

use vstd::prelude::*;
use vstd::arithmetic::div_mod::lemma_fundamental_div_mod_converse;
use vstd::slice::slice_subrange;
use vstd::utf8::decode_utf8;
use vstd::utf8::encode_utf8;
use vstd::utf8::valid_utf8;
use crate::input::MouseEvent;
use crate::input::MouseEventView;
use crate::network::NetworkMessage;
use crate::network::NetworkMessageView;

verus! {

/// Tag of a pointer event.
pub const TAG_MOUSE_EVENT: u8 = 0;

/// Tag of a connection request.
pub const TAG_CONNECTION_REQUEST: u8 = 1;

/// Tag of a connection response.
pub const TAG_CONNECTION_RESPONSE: u8 = 2;

/// Tag of a heartbeat.
pub const TAG_HEARTBEAT: u8 = 3;

/// Bytes that a pointer event takes up before its button name.
pub const EVENT_HEAD_LEN: usize = 18;

/// The four bytes of a number: the number is shifted up by 2^31, so that it
/// is not negative, and written most significant byte first.
pub open spec fn spec_encode_i32(value: i32) -> Seq<u8> {
    let shifted = value + 0x8000_0000;
    seq![
        (shifted / 0x100_0000) as u8,
        ((shifted / 0x1_0000) % 0x100) as u8,
        ((shifted / 0x100) % 0x100) as u8,
        (shifted % 0x100) as u8,
    ]
}

/// The number that four bytes stand for.
pub open spec fn spec_decode_i32(bytes: Seq<u8>) -> i32 {
    (bytes[0] * 0x100_0000 + bytes[1] * 0x1_0000 + bytes[2] * 0x100 + bytes[3] - 0x8000_0000) as i32
}

/// The byte of a truth value: one for true, zero for false.
pub open spec fn spec_encode_bool(value: bool) -> u8 {
    if value {
        1
    } else {
        0
    }
}

/// The text that bytes stand for: their reading as UTF-8, if they have one.
pub open spec fn spec_decode_text(bytes: Seq<u8>) -> Option<Seq<char>> {
    if valid_utf8(bytes) {
        Some(decode_utf8(bytes))
    } else {
        None
    }
}

/// The bytes of a pointer event: x, y, the pressed flag, the two wheel deltas,
/// then a zero byte for no button, or a one byte and the button's name.
pub open spec fn spec_encode_event(event: MouseEventView) -> Seq<u8> {
    spec_encode_i32(event.x) + spec_encode_i32(event.y) + seq![spec_encode_bool(event.pressed)]
        + spec_encode_i32(event.wheel_x) + spec_encode_i32(event.wheel_y) + (match event.button {
        None => seq![0u8],
        Some(name) => seq![1u8] + encode_utf8(name),
    })
}

/// The bytes of a message: its tag, then its fields.
pub open spec fn spec_encode(message: NetworkMessageView) -> Seq<u8> {
    match message {
        NetworkMessageView::MouseEvent(event) => seq![TAG_MOUSE_EVENT] + spec_encode_event(event),
        NetworkMessageView::ConnectionRequest { fingerprint } => seq![TAG_CONNECTION_REQUEST]
            + encode_utf8(fingerprint),
        NetworkMessageView::ConnectionResponse { accepted, fingerprint } => seq![
            TAG_CONNECTION_RESPONSE,
            spec_encode_bool(accepted),
        ] + encode_utf8(fingerprint),
        NetworkMessageView::Heartbeat => seq![TAG_HEARTBEAT],
    }
}

/// The pointer event that bytes stand for, if any: the bytes hold the whole
/// head, both flags are zero or one, and after a zero button flag nothing
/// follows, after a one the name of the button in UTF-8.
pub open spec fn spec_decode_event(bytes: Seq<u8>) -> Option<MouseEventView> {
    if bytes.len() < EVENT_HEAD_LEN || bytes[8] > 1 || bytes[17] > 1 {
        None
    } else {
        let button = if bytes[17] == 0 {
            if bytes.len() == EVENT_HEAD_LEN {
                Some(None::<Seq<char>>)
            } else {
                None
            }
        } else {
            match spec_decode_text(bytes.subrange(EVENT_HEAD_LEN as int, bytes.len() as int)) {
                Some(name) => Some(Some(name)),
                None => None,
            }
        };
        match button {
            Some(button) => Some(
                MouseEventView {
                    x: spec_decode_i32(bytes.subrange(0, 4)),
                    y: spec_decode_i32(bytes.subrange(4, 8)),
                    button,
                    pressed: bytes[8] == 1,
                    wheel_x: spec_decode_i32(bytes.subrange(9, 13)),
                    wheel_y: spec_decode_i32(bytes.subrange(13, 17)),
                },
            ),
            None => None,
        }
    }
}

/// The message that bytes stand for, if any.
pub open spec fn spec_decode(bytes: Seq<u8>) -> Option<NetworkMessageView> {
    if bytes.len() == 0 {
        None
    } else {
        let body = bytes.subrange(1, bytes.len() as int);
        if bytes[0] == TAG_MOUSE_EVENT {
            match spec_decode_event(body) {
                Some(event) => Some(NetworkMessageView::MouseEvent(event)),
                None => None,
            }
        } else if bytes[0] == TAG_CONNECTION_REQUEST {
            match spec_decode_text(body) {
                Some(fingerprint) => Some(NetworkMessageView::ConnectionRequest { fingerprint }),
                None => None,
            }
        } else if bytes[0] == TAG_CONNECTION_RESPONSE {
            if body.len() == 0 || body[0] > 1 {
                None
            } else {
                match spec_decode_text(body.subrange(1, body.len() as int)) {
                    Some(fingerprint) => Some(
                        NetworkMessageView::ConnectionResponse {
                            accepted: body[0] == 1,
                            fingerprint,
                        },
                    ),
                    None => None,
                }
            }
        } else if bytes[0] == TAG_HEARTBEAT {
            if body.len() == 0 {
                Some(NetworkMessageView::Heartbeat)
            } else {
                None
            }
        } else {
            None
        }
    }
}

/// Four bytes written for a number are read back as that number.
pub proof fn lemma_i32_round_trip(value: i32)
    ensures
        spec_encode_i32(value).len() == 4,
        spec_decode_i32(spec_encode_i32(value)) == value,
{
}

/// The bytes written for a text are read back as that text.
pub proof fn lemma_text_round_trip(text: Seq<char>)
    ensures
        spec_decode_text(encode_utf8(text)) == Some(text),
{
    vstd::utf8::encode_utf8_valid_utf8(text);
    vstd::utf8::encode_utf8_decode_utf8(text);
}

/// The bytes written for a pointer event are read back as that event.
pub proof fn lemma_event_round_trip(event: MouseEventView)
    ensures
        spec_decode_event(spec_encode_event(event)) == Some(event),
{
    let bytes = spec_encode_event(event);
    lemma_i32_round_trip(event.x);
    lemma_i32_round_trip(event.y);
    lemma_i32_round_trip(event.wheel_x);
    lemma_i32_round_trip(event.wheel_y);
    assert(bytes.subrange(0, 4) == spec_encode_i32(event.x));
    assert(bytes.subrange(4, 8) == spec_encode_i32(event.y));
    assert(bytes.subrange(9, 13) == spec_encode_i32(event.wheel_x));
    assert(bytes.subrange(13, 17) == spec_encode_i32(event.wheel_y));
    assert(bytes[8] == spec_encode_bool(event.pressed));
    match event.button {
        None => {
            assert(bytes.len() == EVENT_HEAD_LEN);
            assert(bytes[17] == 0);
        },
        Some(name) => {
            assert(bytes[17] == 1);
            assert(bytes.subrange(EVENT_HEAD_LEN as int, bytes.len() as int) == encode_utf8(name));
            lemma_text_round_trip(name);
        },
    }
}

/// Every message survives the wire: the bytes written for a message are read
/// back as a message that says the same.
pub proof fn lemma_round_trip(message: NetworkMessageView)
    ensures
        spec_decode(spec_encode(message)) == Some(message),
{
    let bytes = spec_encode(message);
    let body = bytes.subrange(1, bytes.len() as int);
    match message {
        NetworkMessageView::MouseEvent(event) => {
            assert(body == spec_encode_event(event));
            lemma_event_round_trip(event);
        },
        NetworkMessageView::ConnectionRequest { fingerprint } => {
            assert(body == encode_utf8(fingerprint));
            lemma_text_round_trip(fingerprint);
        },
        NetworkMessageView::ConnectionResponse { accepted, fingerprint } => {
            assert(body[0] == spec_encode_bool(accepted));
            assert(body.subrange(1, body.len() as int) == encode_utf8(fingerprint));
            lemma_text_round_trip(fingerprint);
        },
        NetworkMessageView::Heartbeat => {
            assert(body.len() == 0);
        },
    }
}

/// The four bytes that are read as a number are the bytes written for it.
pub proof fn lemma_i32_bytes_are_canonical(bytes: Seq<u8>)
    requires
        bytes.len() == 4,
    ensures
        spec_encode_i32(spec_decode_i32(bytes)) == bytes,
{
    let b0 = bytes[0] as int;
    let b1 = bytes[1] as int;
    let b2 = bytes[2] as int;
    let b3 = bytes[3] as int;
    let shifted = b0 * 0x100_0000 + b1 * 0x1_0000 + b2 * 0x100 + b3;
    assert(spec_decode_i32(bytes) + 0x8000_0000 == shifted);
    lemma_fundamental_div_mod_converse(shifted, 0x100_0000, b0, b1 * 0x1_0000 + b2 * 0x100 + b3);
    lemma_fundamental_div_mod_converse(shifted, 0x1_0000, b0 * 0x100 + b1, b2 * 0x100 + b3);
    lemma_fundamental_div_mod_converse(b0 * 0x100 + b1, 0x100, b0, b1);
    lemma_fundamental_div_mod_converse(shifted, 0x100, b0 * 0x1_0000 + b1 * 0x100 + b2, b3);
    lemma_fundamental_div_mod_converse(b0 * 0x1_0000 + b1 * 0x100 + b2, 0x100, b0 * 0x100 + b1, b2);
    assert(spec_encode_i32(spec_decode_i32(bytes)) =~= bytes);
}

/// The bytes that are read as a pointer event are the bytes written for it.
pub proof fn lemma_event_bytes_are_canonical(bytes: Seq<u8>)
    requires
        spec_decode_event(bytes) is Some,
    ensures
        spec_encode_event(spec_decode_event(bytes)->0) == bytes,
{
    let event = spec_decode_event(bytes)->0;
    lemma_i32_bytes_are_canonical(bytes.subrange(0, 4));
    lemma_i32_bytes_are_canonical(bytes.subrange(4, 8));
    lemma_i32_bytes_are_canonical(bytes.subrange(9, 13));
    lemma_i32_bytes_are_canonical(bytes.subrange(13, 17));
    if bytes[17] != 0 {
        vstd::utf8::decode_utf8_encode_utf8(
            bytes.subrange(EVENT_HEAD_LEN as int, bytes.len() as int),
        );
    }
    assert(spec_encode_event(event) =~= bytes);
}

/// Reading is the inverse of writing: bytes that are read as a message are
/// the very bytes that are written for that message. So no two byte strings
/// stand for the same message.
pub proof fn lemma_bytes_are_canonical(bytes: Seq<u8>)
    requires
        spec_decode(bytes) is Some,
    ensures
        spec_encode(spec_decode(bytes)->0) == bytes,
{
    let body = bytes.subrange(1, bytes.len() as int);
    if bytes[0] == TAG_MOUSE_EVENT {
        lemma_event_bytes_are_canonical(body);
    } else if bytes[0] == TAG_CONNECTION_REQUEST {
        vstd::utf8::decode_utf8_encode_utf8(body);
    } else if bytes[0] == TAG_CONNECTION_RESPONSE {
        vstd::utf8::decode_utf8_encode_utf8(body.subrange(1, body.len() as int));
    }
    assert(spec_encode(spec_decode(bytes)->0) =~= bytes);
}

/// `std::str::from_utf8`: reads bytes as UTF-8 text. The reading succeeds
/// exactly on well-formed UTF-8, and yields the characters that the bytes
/// encode.
#[verifier::external_body]
fn text_from_utf8(bytes: &[u8]) -> (text: Option<String>)
    ensures
        text is Some <==> valid_utf8(bytes@),
        text matches Some(t) ==> t@ == decode_utf8(bytes@),
{
    match std::str::from_utf8(bytes) {
        Ok(text) => Some(text.to_owned()),
        Err(_) => None,
    }
}

/// Appends the four bytes of `value`.
fn push_i32(out: &mut Vec<u8>, value: i32)
    ensures
        final(out)@ == old(out)@ + spec_encode_i32(value),
{
    let shifted: u32 = (value as i64 + 0x8000_0000) as u32;
    out.push((shifted / 0x100_0000) as u8);
    out.push(((shifted / 0x1_0000) % 0x100) as u8);
    out.push(((shifted / 0x100) % 0x100) as u8);
    out.push((shifted % 0x100) as u8);
    assert(out@ =~= old(out)@ + spec_encode_i32(value));
}

/// Appends the byte of `value`.
fn push_bool(out: &mut Vec<u8>, value: bool)
    ensures
        final(out)@ == old(out)@ + seq![spec_encode_bool(value)],
{
    if value {
        out.push(1);
    } else {
        out.push(0);
    }
    assert(out@ =~= old(out)@ + seq![spec_encode_bool(value)]);
}

/// Appends the UTF-8 bytes of `text`.
fn push_text(out: &mut Vec<u8>, text: &String)
    ensures
        final(out)@ == old(out)@ + encode_utf8(text@),
{
    let mut bytes = text.as_str().as_bytes_vec();
    out.append(&mut bytes);
}

/// Reads the number in the four bytes from position `at`.
fn read_i32(bytes: &[u8], at: usize) -> (value: i32)
    requires
        at + 4 <= bytes@.len(),
    ensures
        value == spec_decode_i32(bytes@.subrange(at as int, at + 4)),
{
    let shifted: u64 = bytes[at] as u64 * 0x100_0000 + bytes[at + 1] as u64 * 0x1_0000 + bytes[at
        + 2] as u64 * 0x100 + bytes[at + 3] as u64;
    (shifted as i64 - 0x8000_0000) as i32
}

/// Reads the text in the bytes from position `at` to the end.
fn read_text(bytes: &[u8], at: usize) -> (text: Option<String>)
    requires
        at <= bytes@.len(),
    ensures
        match text {
            Some(t) => spec_decode_text(bytes@.subrange(at as int, bytes@.len() as int)) == Some(
                t@,
            ),
            None => spec_decode_text(bytes@.subrange(at as int, bytes@.len() as int)) is None,
        },
{
    text_from_utf8(slice_subrange(bytes, at, bytes.len()))
}

/// Writes a message to bytes.
pub fn encode_message(message: &NetworkMessage) -> (bytes: Vec<u8>)
    ensures
        bytes@ == spec_encode(message@),
{
    let mut out: Vec<u8> = Vec::new();
    match message {
        NetworkMessage::MouseEvent(event) => {
            out.push(TAG_MOUSE_EVENT);
            push_i32(&mut out, event.x);
            push_i32(&mut out, event.y);
            push_bool(&mut out, event.pressed);
            push_i32(&mut out, event.wheel_x);
            push_i32(&mut out, event.wheel_y);
            match &event.button {
                None => {
                    out.push(0);
                },
                Some(name) => {
                    out.push(1);
                    push_text(&mut out, name);
                },
            }
        },
        NetworkMessage::ConnectionRequest { fingerprint } => {
            out.push(TAG_CONNECTION_REQUEST);
            push_text(&mut out, fingerprint);
        },
        NetworkMessage::ConnectionResponse { accepted, fingerprint } => {
            out.push(TAG_CONNECTION_RESPONSE);
            push_bool(&mut out, *accepted);
            push_text(&mut out, fingerprint);
        },
        NetworkMessage::Heartbeat => {
            out.push(TAG_HEARTBEAT);
        },
    }
    assert(out@ =~= spec_encode(message@));
    out
}

/// Reads a pointer event from the bytes after the tag.
fn decode_event(body: &[u8]) -> (event: Option<MouseEvent>)
    ensures
        match event {
            Some(e) => spec_decode_event(body@) == Some(e@),
            None => spec_decode_event(body@) is None,
        },
{
    let n = body.len();
    if n < EVENT_HEAD_LEN || body[8] > 1 || body[17] > 1 {
        return None;
    }
    let button = if body[17] == 0 {
        if n == EVENT_HEAD_LEN {
            None
        } else {
            return None;
        }
    } else {
        match read_text(body, EVENT_HEAD_LEN) {
            Some(name) => Some(name),
            None => {
                return None;
            },
        }
    };
    Some(
        MouseEvent {
            x: read_i32(body, 0),
            y: read_i32(body, 4),
            button,
            pressed: body[8] == 1,
            wheel_x: read_i32(body, 9),
            wheel_y: read_i32(body, 13),
        },
    )
}

/// Reads a message from bytes. Bytes that no message is written as are
/// refused.
pub fn decode_message(bytes: &[u8]) -> (message: Option<NetworkMessage>)
    ensures
        match message {
            Some(m) => spec_decode(bytes@) == Some(m@),
            None => spec_decode(bytes@) is None,
        },
{
    let n = bytes.len();
    if n == 0 {
        return None;
    }
    let tag = bytes[0];
    let body = slice_subrange(bytes, 1, n);
    if tag == TAG_MOUSE_EVENT {
        match decode_event(body) {
            Some(event) => Some(NetworkMessage::MouseEvent(event)),
            None => None,
        }
    } else if tag == TAG_CONNECTION_REQUEST {
        match read_text(body, 0) {
            Some(fingerprint) => {
                assert(body@.subrange(0, body@.len() as int) == body@);
                Some(NetworkMessage::ConnectionRequest { fingerprint })
            },
            None => {
                assert(body@.subrange(0, body@.len() as int) == body@);
                None
            },
        }
    } else if tag == TAG_CONNECTION_RESPONSE {
        if body.len() == 0 || body[0] > 1 {
            None
        } else {
            match read_text(body, 1) {
                Some(fingerprint) => Some(
                    NetworkMessage::ConnectionResponse { accepted: body[0] == 1, fingerprint },
                ),
                None => None,
            }
        }
    } else if tag == TAG_HEARTBEAT {
        if body.len() == 0 {
            Some(NetworkMessage::Heartbeat)
        } else {
            None
        }
    } else {
        None
    }
}

} // verus!
