//! The SLCAN codec: turns the byte stream of a serial device into
//! [`SlCanMessage`]s, and frames into bytes for the device.

use super::{
    is_start_of_frame, spec_try_create, MessageView, SlCanError, SlCanFrame, SlCanMessage,
    SLCAN_ACK, SLCAN_NACK,
};
use crate::buffer::{
    buffer_advance, buffer_bytes, buffer_extend_from_slice, buffer_reserve, buffer_slice,
    buffer_split_to,
};
use bytes::BytesMut;
use vstd::prelude::*;
use vstd::utf8::{
    char_is_scalar, char_u32_cast, decode_utf8, encode_scalar, encode_utf8, encode_utf8_decode_utf8,
    decode_utf8_encode_utf8, encode_utf8_valid_utf8, has_width_1_encoding, has_width_2_encoding, has_width_3_encoding,
    is_scalar, last_continuation_byte, leading_byte_width_1, leading_byte_width_2,
    leading_byte_width_3, leading_byte_width_4, second_last_continuation_byte,
    third_last_continuation_byte, valid_utf8,
};

verus! {

/// `core::str::from_utf8`: its documentation promises the string with the
/// same bytes exactly when they are valid UTF-8, and an error otherwise.
pub assume_specification[ core::str::from_utf8 ](v: &[u8]) -> (r: Result<&str, core::str::Utf8Error>)
    ensures
        r is Ok <==> valid_utf8(v@),
        r matches Ok(s) ==> s@ == decode_utf8(v@),
;

/// A byte that ends a message: the acknowledgement or the refusal byte.
pub open spec fn is_terminator(b: u8) -> bool {
    b == SLCAN_ACK || b == SLCAN_NACK
}

/// `n` is the position of the first terminator in `bytes`.
pub open spec fn is_first_terminator(bytes: Seq<u8>, n: int) -> bool {
    &&& 0 <= n < bytes.len()
    &&& is_terminator(bytes[n])
    &&& forall|i: int| 0 <= i < n ==> !is_terminator(#[trigger] bytes[i])
}

/// Some byte of `bytes` is a terminator.
pub open spec fn has_terminator(bytes: Seq<u8>) -> bool {
    exists|i: int| 0 <= i < bytes.len() && is_terminator(#[trigger] bytes[i])
}

/// The length of the first message in `bytes`: up to and including its
/// first terminator.
pub open spec fn message_len(bytes: Seq<u8>) -> int {
    (choose|n: int| is_first_terminator(bytes, n)) + 1
}

/// The frame text that a received message (terminator included) carries,
/// if it is UTF-8 and starts with a start-of-frame character.
pub open spec fn received_frame(message: Seq<u8>) -> Option<Seq<char>> {
    if valid_utf8(message) {
        match spec_try_create(decode_utf8(message)) {
            Ok(text) => Some(text),
            Err(_) => None,
        }
    } else {
        None
    }
}

/// One decoding step on the held bytes: how many bytes it consumes and the
/// message it yields, if any. Nothing is consumed until a terminator has
/// arrived; a leading terminator is an acknowledgement or a refusal; any
/// other message is consumed whole and yields a frame only if it is one.
pub open spec fn spec_decode(bytes: Seq<u8>) -> (int, Option<MessageView>) {
    if !has_terminator(bytes) {
        (0, None)
    } else if bytes[0] == SLCAN_ACK {
        (1, Some(MessageView::Ack))
    } else if bytes[0] == SLCAN_NACK {
        (1, Some(MessageView::Nack))
    } else {
        let n = message_len(bytes);
        (
            n,
            match received_frame(bytes.take(n)) {
                Some(text) => Some(MessageView::Frame(text)),
                None => None,
            },
        )
    }
}

/// The held bytes on which decoding cannot go on: the pending message is
/// UTF-8 but its first character is wider than one byte.
pub open spec fn decode_panics(bytes: Seq<u8>) -> bool {
    &&& has_terminator(bytes)
    &&& !is_terminator(bytes[0])
    &&& {
        let m = bytes.take(message_len(bytes));
        valid_utf8(m) && decode_utf8(m).len() > 0 && decode_utf8(m)[0] > '\u{7f}'
    }
}

/// A decoded message, taken by its model.
pub open spec fn message_option_view(m: Option<SlCanMessage>) -> Option<MessageView> {
    match m {
        Some(msg) => Some(msg@),
        None => None,
    }
}

/// Two first terminators of the same bytes are the same position.
proof fn lemma_first_terminator_unique(bytes: Seq<u8>, n: int)
    requires
        is_first_terminator(bytes, n),
    ensures
        message_len(bytes) == n + 1,
        has_terminator(bytes),
{
    let m = choose|k: int| is_first_terminator(bytes, k);
    assert(is_first_terminator(bytes, m));
    if m < n {
        assert(!is_terminator(bytes[m]));
    } else if n < m {
        assert(!is_terminator(bytes[n]));
    }
    assert(is_terminator(bytes[n]));
}

/// The UTF-8 bytes of a scalar other than CR (13) and BEL (7) hold no
/// terminator: a one-byte encoding is the scalar itself, and every byte of
/// a longer encoding has its top bit set.
proof fn lemma_scalar_holds_no_terminator(s: u32)
    requires
        is_scalar(s),
        s != 13,
        s != 7,
    ensures
        forall|i: int|
            0 <= i < encode_scalar(s).len() ==> !is_terminator(#[trigger] encode_scalar(s)[i]),
{
    if has_width_1_encoding(s) {
        assert(leading_byte_width_1(s) != 13u8 && leading_byte_width_1(s) != 7u8) by (bit_vector)
            requires
                s <= 0x7F,
                s != 13,
                s != 7,
        ;
    } else if has_width_2_encoding(s) {
        assert(leading_byte_width_2(s) >= 0x80u8 && last_continuation_byte(s) >= 0x80u8)
            by (bit_vector);
    } else if has_width_3_encoding(s) {
        assert(leading_byte_width_3(s) >= 0x80u8 && second_last_continuation_byte(s) >= 0x80u8
            && last_continuation_byte(s) >= 0x80u8) by (bit_vector);
    } else {
        assert(leading_byte_width_4(s) >= 0x80u8 && third_last_continuation_byte(s) >= 0x80u8
            && second_last_continuation_byte(s) >= 0x80u8 && last_continuation_byte(s) >= 0x80u8)
            by (bit_vector);
    }
}

/// Text without CR and BEL characters encodes to bytes without terminators.
proof fn lemma_text_holds_no_terminator(text: Seq<char>)
    requires
        forall|i: int| 0 <= i < text.len() ==> #[trigger] text[i] != '\r' && text[i] != '\u{7}',
    ensures
        forall|i: int|
            0 <= i < encode_utf8(text).len() ==> !is_terminator(#[trigger] encode_utf8(text)[i]),
    decreases text.len(),
{
    if text.len() > 0 {
        let c = text[0];
        let u = c as u32;
        char_is_scalar(c);
        if u == 13 || u == 7 {
            char_u32_cast(c, u);
            assert(false);
        }
        lemma_scalar_holds_no_terminator(u);
        lemma_text_holds_no_terminator(text.drop_first());
        let head = encode_scalar(u);
        let tail = encode_utf8(text.drop_first());
        assert(encode_utf8(text) == head + tail);
        assert forall|i: int| 0 <= i < encode_utf8(text).len() implies !is_terminator(
            #[trigger] encode_utf8(text)[i],
        ) by {
            if i < head.len() {
                assert(encode_utf8(text)[i] == head[i]);
            } else {
                assert(encode_utf8(text)[i] == tail[i - head.len()]);
            }
        }
    }
}

/// Encoding text with one more character appends that character's bytes.
proof fn lemma_encode_push(text: Seq<char>, c: char)
    ensures
        encode_utf8(text.push(c)) == encode_utf8(text) + encode_scalar(c as u32),
    decreases text.len(),
{
    if text.len() == 0 {
        assert(text.push(c).drop_first() =~= Seq::<char>::empty());
        assert(encode_utf8(Seq::<char>::empty()) =~= Seq::<u8>::empty());
        assert(encode_utf8(text.push(c)) =~= encode_scalar(c as u32));
    } else {
        assert(text.push(c).drop_first() =~= text.drop_first().push(c));
        lemma_encode_push(text.drop_first(), c);
        assert(encode_utf8(text.push(c)) =~= encode_utf8(text) + encode_scalar(c as u32));
    }
}

/// The position of the first terminator in `bytes`, if any.
fn find_terminator(bytes: &[u8]) -> (pos: Option<usize>)
    ensures
        match pos {
            Some(n) => is_first_terminator(bytes@, n as int),
            None => !has_terminator(bytes@),
        },
{
    let len = bytes.len();
    let mut i: usize = 0;
    while i < len
        invariant
            len == bytes@.len(),
            i <= len,
            forall|j: int| 0 <= j < i ==> !is_terminator(#[trigger] bytes@[j]),
        decreases len - i,
    {
        let b = bytes[i];
        if b == SLCAN_ACK || b == SLCAN_NACK {
            return Some(i);
        }
        i = i + 1;
    }
    None
}

/// A frame written by [`SlCanCodec::encode`] and read back by
/// [`SlCanCodec::decode`] comes out whole, with the terminating carriage
/// return kept at its end, and no byte after it is consumed. This holds for
/// any frame whose text opens with a start-of-frame character and holds no
/// CR or BEL character (those would end the message early).
pub proof fn law_encoded_frame_decodes(text: Seq<char>, rest: Seq<u8>)
    requires
        text.len() > 0,
        is_start_of_frame(text[0]),
        forall|i: int| 0 <= i < text.len() ==> #[trigger] text[i] != '\r' && text[i] != '\u{7}',
    ensures
        ({
            let bytes = encode_utf8(text) + seq![SLCAN_ACK] + rest;
            &&& spec_can_decode(bytes)
            &&& spec_decode(bytes) == (
                encode_utf8(text).len() + 1int,
                Some(MessageView::Frame(text.push('\r'))),
            )
        }),
{
    let e = encode_utf8(text);
    let n = e.len() as int;
    let bytes = e + seq![SLCAN_ACK] + rest;
    lemma_text_holds_no_terminator(text);
    assert(e == encode_scalar(text[0] as u32) + encode_utf8(text.drop_first()));
    assert(e.len() > 0);
    assert forall|i: int| 0 <= i < n implies !is_terminator(#[trigger] bytes[i]) by {
        assert(bytes[i] == e[i]);
    }
    assert(bytes[n] == SLCAN_ACK);
    assert(is_first_terminator(bytes, n));
    lemma_first_terminator_unique(bytes, n);
    assert(bytes[0] == e[0]);
    let m = bytes.take(n + 1);
    lemma_encode_push(text, '\r');
    assert(encode_scalar('\r' as u32) =~= seq![SLCAN_ACK]) by {
        assert(leading_byte_width_1(13u32) == 13u8) by (bit_vector);
    }
    assert(m =~= encode_utf8(text.push('\r')));
    encode_utf8_valid_utf8(text.push('\r'));
    encode_utf8_decode_utf8(text.push('\r'));
    assert(text.push('\r')[0] == text[0]);
}

/// A lone ACK or NACK byte at the front of the held bytes is taken as an
/// acknowledgement or a refusal, and nothing after it is consumed.
pub proof fn law_reply_byte_decodes(reply: u8, rest: Seq<u8>)
    requires
        is_terminator(reply),
    ensures
        ({
            let bytes = seq![reply] + rest;
            &&& spec_can_decode(bytes)
            &&& spec_decode(bytes) == (
                1int,
                Some(if reply == SLCAN_ACK { MessageView::Ack } else { MessageView::Nack }),
            )
        }),
{
    let bytes = seq![reply] + rest;
    assert(bytes[0] == reply);
    assert(has_terminator(bytes));
}

/// Until an ACK (0x0D) or NACK (0x07) byte has arrived, decoding yields no
/// message and consumes nothing, however many bytes are held: a frame that
/// arrives in pieces is kept until its terminator comes.
pub proof fn law_decode_waits_for_terminator(bytes: Seq<u8>)
    requires
        forall|i: int| 0 <= i < bytes.len() ==> #[trigger] bytes[i] != 0x0Du8 && bytes[i] != 0x07u8,
    ensures
        spec_decode(bytes).0 == 0,
        spec_decode(bytes).1 is None,
{
    assert(!has_terminator(bytes));
}

/// Once a terminator has arrived at position `n` (the first ACK or NACK
/// byte), decoding consumes exactly the bytes up to and including it. A
/// terminator at the front is an acknowledgement (CR) or a refusal (BEL);
/// otherwise any frame it yields has exactly the consumed bytes as its
/// UTF-8 text, and it yields one exactly when the consumed bytes are UTF-8
/// opening with a start-of-frame character.
pub proof fn law_decode_consumes_first_message(bytes: Seq<u8>, n: int)
    requires
        0 <= n < bytes.len(),
        bytes[n] == 0x0Du8 || bytes[n] == 0x07u8,
        forall|i: int| 0 <= i < n ==> #[trigger] bytes[i] != 0x0Du8 && bytes[i] != 0x07u8,
    ensures
        spec_decode(bytes).0 == n + 1,
        n == 0 && bytes[0] == 0x0Du8 ==> spec_decode(bytes).1 == Some(MessageView::Ack),
        n == 0 && bytes[0] == 0x07u8 ==> spec_decode(bytes).1 == Some(MessageView::Nack),
        spec_decode(bytes).1 matches Some(MessageView::Frame(text)) ==> n > 0 && encode_utf8(text)
            == bytes.take(n + 1),
        n > 0 ==> (spec_decode(bytes).1 is Some <==> {
            let chars = decode_utf8(bytes.take(n + 1));
            &&& valid_utf8(bytes.take(n + 1))
            &&& (chars[0] == 'r' || chars[0] == 'R' || chars[0] == 't' || chars[0] == 'T'
                || chars[0] == 'O' || chars[0] == 'C')
        }),
        n > 0 && spec_decode(bytes).1 is Some ==> spec_decode(bytes).1->0 is Frame,
{
    assert(is_first_terminator(bytes, n));
    lemma_first_terminator_unique(bytes, n);
    if !is_terminator(bytes[0]) {
        let m = bytes.take(n + 1);
        if valid_utf8(m) {
            decode_utf8_encode_utf8(m);
            assert(decode_utf8(m).len() > 0) by {
                assert(m.len() > 0);
            }
        }
    }
}

/// Whether decoding the held bytes can go on (see [`decode_panics`]).
pub open spec fn spec_can_decode(bytes: Seq<u8>) -> bool {
    !decode_panics(bytes)
}

/// Decodes [`SlCanMessage`]s from, and encodes [`SlCanFrame`]s into, the
/// byte buffers of a serial device stream.
#[derive(Debug)]
pub struct SlCanCodec;

impl SlCanCodec {
    /// Takes the next message out of the bytes received so far.
    ///
    /// Returns `Ok(None)` and consumes nothing while no terminator has
    /// arrived. A leading ACK or NACK byte is consumed alone. Otherwise the
    /// whole message up to its terminator is consumed; it yields a frame
    /// when it is UTF-8 and starts with a start-of-frame character, and is
    /// dropped (`Ok(None)`) otherwise.
    pub fn decode(&mut self, src: &mut BytesMut) -> (res: Result<Option<SlCanMessage>, SlCanError>)
        requires
            spec_can_decode(buffer_bytes(*old(src))),
        ensures
            res matches Ok(m) && message_option_view(m) == spec_decode(buffer_bytes(*old(src))).1,
            buffer_bytes(*final(src)) == buffer_bytes(*old(src)).skip(
                spec_decode(buffer_bytes(*old(src))).0,
            ),
    {
        let ghost held = buffer_bytes(*src);
        let eom = find_terminator(buffer_slice(src));
        if let Some(n) = eom {
            proof {
                lemma_first_terminator_unique(held, n as int);
            }
            let first = buffer_slice(src)[0];
            if first == SLCAN_ACK {
                buffer_advance(src, 1);
                return Ok(Some(SlCanMessage::Ack));
            } else if first == SLCAN_NACK {
                buffer_advance(src, 1);
                return Ok(Some(SlCanMessage::Nack));
            }
            let message = buffer_split_to(src, n + 1);
            let res = match core::str::from_utf8(buffer_slice(&message)) {
                Ok(s) => match SlCanFrame::try_create(s) {
                    Ok(f) => Ok(Some(SlCanMessage::Frame(f))),
                    Err(e) => Err(e),
                },
                Err(e) => Err(SlCanError::Utf8Error(e)),
            };
            if res.is_err() {
                return Ok(None);
            }
            return res;
        }
        Ok(None)
    }

    /// Tells whether [`SlCanCodec::decode`] can take the next message out of
    /// these bytes: it cannot when the pending message is UTF-8 and opens
    /// with a character wider than one byte.
    pub fn can_decode(&self, src: &BytesMut) -> (ok: bool)
        ensures
            ok == spec_can_decode(buffer_bytes(*src)),
    {
        let bytes = buffer_slice(src);
        match find_terminator(bytes) {
            None => true,
            Some(n) => {
                proof {
                    lemma_first_terminator_unique(bytes@, n as int);
                }
                if bytes[0] == SLCAN_ACK || bytes[0] == SLCAN_NACK {
                    true
                } else {
                    let message = &bytes[0..n + 1];
                    assert(message@ =~= bytes@.take(n + 1));
                    match core::str::from_utf8(message) {
                        Err(_) => true,
                        Ok(s) => s.is_empty() || s.get_char(0) <= '\u{7f}',
                    }
                }
            },
        }
    }

    /// Appends the frame's bytes and the terminating ACK byte.
    ///
    /// Stated for 64-bit targets, and for buffers that stay under
    /// `isize::MAX / 2` bytes: past that, growing the buffer can panic
    /// depending on how it sits in its allocation.
    pub fn encode(&mut self, item: SlCanFrame, dst: &mut BytesMut) -> (res: Result<(), SlCanError>)
        requires
            usize::BITS == 64,
            buffer_bytes(*old(dst)).len() + encode_utf8(item@).len() + 1 <= isize::MAX / 2,
        ensures
            res is Ok,
            buffer_bytes(*final(dst)) == buffer_bytes(*old(dst)) + encode_utf8(item@) + seq![
                SLCAN_ACK,
            ],
    {
        let item_bytes = item.as_bytes();
        buffer_reserve(dst, item_bytes.len() + 1);
        buffer_extend_from_slice(dst, item_bytes);
        let ack = [SLCAN_ACK];
        buffer_extend_from_slice(dst, &ack);
        Ok(())
    }
}

} // verus!
