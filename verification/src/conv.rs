//! The conversation exchange itself: encoding one outbound message, handing
//! it to the host-supplied callback, and classifying what came back into the
//! three-way result every caller pattern-matches on.

use vstd::prelude::*;

verus! {

use vstd::utf8::{
    decode_utf8, encode_scalar, encode_utf8, has_width_1_encoding, has_width_2_encoding,
    has_width_3_encoding, last_continuation_byte, leading_byte_width_1, leading_byte_width_2,
    leading_byte_width_3, leading_byte_width_4, second_last_continuation_byte,
    third_last_continuation_byte, valid_utf8,
};

use crate::constants::{
    PamItemType, PamMessageStyle, PamResult, PamResultCode, PAM_CONV, PAM_SUCCESS, PAM_SYSTEM_ERR,
};

/// A single outbound message, ready to cross the host boundary: a
/// presentation style and the text as a null-terminated byte buffer.
pub struct PamMessage {
    /// How the host should present the text.
    pub style: PamMessageStyle,
    /// The UTF-8 bytes of the text, followed by exactly one null byte.
    pub text: Vec<u8>,
}

/// The byte encoding of `text` on the wire: its UTF-8 bytes followed by the
/// terminating null byte.
pub open spec fn wire_bytes(text: Seq<char>) -> Seq<u8> {
    encode_utf8(text).push(0u8)
}

/// Text can cross the boundary exactly when its UTF-8 encoding contains no
/// embedded null byte, since the wire format marks the end of the text with
/// a null.
pub open spec fn encodable(text: Seq<char>) -> bool {
    !encode_utf8(text).contains(0u8)
}

/// Reports whether the byte buffer contains a null byte.
fn contains_nul(bytes: &Vec<u8>) -> (r: bool)
    ensures
        r == bytes@.contains(0u8),
{
    let mut i: usize = 0;
    while i < bytes.len()
        invariant
            i <= bytes@.len(),
            forall|k: int| 0 <= k < i ==> bytes@[k] != 0u8,
        decreases bytes@.len() - i,
    {
        if bytes[i] == 0u8 {
            assert(bytes@[i as int] == 0u8);
            return true;
        }
        i += 1;
    }
    false
}

/// Builds the wire form of one message: the text's UTF-8 bytes with a null
/// terminator appended. Text whose encoding already holds a null byte cannot
/// be terminated unambiguously and is rejected as a system error before any
/// host call.
pub fn encode_message(style: PamMessageStyle, text: &str) -> (r: PamResult<PamMessage>)
    ensures
        encodable(text@) ==> (r matches Ok(m) && m.style == style && m.text@ == wire_bytes(text@)),
        !encodable(text@) ==> r == Err::<PamMessage, PamResultCode>(PAM_SYSTEM_ERR),
{
    let mut bytes = text.as_bytes_vec();
    if contains_nul(&bytes) {
        return Err(PAM_SYSTEM_ERR);
    }
    bytes.push(0u8);
    Ok(PamMessage { style, text: bytes })
}

/// The host's answer to one exchange, as the response slot stands after the
/// callback returned. The raw boundary distinguishes a missing response
/// buffer, a response whose payload pointer is null, and a response carrying
/// payload bytes; this type keeps all three apart.
pub enum HostResponse {
    /// The host left the response slot null.
    Missing,
    /// The host produced a response whose payload is null: the exchange
    /// succeeded but no reply was provided.
    NoReply,
    /// The host produced a response with payload bytes (the bytes up to, and
    /// not including, their terminating null).
    Reply(Vec<u8>),
}

impl View for HostResponse {
    type V = Option<Option<Seq<u8>>>;

    /// The outer `Option` is the response buffer itself, the inner one its
    /// payload.
    open spec fn view(&self) -> Option<Option<Seq<u8>>> {
        match self {
            HostResponse::Missing => None,
            HostResponse::NoReply => Some(None),
            HostResponse::Reply(payload) => Some(Some(payload@)),
        }
    }
}

/// The decision table that folds everything the host can do into the
/// three-way result:
///
/// - a non-success status is passed through verbatim, whatever stands in the
///   response slot;
/// - success with no response buffer is the host breaking its contract: a
///   system error;
/// - success with a response but no payload is a successful exchange with no
///   reply;
/// - success with payload bytes yields the decoded text, or a system error
///   where the bytes are not valid UTF-8.
pub open spec fn classified(status: PamResultCode, response: Option<Option<Seq<u8>>>) -> Result<
    Option<Seq<char>>,
    PamResultCode,
> {
    if status != PAM_SUCCESS {
        Err(status)
    } else {
        match response {
            None => Err(PAM_SYSTEM_ERR),
            Some(None) => Ok(None),
            Some(Some(payload)) => if valid_utf8(payload) {
                Ok(Some(decode_utf8(payload)))
            } else {
                Err(PAM_SYSTEM_ERR)
            },
        }
    }
}

/// The reply and status code seen at the spec level: the reply text as a
/// character sequence, the codes unchanged.
pub open spec fn result_view(r: PamResult<Option<String>>) -> Result<
    Option<Seq<char>>,
    PamResultCode,
> {
    match r {
        Ok(Some(text)) => Ok(Some(text@)),
        Ok(None) => Ok(None),
        Err(code) => Err(code),
    }
}

/// Relies on `String::from_utf8`: it returns the string decoded from the
/// bytes exactly when they are valid UTF-8, and refuses them otherwise.
#[verifier::external_body]
fn decode_text(bytes: Vec<u8>) -> (r: Option<String>)
    ensures
        match r {
            Some(text) => valid_utf8(bytes@) && text@ == decode_utf8(bytes@),
            None => !valid_utf8(bytes@),
        },
{
    String::from_utf8(bytes).ok()
}

/// Classifies one host answer into the three-way result, following
/// [`classified`] exactly.
pub fn classify_reply(status: PamResultCode, response: HostResponse) -> (r: PamResult<
    Option<String>,
>)
    ensures
        result_view(r) == classified(status, response@),
{
    if status != PAM_SUCCESS {
        Err(status)
    } else {
        match response {
            HostResponse::Missing => Err(PAM_SYSTEM_ERR),
            HostResponse::NoReply => Ok(None),
            HostResponse::Reply(payload) => match decode_text(payload) {
                Some(text) => Ok(Some(text)),
                None => Err(PAM_SYSTEM_ERR),
            },
        }
    }
}

/// The host side of one exchange. The host framework implements this with
/// the callback it registered for the authentication attempt; it presents
/// the message to the party being authenticated and reports a status code
/// together with whatever it left in the response slot. The call is
/// synchronous: it returns only once the host has produced, or failed to
/// produce, a response.
pub trait Conversation {
    /// Present one message and collect the host's status code and response.
    fn converse(&mut self, message: &PamMessage) -> (PamResultCode, HostResponse);
}

/// `PamConv` acts as a channel for communicating with the user.
///
/// Communication is mediated by the client of the host framework (the
/// application that started the authentication attempt). Messages sent will
/// be relayed to the user by the client, and the response will be relayed
/// back. The handle holds nothing beyond the host's conversation capability:
/// no state of its own carries over from one exchange to the next.
pub struct PamConv<C: Conversation> {
    conv: C,
}

impl<C: Conversation> PamConv<C> {
    /// The host conversation capability this handle wraps.
    pub closed spec fn transport(&self) -> C {
        self.conv
    }

    /// Wraps the host's conversation capability in a handle.
    pub fn new(conv: C) -> (r: PamConv<C>)
        ensures
            r.transport() == conv,
    {
        PamConv { conv }
    }

    /// Sends a message to the pam client.
    ///
    /// This will typically result in the user seeing a message or a prompt.
    /// There are several message styles available:
    ///
    /// - `PAM_PROMPT_ECHO_OFF`
    /// - `PAM_PROMPT_ECHO_ON`
    /// - `PAM_ERROR_MSG`
    /// - `PAM_TEXT_INFO`
    /// - `PAM_RADIO_TYPE`
    /// - `PAM_BINARY_PROMPT`
    ///
    /// Note that the user experience will depend on how the client
    /// implements these message styles - and not all applications implement
    /// all message styles.
    ///
    /// Text whose encoding holds an embedded null byte is rejected as a
    /// system error before the host is invoked at all; the handle is then
    /// left exactly as it was. Otherwise exactly one exchange is made, and
    /// the result is the classification of whatever the host answered.
    pub fn send(&mut self, style: PamMessageStyle, msg: &str) -> (r: PamResult<Option<String>>)
        ensures
            !encodable(msg@) ==> r == Err::<Option<String>, PamResultCode>(PAM_SYSTEM_ERR)
                && *final(self) == *old(self),
            exists|status: PamResultCode, response: Option<Option<Seq<u8>>>|
                result_view(r) == #[trigger] classified(status, response),
    {
        match encode_message(style, msg) {
            Err(code) => {
                proof {
                    assert(result_view(Err(code)) == classified(PAM_SYSTEM_ERR, None));
                }
                Err(code)
            },
            Ok(message) => {
                let (status, response) = self.conv.converse(&message);
                let ghost response_view = response@;
                let result = classify_reply(status, response);
                result
            },
        }
    }
}

/// Implemented by capabilities that the host framework files per session and
/// hands back out on request, each under its own item-type tag.
pub trait PamItem {
    /// The item-type tag under which the host framework files this value.
    fn item_type() -> PamItemType;
}

impl<C: Conversation> PamItem for PamConv<C> {
    /// The conversation handle is filed under the conversation tag.
    fn item_type() -> (r: PamItemType)
        ensures
            r == PAM_CONV,
    {
        PAM_CONV
    }
}

/// A successful exchange whose response payload is valid UTF-8 yields
/// exactly that payload, decoded.
pub proof fn lemma_reply_text(payload: Seq<u8>)
    requires
        valid_utf8(payload),
    ensures
        classified(PAM_SUCCESS, Some(Some(payload))) == Ok::<Option<Seq<char>>, PamResultCode>(
            Some(decode_utf8(payload)),
        ),
{
}

/// A successful exchange whose response carries no payload yields success
/// with no reply.
pub proof fn lemma_reply_absent()
    ensures
        classified(PAM_SUCCESS, Some(None)) == Ok::<Option<Seq<char>>, PamResultCode>(None),
{
}

/// A success status without a response buffer is a broken host contract and
/// yields a system error.
pub proof fn lemma_response_missing()
    ensures
        classified(PAM_SUCCESS, None) == Err::<Option<Seq<char>>, PamResultCode>(PAM_SYSTEM_ERR),
{
}

/// Any non-success status is passed through verbatim, whatever stands in
/// the response slot.
pub proof fn lemma_host_failure_verbatim(status: PamResultCode, response: Option<Option<Seq<u8>>>)
    requires
        status != PAM_SUCCESS,
    ensures
        classified(status, response) == Err::<Option<Seq<char>>, PamResultCode>(status),
{
}

/// A successful exchange whose response payload is not valid UTF-8 yields a
/// system error.
pub proof fn lemma_reply_malformed(payload: Seq<u8>)
    requires
        !valid_utf8(payload),
    ensures
        classified(PAM_SUCCESS, Some(Some(payload))) == Err::<Option<Seq<char>>, PamResultCode>(
            PAM_SYSTEM_ERR,
        ),
{
}

/// The encoding of a single Unicode scalar contains a null byte exactly
/// when the scalar is the null scalar itself: every byte of a multi-byte
/// encoding has one of its two top bits set.
proof fn lemma_encode_scalar_null(scalar: u32)
    requires
        vstd::utf8::is_scalar(scalar),
    ensures
        encode_scalar(scalar).contains(0u8) <==> scalar == 0,
{
    if has_width_1_encoding(scalar) {
        let b = leading_byte_width_1(scalar);
        assert(b == 0 <==> scalar == 0) by (bit_vector)
            requires
                b == (scalar & 0x7F) as u8,
                scalar < 0x80,
        ;
        if scalar == 0 {
            assert(encode_scalar(scalar)[0] == 0u8);
        }
    } else if has_width_2_encoding(scalar) {
        let b1 = leading_byte_width_2(scalar);
        let b2 = last_continuation_byte(scalar);
        assert(b1 != 0 && b2 != 0) by (bit_vector)
            requires
                b1 == 0xC0 | ((scalar >> 6) & 0x1F) as u8,
                b2 == 0x80 | (scalar & 0x3F) as u8,
        ;
    } else if has_width_3_encoding(scalar) {
        let b1 = leading_byte_width_3(scalar);
        let b2 = second_last_continuation_byte(scalar);
        let b3 = last_continuation_byte(scalar);
        assert(b1 != 0 && b2 != 0 && b3 != 0) by (bit_vector)
            requires
                b1 == 0xE0 | ((scalar >> 12) & 0x0F) as u8,
                b2 == 0x80 | ((scalar >> 6) & 0x3F) as u8,
                b3 == 0x80 | (scalar & 0x3F) as u8,
        ;
    } else {
        let b1 = leading_byte_width_4(scalar);
        let b2 = third_last_continuation_byte(scalar);
        let b3 = second_last_continuation_byte(scalar);
        let b4 = last_continuation_byte(scalar);
        assert(b1 != 0 && b2 != 0 && b3 != 0 && b4 != 0) by (bit_vector)
            requires
                b1 == 0xF0 | ((scalar >> 18) & 0x7) as u8,
                b2 == 0x80 | ((scalar >> 12) & 0x3F) as u8,
                b3 == 0x80 | ((scalar >> 6) & 0x3F) as u8,
                b4 == 0x80 | (scalar & 0x3F) as u8,
        ;
    }
}

/// Text is encodable exactly when it contains no null character: the wire
/// format's byte-level condition and the caller's view of it coincide,
/// because UTF-8 puts a null byte in the encoding only for the null
/// character itself.
pub proof fn lemma_encodable_no_null_char(text: Seq<char>)
    ensures
        encodable(text) <==> !text.contains('\0'),
    decreases text.len(),
{
    if text.len() == 0 {
        assert(!text.contains('\0'));
        assert(!encode_utf8(text).contains(0u8));
    } else {
        vstd::utf8::char_is_scalar(text[0]);
        let head = text[0] as u32;
        let first = encode_scalar(head);
        let rest = encode_utf8(text.drop_first());
        assert(encode_utf8(text) == first + rest);
        lemma_encode_scalar_null(head);
        lemma_encodable_no_null_char(text.drop_first());
        vstd::utf8::char_u32_cast(text[0], head);
        if (first + rest).contains(0u8) {
            let i = choose|i: int| 0 <= i < (first + rest).len() && (first + rest)[i] == 0u8;
            if i < first.len() {
                assert(first[i] == 0u8);
                assert(first.contains(0u8));
                assert(text[0] == '\0');
                assert(text.contains('\0'));
            } else {
                assert(rest[i - first.len()] == 0u8);
                assert(rest.contains(0u8));
                let j = choose|j: int|
                    0 <= j < text.drop_first().len() && text.drop_first()[j] == '\0';
                assert(text[j + 1] == '\0');
                assert(text.contains('\0'));
            }
        }
        if text.contains('\0') {
            let i = choose|i: int| 0 <= i < text.len() && text[i] == '\0';
            if i == 0 {
                assert(head == 0);
                let k = choose|k: int| 0 <= k < first.len() && first[k] == 0u8;
                assert((first + rest)[k] == 0u8);
                assert((first + rest).contains(0u8));
            } else {
                assert(text.drop_first()[i - 1] == '\0');
                assert(text.drop_first().contains('\0'));
                let k = choose|k: int| 0 <= k < rest.len() && rest[k] == 0u8;
                assert((first + rest)[k + first.len()] == 0u8);
                assert((first + rest).contains(0u8));
            }
        }
    }
}

/// Round trip: a host that echoes back the encoded text of a message, byte
/// for byte, hands the caller exactly the text that was sent.
pub proof fn lemma_round_trip(text: Seq<char>)
    ensures
        wire_bytes(text).take(wire_bytes(text).len() - 1) == encode_utf8(text),
        classified(PAM_SUCCESS, Some(Some(encode_utf8(text)))) == Ok::<
            Option<Seq<char>>,
            PamResultCode,
        >(Some(text)),
{
    broadcast use vstd::utf8::encode_utf8_valid_utf8, vstd::utf8::encode_utf8_decode_utf8;

    assert(wire_bytes(text).take(wire_bytes(text).len() - 1) =~= encode_utf8(text));
}

} // verus!
