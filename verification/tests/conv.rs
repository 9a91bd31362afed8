//! End-to-end tests of the conversation exchange against host stubs: every
//! row of the classification table, the rejection of embedded nulls before
//! any host call, the echo round trip, and idempotence across calls.

use std::cell::Cell;
use std::rc::Rc;

use pam_conv::constants::{
    PAM_BINARY_PROMPT, PAM_CONV, PAM_ERROR_MSG, PAM_PROMPT_ECHO_OFF, PAM_PROMPT_ECHO_ON,
    PAM_RADIO_TYPE, PAM_SUCCESS, PAM_SYSTEM_ERR, PAM_TEXT_INFO,
};
use pam_conv::conv::{
    classify_reply, encode_message, Conversation, HostResponse, PamConv, PamItem, PamMessage,
};

/// Answers every message with a fixed status and a fixed response, and
/// counts how often it was invoked.
struct FixedStub {
    status: i32,
    payload: Option<Option<Vec<u8>>>,
    calls: Rc<Cell<usize>>,
    seen_style: Rc<Cell<i32>>,
}

impl FixedStub {
    fn new(status: i32, payload: Option<Option<Vec<u8>>>) -> FixedStub {
        FixedStub {
            status,
            payload,
            calls: Rc::new(Cell::new(0)),
            seen_style: Rc::new(Cell::new(-1)),
        }
    }

    fn response(&self) -> HostResponse {
        match &self.payload {
            None => HostResponse::Missing,
            Some(None) => HostResponse::NoReply,
            Some(Some(bytes)) => HostResponse::Reply(bytes.clone()),
        }
    }
}

impl Conversation for FixedStub {
    fn converse(&mut self, message: &PamMessage) -> (i32, HostResponse) {
        self.calls.set(self.calls.get() + 1);
        self.seen_style.set(message.style);
        (self.status, self.response())
    }
}

/// Echoes the text of each message back as the response payload, byte for
/// byte (without the wire terminator).
struct EchoStub {
    calls: Rc<Cell<usize>>,
}

impl Conversation for EchoStub {
    fn converse(&mut self, message: &PamMessage) -> (i32, HostResponse) {
        self.calls.set(self.calls.get() + 1);
        assert_eq!(message.text.last(), Some(&0u8), "wire text must be null-terminated");
        let payload = message.text[..message.text.len() - 1].to_vec();
        (PAM_SUCCESS, HostResponse::Reply(payload))
    }
}

#[test]
fn reply_text_is_delivered() {
    let stub = FixedStub::new(PAM_SUCCESS, Some(Some(b"secret word".to_vec())));
    let calls = stub.calls.clone();
    let mut conv = PamConv::new(stub);
    let r = conv.send(PAM_PROMPT_ECHO_OFF, "Password:");
    assert_eq!(r, Ok(Some("secret word".to_string())));
    assert_eq!(calls.get(), 1);
}

#[test]
fn reply_text_multibyte() {
    let stub = FixedStub::new(PAM_SUCCESS, Some(Some("héllo wörld".as_bytes().to_vec())));
    let mut conv = PamConv::new(stub);
    let r = conv.send(PAM_PROMPT_ECHO_ON, "Name?");
    assert_eq!(r, Ok(Some("héllo wörld".to_string())));
}

#[test]
fn null_payload_means_no_reply() {
    let stub = FixedStub::new(PAM_SUCCESS, Some(None));
    let mut conv = PamConv::new(stub);
    let r = conv.send(PAM_TEXT_INFO, "for your information");
    assert_eq!(r, Ok(None));
}

#[test]
fn missing_response_is_system_error() {
    let stub = FixedStub::new(PAM_SUCCESS, None);
    let mut conv = PamConv::new(stub);
    let r = conv.send(PAM_ERROR_MSG, "something went wrong");
    assert_eq!(r, Err(PAM_SYSTEM_ERR));
}

#[test]
fn failure_status_passes_through_verbatim() {
    // with a response present
    let stub = FixedStub::new(19, Some(Some(b"ignored".to_vec())));
    let mut conv = PamConv::new(stub);
    assert_eq!(conv.send(PAM_PROMPT_ECHO_ON, "q"), Err(19));

    // and without one
    let stub = FixedStub::new(30, None);
    let mut conv = PamConv::new(stub);
    assert_eq!(conv.send(PAM_RADIO_TYPE, "q"), Err(30));

    // the system-error code itself also passes through untouched
    let stub = FixedStub::new(PAM_SYSTEM_ERR, Some(None));
    let mut conv = PamConv::new(stub);
    assert_eq!(conv.send(PAM_BINARY_PROMPT, "q"), Err(PAM_SYSTEM_ERR));
}

#[test]
fn malformed_reply_is_system_error() {
    let stub = FixedStub::new(PAM_SUCCESS, Some(Some(vec![0xff, 0xfe, 0x80])));
    let mut conv = PamConv::new(stub);
    let r = conv.send(PAM_PROMPT_ECHO_ON, "Name?");
    assert_eq!(r, Err(PAM_SYSTEM_ERR));
}

#[test]
fn embedded_null_rejected_before_any_host_call() {
    let stub = FixedStub::new(PAM_SUCCESS, Some(Some(b"never seen".to_vec())));
    let calls = stub.calls.clone();
    let mut conv = PamConv::new(stub);
    let r = conv.send(PAM_PROMPT_ECHO_ON, "user\0name");
    assert_eq!(r, Err(PAM_SYSTEM_ERR));
    assert_eq!(calls.get(), 0, "the host stub must record zero invocations");
}

#[test]
fn echo_round_trip() {
    let calls = Rc::new(Cell::new(0));
    let mut conv = PamConv::new(EchoStub { calls: calls.clone() });
    for text in ["", "hello", "héllo wörld", "naïve — déjà vu ✓", "多字节"] {
        let r = conv.send(PAM_PROMPT_ECHO_ON, text);
        assert_eq!(r, Ok(Some(text.to_string())));
    }
    assert_eq!(calls.get(), 5);
}

#[test]
fn repeated_sends_are_identical() {
    let stub = FixedStub::new(PAM_SUCCESS, Some(Some(b"same answer".to_vec())));
    let calls = stub.calls.clone();
    let mut conv = PamConv::new(stub);
    let first = conv.send(PAM_PROMPT_ECHO_OFF, "Password:");
    let second = conv.send(PAM_PROMPT_ECHO_OFF, "Password:");
    let third = conv.send(PAM_PROMPT_ECHO_OFF, "Password:");
    assert_eq!(first, second);
    assert_eq!(second, third);
    assert_eq!(first, Ok(Some("same answer".to_string())));
    assert_eq!(calls.get(), 3, "each send makes exactly one host call");
}

#[test]
fn style_is_handed_through_to_the_host() {
    for style in [
        PAM_PROMPT_ECHO_OFF,
        PAM_PROMPT_ECHO_ON,
        PAM_ERROR_MSG,
        PAM_TEXT_INFO,
        PAM_RADIO_TYPE,
        PAM_BINARY_PROMPT,
    ] {
        let stub = FixedStub::new(PAM_SUCCESS, Some(None));
        let seen = stub.seen_style.clone();
        let mut conv = PamConv::new(stub);
        assert_eq!(conv.send(style, "hi"), Ok(None));
        assert_eq!(seen.get(), style);
    }
}

#[test]
fn encode_message_appends_exactly_one_terminator() {
    let m = encode_message(PAM_TEXT_INFO, "abc").expect("plain text must encode");
    assert_eq!(m.style, PAM_TEXT_INFO);
    assert_eq!(m.text, b"abc\0".to_vec());

    let empty = encode_message(PAM_TEXT_INFO, "").expect("empty text must encode");
    assert_eq!(empty.text, vec![0u8]);
}

#[test]
fn encode_message_rejects_embedded_null() {
    assert_eq!(encode_message(PAM_TEXT_INFO, "a\0b").err(), Some(PAM_SYSTEM_ERR));
    assert_eq!(encode_message(PAM_TEXT_INFO, "\0").err(), Some(PAM_SYSTEM_ERR));
}

#[test]
fn classify_reply_follows_the_decision_table() {
    assert_eq!(classify_reply(PAM_SUCCESS, HostResponse::Missing), Err(PAM_SYSTEM_ERR));
    assert_eq!(classify_reply(PAM_SUCCESS, HostResponse::NoReply), Ok(None));
    assert_eq!(
        classify_reply(PAM_SUCCESS, HostResponse::Reply(b"ok".to_vec())),
        Ok(Some("ok".to_string()))
    );
    assert_eq!(
        classify_reply(PAM_SUCCESS, HostResponse::Reply(vec![0xc3, 0x28])),
        Err(PAM_SYSTEM_ERR)
    );
    assert_eq!(classify_reply(6, HostResponse::Reply(b"ok".to_vec())), Err(6));
    assert_eq!(classify_reply(6, HostResponse::Missing), Err(6));
}

#[test]
fn conversation_handle_item_type() {
    assert_eq!(<PamConv<EchoStub> as PamItem>::item_type(), PAM_CONV);
    assert_eq!(PAM_CONV, 5);
}
