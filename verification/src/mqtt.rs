//! Decoding broker messages into routable events.
//!
//! A broker message is a topic and a payload of raw bytes. It names its
//! destination in one of two ways, chosen once per deployment: in an envelope,
//! a JSON object in the payload that holds the client identifier beside the
//! message text, or in the topic, whose last segment is the identifier while
//! the payload is the message text itself.

use crate::json::{json_document, parse_document, text_field, text_member};
use serde_json::Value;
use std::string::FromUtf8Error;
use vstd::prelude::*;
use vstd::slice::slice_to_vec;
use vstd::string::StrSliceExecFns;
use vstd::utf8::{decode_utf8, valid_utf8};

verus! {

/// Why a broker message could not be decoded.
#[derive(Clone, Copy, Debug, PartialEq, Eq, Structural)]
pub enum DecodeError {
    /// The payload is not a JSON object with a string `client_id` and a string
    /// `message`, or is not text at all.
    MalformedEnvelope,
    /// The payload of a message addressed by its topic is not valid UTF-8.
    InvalidPayloadEncoding,
    /// The topic has no segment to take an identifier from. Every topic has a
    /// last segment, if an empty one, so `decode` never reports this.
    MissingTopicSegment,
}

/// How a deployment addresses its broker messages.
#[derive(Clone, Copy, Debug, PartialEq, Eq, Structural)]
pub enum DecodeMode {
    /// The payload is an envelope that holds identifier and message.
    Envelope,
    /// The last segment of the topic is the identifier.
    TopicSuffix,
}

/// An envelope: the identifier of the client a message is for, and the
/// message.
#[derive(Debug)]
pub struct MqttMessage<T> {
    pub client_id: String,
    pub message: T,
}

/// An `MqttMessage` with its identifier as a sequence of characters and its
/// message by its view.
pub struct MqttMessageView<M> {
    pub client_id: Seq<char>,
    pub message: M,
}

impl<T: View> View for MqttMessage<T> {
    type V = MqttMessageView<T::V>;

    open spec fn view(&self) -> MqttMessageView<T::V> {
        MqttMessageView { client_id: self.client_id@, message: self.message@ }
    }
}

/// A decoded broker message: where it goes and what it says.
#[derive(Debug)]
pub struct RoutableEvent {
    pub destination_id: String,
    pub body: String,
}

/// A `RoutableEvent` as plain sequences of characters.
pub struct RoutableEventView {
    pub destination_id: Seq<char>,
    pub body: Seq<char>,
}

impl View for RoutableEvent {
    type V = RoutableEventView;

    open spec fn view(&self) -> RoutableEventView {
        RoutableEventView { destination_id: self.destination_id@, body: self.body@ }
    }
}

/// `std::string::FromUtf8Error`, the error of `String::from_utf8`.
#[verifier::external_type_specification]
#[verifier::external_body]
pub struct ExFromUtf8Error(FromUtf8Error);

/// `String::from_utf8` checks that the bytes are valid UTF-8 and, where they
/// are, returns the string made of exactly those bytes; otherwise it returns
/// an error.
pub assume_specification[ String::from_utf8 ](bytes: Vec<u8>) -> (text: Result<
    String,
    FromUtf8Error,
>)
    ensures
        match text {
            Ok(s) => valid_utf8(bytes@) && s@ == decode_utf8(bytes@),
            Err(_) => !valid_utf8(bytes@),
        },
;

/// The text that `payload` encodes, if it is valid UTF-8.
pub open spec fn payload_text(payload: Seq<u8>) -> Option<Seq<char>> {
    if valid_utf8(payload) {
        Some(decode_utf8(payload))
    } else {
        None
    }
}

/// Reads `payload` as UTF-8 text.
pub fn decode_text(payload: &[u8]) -> (text: Option<String>)
    ensures
        match text {
            Some(s) => payload_text(payload@) == Some(s@),
            None => payload_text(payload@) is None,
        },
{
    match String::from_utf8(slice_to_vec(payload)) {
        Ok(s) => Some(s),
        Err(_) => None,
    }
}

/// Where the last segment of `topic` starts: just after its last `/`, or at 0
/// where it has none.
pub open spec fn last_segment_start(topic: Seq<char>) -> int
    decreases topic.len(),
{
    if topic.len() == 0 {
        0
    } else if topic.last() == '/' {
        topic.len() as int
    } else {
        last_segment_start(topic.drop_last())
    }
}

/// The final path segment of `topic`, segments being separated by `/`.
pub open spec fn last_segment(topic: Seq<char>) -> Seq<char> {
    topic.subrange(last_segment_start(topic), topic.len() as int)
}

/// The last segment starts within the topic, directly behind a `/` unless it
/// starts the topic, and holds no `/` itself.
pub proof fn lemma_last_segment_start(topic: Seq<char>)
    ensures
        0 <= last_segment_start(topic) <= topic.len(),
        last_segment_start(topic) > 0 ==> topic[last_segment_start(topic) - 1] == '/',
        forall|i: int| last_segment_start(topic) <= i < topic.len() ==> topic[i] != '/',
    decreases topic.len(),
{
    if topic.len() > 0 && topic.last() != '/' {
        let front = topic.drop_last();
        lemma_last_segment_start(front);
        assert forall|i: int| last_segment_start(topic) <= i < topic.len() implies topic[i]
            != '/' by {
            if i < front.len() {
                assert(front[i] == topic[i]);
            }
        }
    }
}

/// The client identifier that a topic carries: its final path segment. A topic
/// without a `/` is its own last segment, and one that ends in `/`, or is
/// empty, has the empty segment.
pub fn extract_client_from_topic(topic: &str) -> (segment: Option<&str>)
    ensures
        segment matches Some(s) && s@ == last_segment(topic@),
{
    let n: usize = topic.unicode_len();
    let mut start: usize = 0;
    let mut i: usize = 0;
    for c in it: topic.chars()
        invariant
            n == topic@.len(),
            i == it.index(),
            it.seq() == topic@,
            i <= n,
            start == last_segment_start(topic@.take(i as int)),
    {
        proof {
            let before = topic@.take(i as int);
            let after = topic@.take(i + 1);
            assert(after.drop_last() =~= before);
            assert(after.last() == c);
        }
        i = i + 1;
        if c == '/' {
            start = i;
        }
    }
    proof {
        assert(topic@.take(n as int) =~= topic@);
        lemma_last_segment_start(topic@);
    }
    Some(topic.substring_char(start, n))
}

/// The envelope made of the two fields, which must both be there.
pub open spec fn envelope_of_fields(
    client_id: Option<Seq<char>>,
    message: Option<Seq<char>>,
) -> Option<MqttMessageView<Seq<char>>> {
    match (client_id, message) {
        (Some(c), Some(m)) => Some(MqttMessageView { client_id: c, message: m }),
        _ => None,
    }
}

/// The envelope that a JSON document holds: its string members `client_id`
/// and `message`. Other members are ignored.
pub open spec fn envelope_of_document(document: Value) -> Option<MqttMessageView<Seq<char>>> {
    envelope_of_fields(text_member(document, "client_id"@), text_member(document, "message"@))
}

/// The envelope that a payload holds: the payload must be UTF-8 text, the text
/// a JSON document, and the document an envelope.
pub open spec fn envelope_of_payload(payload: Seq<u8>) -> Option<MqttMessageView<Seq<char>>> {
    match payload_text(payload) {
        Some(text) => match json_document(text) {
            Some(document) => envelope_of_document(document),
            None => None,
        },
        None => None,
    }
}

impl MqttMessage<String> {
    /// Makes an envelope of the two fields read from a document, and fails
    /// where either is missing.
    pub fn from_fields(client_id: Option<String>, message: Option<String>) -> (envelope: Result<
        MqttMessage<String>,
        DecodeError,
    >)
        ensures
            match envelope {
                Ok(m) => client_id == Some(m.client_id) && message == Some(m.message),
                Err(e) => e == DecodeError::MalformedEnvelope && (client_id is None || message
                    is None),
            },
    {
        match client_id {
            Some(c) => match message {
                Some(m) => Ok(MqttMessage { client_id: c, message: m }),
                None => Err(DecodeError::MalformedEnvelope),
            },
            None => Err(DecodeError::MalformedEnvelope),
        }
    }

    /// Reads the envelope out of a parsed JSON document.
    pub fn from_document(document: &Value) -> (envelope: Result<MqttMessage<String>, DecodeError>)
        ensures
            match envelope {
                Ok(m) => envelope_of_document(*document) == Some(m@),
                Err(e) => e == DecodeError::MalformedEnvelope && envelope_of_document(*document)
                    is None,
            },
    {
        let client_id = text_field(document, "client_id");
        let message = text_field(document, "message");
        MqttMessage::from_fields(client_id, message)
    }
}

impl<'a> TryFrom<&'a [u8]> for MqttMessage<String> {
    type Error = DecodeError;

    /// Decodes an envelope from a raw payload.
    fn try_from(value: &'a [u8]) -> (envelope: Result<MqttMessage<String>, DecodeError>)
        ensures
            match envelope {
                Ok(m) => envelope_of_payload(value@) == Some(m@),
                Err(e) => e == DecodeError::MalformedEnvelope && envelope_of_payload(value@)
                    is None,
            },
    {
        match decode_text(value) {
            Some(serialized_value) => match parse_document(serialized_value.as_str()) {
                Ok(document) => MqttMessage::from_document(&document),
                Err(_) => Err(DecodeError::MalformedEnvelope),
            },
            None => Err(DecodeError::MalformedEnvelope),
        }
    }
}

/// `try_from` states its result over views, on the method itself. A `String`
/// is known to the proofs by its view alone, so no spec function can name the
/// very value that comes back, and the law of the std trait is not claimed.
impl<'a> vstd::std_specs::convert::TryFromSpecImpl<&'a [u8]> for MqttMessage<String> {
    open spec fn obeys_try_from_spec() -> bool {
        false
    }

    open spec fn try_from_spec(value: &'a [u8]) -> Result<MqttMessage<String>, DecodeError> {
        Err(DecodeError::MalformedEnvelope)
    }
}

/// What a broker message decodes to under `mode`.
pub open spec fn decode_spec(mode: DecodeMode, topic: Seq<char>, payload: Seq<u8>) -> Result<
    RoutableEventView,
    DecodeError,
> {
    match mode {
        DecodeMode::Envelope => match envelope_of_payload(payload) {
            Some(envelope) => Ok(
                RoutableEventView { destination_id: envelope.client_id, body: envelope.message },
            ),
            None => Err(DecodeError::MalformedEnvelope),
        },
        DecodeMode::TopicSuffix => match payload_text(payload) {
            Some(text) => Ok(
                RoutableEventView { destination_id: last_segment(topic), body: text },
            ),
            None => Err(DecodeError::InvalidPayloadEncoding),
        },
    }
}

/// The outcome of a decoding, with the event by its view.
pub open spec fn decoded_view(decoded: Result<RoutableEvent, DecodeError>) -> Result<
    RoutableEventView,
    DecodeError,
> {
    match decoded {
        Ok(event) => Ok(event@),
        Err(e) => Err(e),
    }
}

/// Decodes one broker message into the event to route, or says why it cannot
/// be routed.
pub fn decode(mode: DecodeMode, topic: &str, payload: &[u8]) -> (decoded: Result<
    RoutableEvent,
    DecodeError,
>)
    ensures
        decoded_view(decoded) == decode_spec(mode, topic@, payload@),
        !(decoded matches Err(DecodeError::MissingTopicSegment)),
{
    match mode {
        DecodeMode::Envelope => match MqttMessage::<String>::try_from(payload) {
            Ok(envelope) => Ok(
                RoutableEvent { destination_id: envelope.client_id, body: envelope.message },
            ),
            Err(e) => Err(e),
        },
        DecodeMode::TopicSuffix => match extract_client_from_topic(topic) {
            Some(client_id) => match decode_text(payload) {
                Some(message) => Ok(
                    RoutableEvent { destination_id: client_id.to_owned(), body: message },
                ),
                None => Err(DecodeError::InvalidPayloadEncoding),
            },
            None => Err(DecodeError::MissingTopicSegment),
        },
    }
}

/// Bytes that are not valid UTF-8 decode to an error in either mode.
pub proof fn lemma_invalid_text_is_rejected(mode: DecodeMode, topic: Seq<char>, payload: Seq<u8>)
    requires
        !valid_utf8(payload),
    ensures
        decode_spec(mode, topic, payload) is Err,
{
}

} // verus!
