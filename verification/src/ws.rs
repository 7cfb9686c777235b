//! Connected clients, the frames they send and the messages they are sent.

use crate::registry::{delivery_spec, Delivery, Registry};
use tokio::sync::mpsc::UnboundedSender;
use vstd::prelude::*;
use vstd::string::StrSliceExecFns;

verus! {

/// A frame to write to a client: text or binary, and nothing else.
#[derive(Debug, Clone, PartialEq, Eq)]
pub enum OutboundMessage {
    Text(String),
    Binary(Vec<u8>),
}

/// An `OutboundMessage` by the view of what it holds.
pub enum OutboundMessageView {
    Text(Seq<char>),
    Binary(Seq<u8>),
}

impl View for OutboundMessage {
    type V = OutboundMessageView;

    open spec fn view(&self) -> OutboundMessageView {
        match self {
            OutboundMessage::Text(text) => OutboundMessageView::Text(text@),
            OutboundMessage::Binary(bytes) => OutboundMessageView::Binary(bytes@),
        }
    }
}

/// The sending half of one connection's outbound queue. The connection's
/// writer drains the other half, in the order of enqueueing.
pub type OutboundHandle = UnboundedSender<OutboundMessage>;

/// One connected client.
#[derive(Debug)]
pub struct WsClient {
    pub client_id: String,
    /// `None` where the connection has no writable side.
    pub sender: Option<OutboundHandle>,
}

impl WsClient {
    /// The record of the client `client_id` with its outbound handle.
    pub fn new(client_id: String, sender: Option<OutboundHandle>) -> (client: WsClient)
        ensures
            client.client_id == client_id,
            client.sender == sender,
    {
        WsClient { client_id, sender }
    }
}

impl Clone for WsClient {
    /// A second record of the same client, with a handle on the same queue.
    fn clone(&self) -> (copy: WsClient)
        ensures
            copy == *self,
    {
        let sender = match &self.sender {
            Some(handle) => Some(handle.clone()),
            None => None,
        };
        WsClient { client_id: self.client_id.clone(), sender }
    }
}

/// A frame that a client sent.
#[derive(Debug, Clone, PartialEq, Eq)]
pub enum Frame {
    Text(String),
    Binary(Vec<u8>),
    Ping(Vec<u8>),
    Pong(Vec<u8>),
    Close,
}

/// `c` is the letter `lower` in either case.
pub open spec fn is_letter(c: char, lower: char, upper: char) -> bool {
    c == lower || c == upper
}

/// `word` spells "ping", in any mix of upper and lower case.
pub open spec fn is_ping_word(word: Seq<char>) -> bool {
    &&& word.len() == 4
    &&& is_letter(word[0], 'p', 'P')
    &&& is_letter(word[1], 'i', 'I')
    &&& is_letter(word[2], 'n', 'N')
    &&& is_letter(word[3], 'g', 'G')
}

/// `text` is the liveness probe: the word "ping" in any case, alone or
/// followed by one line feed.
pub open spec fn liveness_probe(text: Seq<char>) -> bool {
    is_ping_word(text) || (text.len() == 5 && text[4] == '\n' && is_ping_word(text.take(4)))
}

/// The text that answers `frame`, if it calls for an answer: "pong" to a
/// liveness probe, and nothing to anything else.
pub open spec fn control_reply_spec(frame: Frame) -> Option<Seq<char>> {
    match frame {
        Frame::Text(text) => if liveness_probe(text@) {
            Some("pong"@)
        } else {
            None
        },
        _ => None,
    }
}

/// Tells whether `text` is the liveness probe.
pub fn is_liveness_probe(text: &str) -> (probe: bool)
    ensures
        probe == liveness_probe(text@),
{
    let n: usize = text.unicode_len();
    if n == 4 || (n == 5 && text.get_char(4) == '\n') {
        let c0 = text.get_char(0);
        let c1 = text.get_char(1);
        let c2 = text.get_char(2);
        let c3 = text.get_char(3);
        (c0 == 'p' || c0 == 'P') && (c1 == 'i' || c1 == 'I') && (c2 == 'n' || c2 == 'N') && (c3
            == 'g' || c3 == 'G')
    } else {
        false
    }
}

/// The reply that a frame from a client calls for. Text that is no probe,
/// and every frame that is not text, is taken and gets no reply.
pub fn control_reply(frame: &Frame) -> (reply: Option<OutboundMessage>)
    ensures
        match reply {
            Some(message) => control_reply_spec(*frame) matches Some(text) && message@
                == OutboundMessageView::Text(text),
            None => control_reply_spec(*frame) is None,
        },
{
    match frame {
        Frame::Text(text) => if is_liveness_probe(text.as_str()) {
            Some(OutboundMessage::Text("pong".to_owned()))
        } else {
            None
        },
        _ => None,
    }
}

/// Handles one frame that the client `client_id` sent: a liveness probe is
/// answered on that client's own queue, found by a fresh lookup. The result is
/// what became of the answer, or `None` where none was due.
pub fn client_message(client_id: &str, msg: &Frame, clients: &Registry) -> (outcome: Option<
    Delivery,
>)
    ensures
        match outcome {
            Some(delivery) => control_reply_spec(*msg) is Some && delivery_spec(
                clients@,
                client_id@,
                delivery,
            ),
            None => control_reply_spec(*msg) is None,
        },
{
    match control_reply(msg) {
        Some(reply) => Some(clients.deliver(client_id, reply)),
        None => None,
    }
}

/// `c` with an upper-case ASCII letter turned into its lower-case form.
pub open spec fn ascii_lower(c: char) -> char {
    if 'A' <= c && c <= 'Z' {
        ((c as u8) + 32) as char
    } else {
        c
    }
}

/// `text` with its upper-case ASCII letters turned into lower case.
pub open spec fn ascii_lowercase(text: Seq<char>) -> Seq<char> {
    text.map_values(|c: char| ascii_lower(c))
}

/// The texts "ping" and "ping\n" are liveness probes, and so is every text
/// that differs from one of them only in the case of its letters, and no
/// other. A text frame is answered exactly where its text is a probe, and
/// then with the one text "pong".
pub proof fn lemma_probe_is_ping_in_any_case(text: String)
    ensures
        liveness_probe("ping"@),
        liveness_probe("ping\n"@),
        liveness_probe(text@) <==> (ascii_lowercase(text@) == "ping"@ || ascii_lowercase(text@)
            == "ping\n"@),
        control_reply_spec(Frame::Text(text)) is Some <==> liveness_probe(text@),
        control_reply_spec(Frame::Text(text)) is Some ==> control_reply_spec(Frame::Text(text))
            == Some("pong"@),
{
    reveal_strlit("ping");
    reveal_strlit("ping\n");
    let folded = ascii_lowercase(text@);
    assert(folded.len() == text@.len());
    if liveness_probe(text@) {
        if text@.len() == 4 {
            assert(folded =~= "ping"@);
        } else {
            assert(text@.take(4)[0] == text@[0]);
            assert(folded =~= "ping\n"@);
        }
    }
    if folded == "ping"@ {
        assert(folded[0] == 'p' && folded[1] == 'i' && folded[2] == 'n' && folded[3] == 'g');
    }
    if folded == "ping\n"@ {
        assert(folded[0] == 'p' && folded[1] == 'i' && folded[2] == 'n' && folded[3] == 'g'
            && folded[4] == '\n');
        assert(text@.take(4)[0] == text@[0]);
    }
}

} // verus!
