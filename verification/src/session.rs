//! The life of one client connection.
//!
//! A session starts `Connecting`. Once the transport's handshake is done it is
//! opened, which gives it an outbound queue and registers it. While `Open` it
//! takes what is read from the client, frame by frame, and says what is to be
//! replied. The end of the stream, or a failed read, makes it `Closing`;
//! closing it then removes its record from the registry and leaves it
//! `Closed`.
//!
//! A client may connect again under its identifier before its earlier session
//! is closed. The later session's record then takes the place of the earlier
//! one's, and the earlier session, once it closes, leaves that record alone:
//! a session removes only the record that it filed itself.
//!
//! Only opening and closing touch the registry, so that is all of a session
//! that a caller who shares the registry needs to guard.

use crate::registry::{is_holder, next_issued, Holders, Registry, SessionToken};
use crate::ws::{
    control_reply, control_reply_spec, Frame, OutboundHandle, OutboundMessage,
    OutboundMessageView, WsClient,
};
use tokio::sync::mpsc::UnboundedReceiver;
use vstd::prelude::*;

verus! {

/// Where a session stands in its life.
#[derive(Clone, Copy, Debug, PartialEq, Eq, Structural)]
pub enum SessionState {
    /// The handshake is under way; the client is not registered yet.
    Connecting,
    /// The client is registered and its frames are read.
    Open,
    /// Reading has ended; the session's record is still filed.
    Closing,
    /// The session has given up its record.
    Closed,
}

/// What one read from the client's connection gave.
#[derive(Debug, Clone, PartialEq, Eq)]
pub enum SessionInput {
    /// The client sent a frame.
    Frame(Frame),
    /// The read failed.
    TransportFailure,
    /// The client's stream has ended.
    EndOfStream,
}

/// The state that follows `state` once `input` was read. Only an open session
/// reads: frames keep it open, and anything else starts its closing.
pub open spec fn state_after(state: SessionState, input: SessionInput) -> SessionState {
    match state {
        SessionState::Open => match input {
            SessionInput::Frame(_) => SessionState::Open,
            _ => SessionState::Closing,
        },
        other => other,
    }
}

/// The text of the reply that `input`, read in `state`, calls for: that of
/// the control handler to a frame, while the session is open, and none
/// otherwise.
pub open spec fn reply_spec(state: SessionState, input: SessionInput) -> Option<Seq<char>> {
    match (state, input) {
        (SessionState::Open, SessionInput::Frame(frame)) => control_reply_spec(frame),
        _ => None,
    }
}

/// Whether the record filed under `id` is the one that the session with
/// `token` filed when it was opened. A session that was never opened has no
/// token and no record.
pub open spec fn is_own_record(holders: Holders, id: Seq<char>, token: Option<SessionToken>) -> bool {
    match token {
        Some(own) => is_holder(holders, id, own),
        None => false,
    }
}

/// One client connection, from handshake to teardown.
pub struct Session {
    client_id: String,
    state: SessionState,
    token: Option<SessionToken>,
}

impl Session {
    /// The identifier that the client connected under.
    pub closed spec fn id(&self) -> Seq<char> {
        self.client_id@
    }

    /// The state that the session is in.
    pub closed spec fn phase(&self) -> SessionState {
        self.state
    }

    /// The token of the registration that opened the session, once it was
    /// opened.
    pub closed spec fn token(&self) -> Option<SessionToken> {
        self.token
    }

    /// A session for a client whose handshake is under way.
    pub fn new(client_id: String) -> (session: Session)
        ensures
            session.id() == client_id@,
            session.phase() == SessionState::Connecting,
            session.token() is None,
    {
        Session { client_id, state: SessionState::Connecting, token: None }
    }

    /// The identifier that the client connected under.
    pub fn client_id(&self) -> (id: &str)
        ensures
            id@ == self.id(),
    {
        self.client_id.as_str()
    }

    /// The state that the session is in.
    #[verifier::when_used_as_spec(phase)]
    pub fn state(&self) -> (state: SessionState)
        ensures
            state == self.phase(),
    {
        self.state
    }

    /// Opens a connecting session on an outbound queue that the caller made:
    /// registers `sender` under the session's identifier, in place of any
    /// record that was there, and keeps the token of that registration. A
    /// session in any other state is left as it is, and so is the registry.
    pub fn open_with(&mut self, clients: &mut Registry, sender: OutboundHandle) -> (opened: bool)
        ensures
            final(self).id() == old(self).id(),
            opened == (old(self).phase() == SessionState::Connecting),
            opened ==> {
                &&& final(self).phase() == SessionState::Open
                &&& final(self).token() matches Some(token) && token == old(clients).issued()
                &&& final(clients)@ == old(clients)@.insert(old(self).id(), Some(sender))
                &&& final(clients).holders() == old(clients).holders().insert(
                    old(self).id(),
                    old(clients).issued() as SessionToken,
                )
                &&& final(clients).issued() == next_issued(old(clients).issued())
            },
            !opened ==> {
                &&& final(self).phase() == old(self).phase()
                &&& final(self).token() == old(self).token()
                &&& *final(clients) == *old(clients)
            },
    {
        match self.state {
            SessionState::Connecting => {
                let token = clients.register(WsClient::new(self.client_id.clone(), Some(sender)));
                self.token = Some(token);
                self.state = SessionState::Open;
                true
            },
            _ => false,
        }
    }

    /// Opens a connecting session: makes its outbound queue, registers the
    /// sending half as `open_with` does, and returns the receiving half for
    /// the connection's writer to drain. A session in any other state is left
    /// as it is, and so is the registry.
    pub fn open(&mut self, clients: &mut Registry) -> (receiver: Option<
        UnboundedReceiver<OutboundMessage>,
    >)
        ensures
            final(self).id() == old(self).id(),
            receiver is Some <==> old(self).phase() == SessionState::Connecting,
            old(self).phase() == SessionState::Connecting ==> {
                &&& final(self).phase() == SessionState::Open
                &&& final(self).token() matches Some(token) && token == old(clients).issued()
                &&& final(clients)@.contains_key(old(self).id())
                &&& final(clients)@[old(self).id()] is Some
                &&& final(clients)@ == old(clients)@.insert(
                    old(self).id(),
                    final(clients)@[old(self).id()],
                )
                &&& final(clients).holders() == old(clients).holders().insert(
                    old(self).id(),
                    old(clients).issued() as SessionToken,
                )
                &&& final(clients).issued() == next_issued(old(clients).issued())
            },
            old(self).phase() != SessionState::Connecting ==> {
                &&& final(self).phase() == old(self).phase()
                &&& final(self).token() == old(self).token()
                &&& *final(clients) == *old(clients)
            },
    {
        match self.state {
            SessionState::Connecting => {
                let (sender, receiver) = tokio::sync::mpsc::unbounded_channel::<OutboundMessage>();
                self.open_with(clients, sender);
                Some(receiver)
            },
            _ => None,
        }
    }

    /// Takes what was read from the client, and returns the reply that it
    /// calls for, if any. An open session hands a frame to the control handler
    /// and stays open; the end of the stream, or a failed read, starts its
    /// closing. In any other state nothing is read, and the input is dropped.
    pub fn receive(&mut self, input: SessionInput) -> (reply: Option<OutboundMessage>)
        ensures
            final(self).id() == old(self).id(),
            final(self).token() == old(self).token(),
            final(self).phase() == state_after(old(self).phase(), input),
            match reply {
                Some(message) => reply_spec(old(self).phase(), input) matches Some(text)
                    && message@ == OutboundMessageView::Text(text),
                None => reply_spec(old(self).phase(), input) is None,
            },
    {
        match self.state {
            SessionState::Open => match input {
                SessionInput::Frame(frame) => control_reply(&frame),
                _ => {
                    self.state = SessionState::Closing;
                    None
                },
            },
            _ => None,
        }
    }

    /// Closes a closing session: removes the record under its identifier from
    /// the registry if that record is still the session's own. Where another
    /// session has registered under the identifier since, its record stays. A
    /// session in any other state is left as it is, and so is the registry.
    pub fn close(&mut self, clients: &mut Registry)
        ensures
            final(self).id() == old(self).id(),
            final(self).token() == old(self).token(),
            old(self).phase() == SessionState::Closing ==> {
                &&& final(self).phase() == SessionState::Closed
                &&& final(clients)@ == (if is_own_record(
                    old(clients).holders(),
                    old(self).id(),
                    old(self).token(),
                ) {
                    old(clients)@.remove(old(self).id())
                } else {
                    old(clients)@
                })
                &&& final(clients).holders() == (if is_own_record(
                    old(clients).holders(),
                    old(self).id(),
                    old(self).token(),
                ) {
                    old(clients).holders().remove(old(self).id())
                } else {
                    old(clients).holders()
                })
                &&& final(clients).issued() == old(clients).issued()
                &&& is_own_record(old(clients).holders(), old(self).id(), old(self).token())
                    ==> !final(clients)@.contains_key(old(self).id())
            },
            old(self).phase() != SessionState::Closing ==> {
                &&& final(self).phase() == old(self).phase()
                &&& *final(clients) == *old(clients)
            },
    {
        match self.state {
            SessionState::Closing => {
                match self.token {
                    Some(token) => {
                        clients.release(self.client_id.as_str(), token);
                    },
                    None => {},
                }
                self.state = SessionState::Closed;
            },
            _ => {},
        }
    }
}

} // verus!
