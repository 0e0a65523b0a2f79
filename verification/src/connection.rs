//! What one client connection decides: what to do with a frame from the
//! socket, which identifiers a request carries to the coordinator, which
//! session the client is in, and when the client counts as gone.

use crate::message::{Disconnect, MessageView, PokerMessage};
use vstd::prelude::*;

verus! {

/// How often a heartbeat ping is sent, in seconds.
pub const HEARTBEAT_INTERVAL: u64 = 5;

/// How long a client may stay silent before the connection is closed, in
/// seconds.
pub const CLIENT_TIMEOUT: u64 = 10;

/// The session identifier of a connection that is in no session.
pub const NO_SESSION: u32 = 0;

/// One frame received from a client's socket.
#[derive(Debug)]
pub enum Frame {
    Text(String),
    Binary,
    Ping,
    Pong,
    Close,
}

/// What to do about a frame.
#[derive(Debug)]
pub enum Received {
    /// The text holds a request to decode and hand to the coordinator.
    Request(String),
    /// There is nothing to do.
    Nothing,
    /// The client has gone: the connection is to be closed.
    Closed,
}

/// A decision about a frame as a mathematical value.
pub enum ReceivedView {
    Request(Seq<char>),
    Nothing,
    Closed,
}

impl View for Received {
    type V = ReceivedView;

    open spec fn view(&self) -> ReceivedView {
        match *self {
            Received::Request(text) => ReceivedView::Request(text@),
            Received::Nothing => ReceivedView::Nothing,
            Received::Closed => ReceivedView::Closed,
        }
    }
}

/// What is to be done about what the socket delivered: `None` stands for a
/// failed read. A text frame holds a request; binary, ping and pong frames
/// need nothing; a close frame or a failed read ends the connection.
pub open spec fn decided(msg: Option<Frame>) -> ReceivedView {
    match msg {
        Some(Frame::Text(text)) => ReceivedView::Request(text@),
        Some(Frame::Binary) | Some(Frame::Ping) | Some(Frame::Pong) => ReceivedView::Nothing,
        Some(Frame::Close) | None => ReceivedView::Closed,
    }
}

/// Decides what to do about what the socket delivered.
pub fn process_websocket_message(msg: Option<Frame>) -> (received: Received)
    ensures
        received@ == decided(msg),
{
    match msg {
        Some(frame) => match frame {
            Frame::Text(text) => Received::Request(text),
            Frame::Binary => Received::Nothing,
            Frame::Ping => Received::Nothing,
            Frame::Pong => Received::Nothing,
            Frame::Close => Received::Closed,
        },
        None => Received::Closed,
    }
}

/// A request with the identifiers that the connection vouches for in place
/// of whatever the client wrote: the participant in every request, and the
/// session in the requests that act within the client's session.
pub open spec fn stamped(msg: MessageView, participant: u32, session: u32) -> MessageView {
    match msg {
        MessageView::CreateSessionRequest { participant_id, participant_name } => {
            MessageView::CreateSessionRequest { participant_id: participant, participant_name }
        },
        MessageView::JoinSessionRequest { participant_id, session_id, participant_name } => {
            MessageView::JoinSessionRequest {
                participant_id: participant,
                session_id,
                participant_name,
            }
        },
        MessageView::TopicChangeRequest { participant_id, session_id, trello_card } => {
            MessageView::TopicChangeRequest {
                participant_id: participant,
                session_id: session,
                trello_card,
            }
        },
        MessageView::VoteRequest { participant_id, session_id, issue_id, vote } => {
            MessageView::VoteRequest {
                participant_id: participant,
                session_id: session,
                issue_id,
                vote,
            }
        },
        MessageView::VoteRevelationRequest { participant_id, issue_id } => {
            MessageView::VoteRevelationRequest { participant_id: participant, issue_id }
        },
        other => other,
    }
}

/// Whether a silence since `last_seen` has lasted longer than a client is
/// allowed at `now`.
pub open spec fn is_timed_out(last_seen: u64, now: u64) -> bool {
    now - last_seen > CLIENT_TIMEOUT
}

/// The state of one client connection.
#[derive(Clone, Copy, Debug, PartialEq, Eq, Structural)]
pub struct Connection {
    /// The identifier that the coordinator assigned on connect.
    pub participant_id: u32,
    /// The session the client is in, or `NO_SESSION`.
    pub session_id: u32,
    /// When the client last gave a sign of life, in seconds.
    pub last_seen: u64,
}

impl Connection {
    /// The connection of `participant_id`, opened at `now`, in no session.
    pub fn new(participant_id: u32, now: u64) -> (connection: Connection)
        ensures
            connection == (Connection { participant_id, session_id: NO_SESSION, last_seen: now }),
    {
        Connection { participant_id, session_id: NO_SESSION, last_seen: now }
    }

    /// Puts the identifiers of this connection on a request from the client.
    pub fn stamp(&self, msg: PokerMessage) -> (request: PokerMessage)
        ensures
            request@ == stamped(msg@, self.participant_id, self.session_id),
    {
        match msg {
            PokerMessage::CreateSessionRequest { participant_id, participant_name } => {
                PokerMessage::CreateSessionRequest {
                    participant_id: self.participant_id,
                    participant_name,
                }
            },
            PokerMessage::JoinSessionRequest { participant_id, session_id, participant_name } => {
                PokerMessage::JoinSessionRequest {
                    participant_id: self.participant_id,
                    session_id,
                    participant_name,
                }
            },
            PokerMessage::TopicChangeRequest { participant_id, session_id, trello_card } => {
                PokerMessage::TopicChangeRequest {
                    participant_id: self.participant_id,
                    session_id: self.session_id,
                    trello_card,
                }
            },
            PokerMessage::VoteRequest { participant_id, session_id, issue_id, vote } => {
                PokerMessage::VoteRequest {
                    participant_id: self.participant_id,
                    session_id: self.session_id,
                    issue_id,
                    vote,
                }
            },
            PokerMessage::VoteRevelationRequest { participant_id, issue_id } => {
                PokerMessage::VoteRevelationRequest {
                    participant_id: self.participant_id,
                    issue_id,
                }
            },
            other => other,
        }
    }

    /// Takes what the socket delivered at `now`; `None` stands for a failed
    /// read. Any frame but a close frame is a sign of life. The result says
    /// what to do about the frame.
    pub fn receive(&mut self, msg: Option<Frame>, now: u64) -> (received: Received)
        ensures
            received@ == decided(msg),
            *final(self) == if msg is Some && msg != Some(Frame::Close) {
                Connection { last_seen: now, ..*old(self) }
            } else {
                *old(self)
            },
    {
        match &msg {
            Some(Frame::Close) => {},
            Some(_) => {
                self.last_seen = now;
            },
            None => {},
        }
        process_websocket_message(msg)
    }

    /// Takes note of a message from the coordinator on its way to the
    /// client: the state of a session tells which session the client is in.
    pub fn note_outbound(&mut self, msg: &PokerMessage)
        ensures
            *final(self) == (Connection {
                session_id: match msg@ {
                    MessageView::SessionInfoResponse { session_id, .. } => session_id,
                    _ => old(self).session_id,
                },
                ..*old(self)
            }),
    {
        match msg {
            PokerMessage::SessionInfoResponse { session_id, .. } => {
                self.session_id = *session_id;
            },
            _ => {},
        }
    }

    /// Takes note of a sign of life from the client at `now`.
    pub fn note_alive(&mut self, now: u64)
        ensures
            *final(self) == (Connection { last_seen: now, ..*old(self) }),
    {
        self.last_seen = now;
    }

    /// Whether the client has been silent for longer than it is allowed.
    pub fn timed_out(&self, now: u64) -> (gone: bool)
        ensures
            gone == is_timed_out(self.last_seen, now),
    {
        now > self.last_seen && now - self.last_seen > CLIENT_TIMEOUT
    }

    /// The notice to give the coordinator when this connection closes.
    pub fn disconnect(&self) -> (notice: Disconnect)
        ensures
            notice == (Disconnect {
                participant_id: self.participant_id,
                session_id: self.session_id,
            }),
    {
        Disconnect { participant_id: self.participant_id, session_id: self.session_id }
    }
}

} // verus!
