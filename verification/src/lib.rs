//! Coordinator for live planning-poker sessions.
//!
//! Participants join a shared session, vote privately on the current issue
//! and see every vote only once all of them have voted. The [`Registry`]
//! owns all session state; each of its operations takes one request and
//! returns the messages to hand to the affected participants.

pub mod config;
pub mod connection;
pub mod ids;
pub mod issue;
pub mod laws;
pub mod message;
pub mod model;
pub mod registry;
pub mod session;
pub mod static_files;
pub mod vote;
pub mod vote_map;

pub use issue::VotingIssue;
pub use message::{Disconnect, Outbound, PokerMessage};
pub use registry::Registry;
pub use session::{VotingParticipant, VotingSession};
pub use vote::{SessionJoinError, Vote, VotingState};
pub use vote_map::VoteMap;
