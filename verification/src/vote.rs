//! The estimation values and the small enumerations of the protocol.

use vstd::prelude::*;

verus! {

/// A participant's estimate for an issue.
///
/// `Secret` stands in for a vote that is withheld from the reader; it is
/// produced when an issue is rendered for a participant and is never kept
/// by the coordinator. `Unknown` is the explicit abstention.
#[derive(Clone, Copy, Debug, PartialEq, Eq, Structural)]
pub enum Vote {
    Secret,
    Unknown,
    One,
    Two,
    Three,
    Five,
    Eight,
    Thirteen,
    TwentyOne,
    Infinite,
}

/// The phase an issue is in.
#[derive(Clone, Copy, Debug, PartialEq, Eq, Structural)]
pub enum VotingState {
    Opening,
    Voting,
    Closing,
}

/// Why a request to join a session was turned down.
#[derive(Clone, Copy, Debug, PartialEq, Eq, Structural)]
pub enum SessionJoinError {
    UnknownSession,
    ParticipantNameTaken,
}

} // verus!
