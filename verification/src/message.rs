//! The messages exchanged between the clients and the coordinator.

use crate::issue::{IssueView, VotingIssue};
use crate::session::names_view;
use crate::vote::{SessionJoinError, Vote};
use crate::vote_map::VoteMap;
use vstd::prelude::*;

verus! {

/// Notice that a connection has closed.
#[derive(Clone, Copy, Debug, PartialEq, Eq, Structural)]
pub struct Disconnect {
    pub participant_id: u32,
    pub session_id: u32,
}

/// One message of the protocol. Requests travel from a client to the
/// coordinator; responses and announcements travel the other way.
#[derive(Debug)]
pub enum PokerMessage {
    /// A client asks for a new session.
    CreateSessionRequest { participant_id: u32, participant_name: String },
    /// A client asks to join a session.
    JoinSessionRequest { participant_id: u32, session_id: u32, participant_name: String },
    /// The coordinator tells a client the state of its session.
    SessionInfoResponse {
        session_id: u32,
        current_issue: VotingIssue,
        current_participants: Vec<String>,
    },
    /// The coordinator tells a client that it could not join.
    SessionJoinErrorResponse { session_id: u32, error: SessionJoinError },
    /// The coordinator tells the others that a participant has joined.
    ParticipantJoinAnnouncement { participant_name: String },
    /// The coordinator tells the others that a participant has left.
    ParticipantLeaveAnnouncement { participant_name: String },
    /// A client asks to change the topic.
    TopicChangeRequest { participant_id: u32, session_id: u32, trello_card: String },
    /// The coordinator announces the issue that is now open.
    VotingIssueAnnouncement { voting_issue: VotingIssue },
    /// A client casts its vote.
    VoteRequest { participant_id: u32, session_id: u32, issue_id: u32, vote: Vote },
    /// The coordinator announces that a participant has voted.
    VoteReceiptAnnouncement { participant_name: String, issue_id: u32 },
    /// A client asks for the votes to be revealed.
    VoteRevelationRequest { participant_id: u32, issue_id: u32 },
    /// The coordinator reveals every vote and the outcome.
    VotingResultsRevelation { issue_id: u32, votes: VoteMap, outcome: Vote },
}

/// A message as a mathematical value.
#[verifier::ext_equal]
pub enum MessageView {
    CreateSessionRequest { participant_id: u32, participant_name: Seq<char> },
    JoinSessionRequest { participant_id: u32, session_id: u32, participant_name: Seq<char> },
    SessionInfoResponse {
        session_id: u32,
        current_issue: IssueView,
        current_participants: Seq<Seq<char>>,
    },
    SessionJoinErrorResponse { session_id: u32, error: SessionJoinError },
    ParticipantJoinAnnouncement { participant_name: Seq<char> },
    ParticipantLeaveAnnouncement { participant_name: Seq<char> },
    TopicChangeRequest { participant_id: u32, session_id: u32, trello_card: Seq<char> },
    VotingIssueAnnouncement { voting_issue: IssueView },
    VoteRequest { participant_id: u32, session_id: u32, issue_id: u32, vote: Vote },
    VoteReceiptAnnouncement { participant_name: Seq<char>, issue_id: u32 },
    VoteRevelationRequest { participant_id: u32, issue_id: u32 },
    VotingResultsRevelation { issue_id: u32, votes: Map<Seq<char>, Vote>, outcome: Vote },
}

impl View for PokerMessage {
    type V = MessageView;

    open spec fn view(&self) -> MessageView {
        match *self {
            PokerMessage::CreateSessionRequest { participant_id, participant_name } => {
                MessageView::CreateSessionRequest {
                    participant_id,
                    participant_name: participant_name@,
                }
            },
            PokerMessage::JoinSessionRequest { participant_id, session_id, participant_name } => {
                MessageView::JoinSessionRequest {
                    participant_id,
                    session_id,
                    participant_name: participant_name@,
                }
            },
            PokerMessage::SessionInfoResponse {
                session_id,
                current_issue,
                current_participants,
            } => {
                MessageView::SessionInfoResponse {
                    session_id,
                    current_issue: current_issue@,
                    current_participants: names_view(current_participants@),
                }
            },
            PokerMessage::SessionJoinErrorResponse { session_id, error } => {
                MessageView::SessionJoinErrorResponse { session_id, error }
            },
            PokerMessage::ParticipantJoinAnnouncement { participant_name } => {
                MessageView::ParticipantJoinAnnouncement { participant_name: participant_name@ }
            },
            PokerMessage::ParticipantLeaveAnnouncement { participant_name } => {
                MessageView::ParticipantLeaveAnnouncement { participant_name: participant_name@ }
            },
            PokerMessage::TopicChangeRequest { participant_id, session_id, trello_card } => {
                MessageView::TopicChangeRequest {
                    participant_id,
                    session_id,
                    trello_card: trello_card@,
                }
            },
            PokerMessage::VotingIssueAnnouncement { voting_issue } => {
                MessageView::VotingIssueAnnouncement { voting_issue: voting_issue@ }
            },
            PokerMessage::VoteRequest { participant_id, session_id, issue_id, vote } => {
                MessageView::VoteRequest { participant_id, session_id, issue_id, vote }
            },
            PokerMessage::VoteReceiptAnnouncement { participant_name, issue_id } => {
                MessageView::VoteReceiptAnnouncement {
                    participant_name: participant_name@,
                    issue_id,
                }
            },
            PokerMessage::VoteRevelationRequest { participant_id, issue_id } => {
                MessageView::VoteRevelationRequest { participant_id, issue_id }
            },
            PokerMessage::VotingResultsRevelation { issue_id, votes, outcome } => {
                MessageView::VotingResultsRevelation { issue_id, votes: votes@, outcome }
            },
        }
    }
}

/// A copy of a list of names.
fn clone_names(names: &Vec<String>) -> (copy: Vec<String>)
    ensures
        names_view(copy@) == names_view(names@),
{
    let mut copy: Vec<String> = Vec::new();
    let mut i: usize = 0;
    while i < names.len()
        invariant
            i <= names@.len(),
            copy@.len() == i,
            forall|k: int| 0 <= k < i ==> (#[trigger] copy@[k])@ == names@[k]@,
        decreases names@.len() - i,
    {
        copy.push(names[i].clone());
        i += 1;
    }
    assert(names_view(copy@) =~= names_view(names@));
    copy
}

impl Clone for PokerMessage {
    fn clone(&self) -> (copy: PokerMessage)
        ensures
            copy@ == self@,
    {
        match self {
            PokerMessage::CreateSessionRequest { participant_id, participant_name } => {
                PokerMessage::CreateSessionRequest {
                    participant_id: *participant_id,
                    participant_name: participant_name.clone(),
                }
            },
            PokerMessage::JoinSessionRequest { participant_id, session_id, participant_name } => {
                PokerMessage::JoinSessionRequest {
                    participant_id: *participant_id,
                    session_id: *session_id,
                    participant_name: participant_name.clone(),
                }
            },
            PokerMessage::SessionInfoResponse {
                session_id,
                current_issue,
                current_participants,
            } => {
                PokerMessage::SessionInfoResponse {
                    session_id: *session_id,
                    current_issue: current_issue.clone(),
                    current_participants: clone_names(current_participants),
                }
            },
            PokerMessage::SessionJoinErrorResponse { session_id, error } => {
                PokerMessage::SessionJoinErrorResponse { session_id: *session_id, error: *error }
            },
            PokerMessage::ParticipantJoinAnnouncement { participant_name } => {
                PokerMessage::ParticipantJoinAnnouncement {
                    participant_name: participant_name.clone(),
                }
            },
            PokerMessage::ParticipantLeaveAnnouncement { participant_name } => {
                PokerMessage::ParticipantLeaveAnnouncement {
                    participant_name: participant_name.clone(),
                }
            },
            PokerMessage::TopicChangeRequest { participant_id, session_id, trello_card } => {
                PokerMessage::TopicChangeRequest {
                    participant_id: *participant_id,
                    session_id: *session_id,
                    trello_card: trello_card.clone(),
                }
            },
            PokerMessage::VotingIssueAnnouncement { voting_issue } => {
                PokerMessage::VotingIssueAnnouncement { voting_issue: voting_issue.clone() }
            },
            PokerMessage::VoteRequest { participant_id, session_id, issue_id, vote } => {
                PokerMessage::VoteRequest {
                    participant_id: *participant_id,
                    session_id: *session_id,
                    issue_id: *issue_id,
                    vote: *vote,
                }
            },
            PokerMessage::VoteReceiptAnnouncement { participant_name, issue_id } => {
                PokerMessage::VoteReceiptAnnouncement {
                    participant_name: participant_name.clone(),
                    issue_id: *issue_id,
                }
            },
            PokerMessage::VoteRevelationRequest { participant_id, issue_id } => {
                PokerMessage::VoteRevelationRequest {
                    participant_id: *participant_id,
                    issue_id: *issue_id,
                }
            },
            PokerMessage::VotingResultsRevelation { issue_id, votes, outcome } => {
                PokerMessage::VotingResultsRevelation {
                    issue_id: *issue_id,
                    votes: votes.clone(),
                    outcome: *outcome,
                }
            },
        }
    }
}

/// A message on its way to the participant `recipient`.
#[derive(Debug)]
pub struct Outbound {
    pub recipient: u32,
    pub message: PokerMessage,
}

/// An outbound message as a mathematical value.
#[verifier::ext_equal]
pub struct OutboundView {
    pub recipient: u32,
    pub message: MessageView,
}

impl View for Outbound {
    type V = OutboundView;

    open spec fn view(&self) -> OutboundView {
        OutboundView { recipient: self.recipient, message: self.message@ }
    }
}

/// The views of a list of outbound messages.
pub open spec fn outbox_view(outbox: Seq<Outbound>) -> Seq<OutboundView> {
    outbox.map_values(|o: Outbound| o@)
}

/// One copy of `message` for each of `recipients`, in their order.
pub open spec fn broadcast(recipients: Seq<u32>, message: MessageView) -> Seq<OutboundView> {
    recipients.map_values(|recipient: u32| OutboundView { recipient, message })
}

/// Appends to `outbox` one copy of `message` for each of `recipients`.
pub fn send_to_all(outbox: &mut Vec<Outbound>, recipients: &Vec<u32>, message: &PokerMessage)
    ensures
        outbox_view(final(outbox)@) == outbox_view(old(outbox)@) + broadcast(
            recipients@,
            message@,
        ),
{
    let mut i: usize = 0;
    while i < recipients.len()
        invariant
            i <= recipients@.len(),
            outbox_view(outbox@) == outbox_view(old(outbox)@) + broadcast(
                recipients@.take(i as int),
                message@,
            ),
        decreases recipients@.len() - i,
    {
        let ghost before = outbox@;
        outbox.push(Outbound { recipient: recipients[i], message: message.clone() });
        proof {
            assert(recipients@.take(i + 1) =~= recipients@.take(i as int).push(
                recipients@[i as int],
            ));
            assert(outbox_view(outbox@) =~= outbox_view(before).push(
                OutboundView { recipient: recipients@[i as int], message: message@ },
            ));
            assert(broadcast(recipients@.take(i + 1), message@) =~= broadcast(
                recipients@.take(i as int),
                message@,
            ).push(OutboundView { recipient: recipients@[i as int], message: message@ }));
        }
        i += 1;
    }
    assert(recipients@.take(recipients@.len() as int) =~= recipients@);
}

} // verus!
