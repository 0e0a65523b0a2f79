//! The coordinator as a state machine over mathematical values.
//!
//! Each operation of the registry is a function from the state before it
//! and the request to the state after it and the messages it sends.

use crate::ids::{is_fresh, renewed_id};
use crate::issue::IssueView;
use crate::message::{broadcast, MessageView, OutboundView};
use crate::session::{ParticipantView, SessionView};
use crate::vote::{SessionJoinError, Vote, VotingState};
use vstd::prelude::*;

verus! {

/// How long a session may stay empty before it is evicted, in seconds.
pub const SESSION_TIMEOUT: u64 = 20;

/// How long to wait between two sweeps for evictable sessions, in seconds.
pub const SESSION_TIMEOUT_CHECK_INTERVAL: u64 = 5;

/// The outcome of an issue with the votes `votes`. No aggregation rule is
/// defined yet; every issue resolves to `Unknown`.
pub open spec fn resolved_outcome(votes: Map<Seq<char>, Vote>) -> Vote {
    Vote::Unknown
}

/// The topic a request asks for: an empty reference stands for no topic.
pub open spec fn normalized_topic(trello_card: Seq<char>) -> Option<Seq<char>> {
    if trello_card.len() > 0 {
        Some(trello_card)
    } else {
        None
    }
}

/// Whether a session that became empty at `emptied_at` has been empty for
/// longer than the eviction window at `now`.
pub open spec fn is_overdue(emptied_at: u64, now: u64) -> bool {
    now - emptied_at > SESSION_TIMEOUT
}

/// The state of the session `session_id` as its participant named `viewer`
/// is told it.
pub open spec fn session_info(session_id: u32, session: SessionView, viewer: Seq<char>) -> MessageView {
    MessageView::SessionInfoResponse {
        session_id,
        current_issue: session.current_issue.blinded(Some(viewer)),
        current_participants: session.names(),
    }
}

/// The refusal sent to `participant_id` who asked to join `session_id`.
pub open spec fn join_refusal(participant_id: u32, session_id: u32, error: SessionJoinError) -> Seq<
    OutboundView,
> {
    seq![
        OutboundView {
            recipient: participant_id,
            message: MessageView::SessionJoinErrorResponse { session_id, error },
        },
    ]
}

impl SessionView {
    /// Whether the votes are to be revealed now: the issue is not closing
    /// yet, somebody is present, and everyone present has voted.
    pub open spec fn reveal_is_due(self) -> bool {
        &&& self.current_issue.state != VotingState::Closing
        &&& self.participants.len() > 0
        &&& self.all_votes_cast()
    }

    /// The session after the reveal condition has been evaluated.
    pub open spec fn after_reveal(self) -> SessionView {
        if self.reveal_is_due() {
            self.with_issue(
                self.current_issue.closed(resolved_outcome(self.current_issue.votes)),
            )
        } else {
            self
        }
    }

    /// The messages that evaluating the reveal condition sends: if the
    /// reveal is due, every vote as cast and the outcome, to each
    /// participant.
    pub open spec fn revelations(self) -> Seq<OutboundView> {
        if self.reveal_is_due() {
            broadcast(
                self.ids(),
                MessageView::VotingResultsRevelation {
                    issue_id: self.current_issue.id,
                    votes: self.current_issue.votes,
                    outcome: resolved_outcome(self.current_issue.votes),
                },
            )
        } else {
            Seq::empty()
        }
    }
}

/// The registry as a mathematical value.
#[verifier::ext_equal]
pub struct RegistryView<C> {
    /// The outbound channel of each connected participant.
    pub clients: Map<u32, C>,
    /// The registered sessions.
    pub sessions: Map<u32, SessionView>,
    /// For each session awaiting eviction, the time at which it became empty.
    pub pending_eviction: Map<u32, u64>,
}

/// One operation of the registry, with the identifiers it draws and the
/// time at which it runs.
pub enum Operation<C> {
    Connect { participant_id: u32, channel: C },
    CreateSession { session_id: u32, issue_id: u32, participant_id: u32, name: Seq<char> },
    JoinSession { session_id: u32, participant_id: u32, name: Seq<char> },
    ChangeTopic { session_id: u32, trello_card: Seq<char>, drawn_id: u32 },
    CastVote { session_id: u32, issue_id: u32, participant_id: u32, vote: Vote },
    Disconnect { participant_id: u32, session_id: u32, now: u64 },
    Sweep { now: u64 },
}

/// What one operation does: the state it leaves and the messages it sends,
/// in sending order.
#[verifier::ext_equal]
pub struct Step<C> {
    pub next: RegistryView<C>,
    pub outbox: Seq<OutboundView>,
}

impl<C> RegistryView<C> {
    /// The registry before anyone has connected.
    pub open spec fn empty() -> RegistryView<C> {
        RegistryView {
            clients: Map::empty(),
            sessions: Map::empty(),
            pending_eviction: Map::empty(),
        }
    }

    /// The step that changes nothing and sends nothing.
    pub open spec fn ignored(self) -> Step<C> {
        Step { next: self, outbox: Seq::empty() }
    }

    /// Connect: `channel` becomes the outbound channel of `participant_id`.
    pub open spec fn connect(self, participant_id: u32, channel: C) -> RegistryView<C> {
        RegistryView { clients: self.clients.insert(participant_id, channel), ..self }
    }

    /// Create a session: `session_id` is registered with the creator as its
    /// only participant and a newly opened issue `issue_id`; the creator is
    /// told the state of the session.
    pub open spec fn create_session(
        self,
        session_id: u32,
        issue_id: u32,
        participant_id: u32,
        name: Seq<char>,
    ) -> Step<C> {
        let session = SessionView::fresh(
            session_id,
            ParticipantView { id: participant_id, name },
            issue_id,
        );
        Step {
            next: RegistryView { sessions: self.sessions.insert(session_id, session), ..self },
            outbox: seq![
                OutboundView {
                    recipient: participant_id,
                    message: session_info(session_id, session, name),
                },
            ],
        }
    }

    /// Join a session. An unregistered session and a name that is taken are
    /// refused and change nothing. Otherwise the joiner is appended, a
    /// pending eviction of the session is cancelled, the joiner is told the
    /// state of the session, and those who were present are told of the
    /// joiner.
    pub open spec fn join_session(self, session_id: u32, participant_id: u32, name: Seq<char>) -> Step<
        C,
    > {
        if !self.sessions.contains_key(session_id) {
            Step {
                next: self,
                outbox: join_refusal(participant_id, session_id, SessionJoinError::UnknownSession),
            }
        } else if self.sessions[session_id].has_name(name) {
            Step {
                next: self,
                outbox: join_refusal(
                    participant_id,
                    session_id,
                    SessionJoinError::ParticipantNameTaken,
                ),
            }
        } else {
            let before = self.sessions[session_id];
            let after = before.joined(ParticipantView { id: participant_id, name });
            Step {
                next: RegistryView {
                    sessions: self.sessions.insert(session_id, after),
                    pending_eviction: self.pending_eviction.remove(session_id),
                    ..self
                },
                outbox: seq![
                    OutboundView {
                        recipient: participant_id,
                        message: session_info(session_id, after, name),
                    },
                ] + broadcast(
                    before.ids(),
                    MessageView::ParticipantJoinAnnouncement { participant_name: name },
                ),
            }
        }
    }

    /// Whether a request for the topic `trello_card` changes the topic of
    /// `session_id`: the session is registered and its topic is another.
    pub open spec fn topic_changes(self, session_id: u32, trello_card: Seq<char>) -> bool {
        &&& self.sessions.contains_key(session_id)
        &&& self.sessions[session_id].current_issue.trello_card != normalized_topic(trello_card)
    }

    /// Change the topic. A request for the topic that the session already
    /// has, or for an unregistered session, is ignored. Otherwise a newly
    /// opened issue replaces the current one, under an identifier that
    /// differs from the replaced one, and is announced to every participant.
    pub open spec fn change_topic(self, session_id: u32, trello_card: Seq<char>, drawn_id: u32) -> Step<
        C,
    > {
        if !self.topic_changes(session_id, trello_card) {
            self.ignored()
        } else {
            let before = self.sessions[session_id];
            let issue = IssueView::fresh(
                renewed_id(before.current_issue.id, drawn_id),
                normalized_topic(trello_card),
            );
            Step {
                next: RegistryView {
                    sessions: self.sessions.insert(session_id, before.with_issue(issue)),
                    ..self
                },
                outbox: broadcast(
                    before.ids(),
                    MessageView::VotingIssueAnnouncement { voting_issue: issue },
                ),
            }
        }
    }

    /// Whether a vote is taken: the session is registered, the vote is for
    /// its current issue, the voter belongs to the session, the issue is not
    /// closing, and the vote is not the `Secret` placeholder.
    pub open spec fn vote_is_taken(
        self,
        session_id: u32,
        issue_id: u32,
        participant_id: u32,
        vote: Vote,
    ) -> bool {
        &&& self.sessions.contains_key(session_id)
        &&& self.sessions[session_id].current_issue.id == issue_id
        &&& self.sessions[session_id].position_of(participant_id) is Some
        &&& self.sessions[session_id].current_issue.state != VotingState::Closing
        &&& vote != Vote::Secret
    }

    /// Cast a vote. A vote that is not taken is ignored. Otherwise it is
    /// recorded under the voter's name, every participant is told that the
    /// voter has voted, and the reveal condition is evaluated.
    pub open spec fn cast_vote(
        self,
        session_id: u32,
        issue_id: u32,
        participant_id: u32,
        vote: Vote,
    ) -> Step<C> {
        if !self.vote_is_taken(session_id, issue_id, participant_id, vote) {
            self.ignored()
        } else {
            let before = self.sessions[session_id];
            let name = before.participants[before.position_of(participant_id)->0].name;
            let voted = before.with_issue(before.current_issue.with_vote(name, vote));
            Step {
                next: RegistryView {
                    sessions: self.sessions.insert(session_id, voted.after_reveal()),
                    ..self
                },
                outbox: broadcast(
                    voted.ids(),
                    MessageView::VoteReceiptAnnouncement { participant_name: name, issue_id },
                ) + voted.revelations(),
            }
        }
    }

    /// Disconnect. The participant's channel is forgotten. If the
    /// participant belongs to the session it names, it is taken out of it: a
    /// session that this empties is marked for eviction as of `now`;
    /// otherwise those who remain are told, and the reveal condition is
    /// evaluated.
    pub open spec fn disconnect(self, participant_id: u32, session_id: u32, now: u64) -> Step<C> {
        let clients = self.clients.remove(participant_id);
        if !self.sessions.contains_key(session_id) || self.sessions[session_id].position_of(
            participant_id,
        ) is None {
            Step { next: RegistryView { clients, ..self }, outbox: Seq::empty() }
        } else {
            let before = self.sessions[session_id];
            let place = before.position_of(participant_id)->0;
            let name = before.participants[place].name;
            let remaining = before.without(place);
            if remaining.participants.len() == 0 {
                Step {
                    next: RegistryView {
                        clients,
                        sessions: self.sessions.insert(session_id, remaining),
                        pending_eviction: self.pending_eviction.insert(session_id, now),
                    },
                    outbox: Seq::empty(),
                }
            } else {
                Step {
                    next: RegistryView {
                        clients,
                        sessions: self.sessions.insert(session_id, remaining.after_reveal()),
                        ..self
                    },
                    outbox: broadcast(
                        remaining.ids(),
                        MessageView::ParticipantLeaveAnnouncement { participant_name: name },
                    ) + remaining.revelations(),
                }
            }
        }
    }

    /// What the operation `op` does in this state.
    pub open spec fn apply(self, op: Operation<C>) -> Step<C> {
        match op {
            Operation::Connect { participant_id, channel } => {
                Step { next: self.connect(participant_id, channel), outbox: Seq::empty() }
            },
            Operation::CreateSession { session_id, issue_id, participant_id, name } => {
                self.create_session(session_id, issue_id, participant_id, name)
            },
            Operation::JoinSession { session_id, participant_id, name } => {
                self.join_session(session_id, participant_id, name)
            },
            Operation::ChangeTopic { session_id, trello_card, drawn_id } => {
                self.change_topic(session_id, trello_card, drawn_id)
            },
            Operation::CastVote { session_id, issue_id, participant_id, vote } => {
                self.cast_vote(session_id, issue_id, participant_id, vote)
            },
            Operation::Disconnect { participant_id, session_id, now } => {
                self.disconnect(participant_id, session_id, now)
            },
            Operation::Sweep { now } => Step { next: self.sweep(now), outbox: Seq::empty() },
        }
    }

    /// What holds of every session in every state that the operations can
    /// reach: it is registered under its own identifier, no two of its
    /// participants share a name, its issue has an outcome only once it is
    /// closing, and no recorded vote is the `Secret` placeholder.
    pub open spec fn well_formed(self) -> bool {
        forall|id: u32| #[trigger]
            self.sessions.contains_key(id) ==> {
                &&& self.sessions[id].id == id
                &&& self.sessions[id].names_distinct()
                &&& self.sessions[id].current_issue.outcome_only_when_closing()
                &&& self.sessions[id].current_issue.holds_no_secret()
            }
    }

    /// Whether the sessions that await eviction are exactly the registered
    /// sessions without participants.
    pub open spec fn evictions_match_emptiness(self) -> bool {
        &&& forall|id: u32| #[trigger]
            self.pending_eviction.contains_key(id) ==> self.sessions.contains_key(id)
        &&& forall|id: u32| #[trigger]
            self.sessions.contains_key(id) ==> (self.sessions[id].participants.len() == 0
                <==> self.pending_eviction.contains_key(id))
    }

    /// Whether `step` is what handling the message `msg` may do. Requests to
    /// create a session, to join one, to change the topic and to vote are
    /// carried out, the first and the third under identifiers that the
    /// registry draws, the session's a fresh one; any other message is
    /// ignored.
    pub open spec fn handles(self, msg: MessageView, step: Step<C>) -> bool {
        match msg {
            MessageView::CreateSessionRequest { participant_id, participant_name } => {
                exists|session_id: u32, issue_id: u32|
                    is_fresh(self.sessions.dom(), session_id) && #[trigger] self.create_session(
                        session_id,
                        issue_id,
                        participant_id,
                        participant_name,
                    ) == step
            },
            MessageView::JoinSessionRequest { participant_id, session_id, participant_name } => {
                self.join_session(session_id, participant_id, participant_name) == step
            },
            MessageView::TopicChangeRequest { session_id, trello_card, .. } => {
                exists|drawn_id: u32| #[trigger]
                    self.change_topic(session_id, trello_card, drawn_id) == step
            },
            MessageView::VoteRequest { participant_id, session_id, issue_id, vote } => {
                self.cast_vote(session_id, issue_id, participant_id, vote) == step
            },
            _ => self.ignored() == step,
        }
    }

    /// The sessions that a sweep at `now` evicts: those that have been
    /// awaiting eviction for longer than the eviction window.
    pub open spec fn overdue(self, now: u64) -> Set<u32> {
        Set::new(
            |id: u32|
                self.pending_eviction.contains_key(id) && is_overdue(
                    self.pending_eviction[id],
                    now,
                ),
        )
    }

    /// Sweep: every overdue session is deleted and no longer awaits eviction.
    pub open spec fn sweep(self, now: u64) -> RegistryView<C> {
        RegistryView {
            sessions: self.sessions.remove_keys(self.overdue(now)),
            pending_eviction: self.pending_eviction.remove_keys(self.overdue(now)),
            ..self
        }
    }
}

} // verus!
