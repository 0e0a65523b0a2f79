//! The session registry: the single owner of all session state.

use crate::ids::{
    first_free, first_free_id, generate_random_id, is_fresh, lemma_first_free_is_free,
    renew_issue_id,
};
use crate::issue::VotingIssue;
use crate::message::{
    outbox_view, send_to_all, Disconnect, MessageView, Outbound, PokerMessage,
};
use crate::model::{is_overdue, resolved_outcome, RegistryView, Step, SESSION_TIMEOUT};
use crate::session::{VotingParticipant, VotingSession};
use crate::vote::{SessionJoinError, Vote, VotingState};
use crate::vote_map::VoteMap;
use std::collections::HashMap;
use vstd::prelude::*;
use vstd::std_specs::iter::IteratorSpec;

verus! {

/// The coordinator of all sessions. It maps each connected participant to
/// its outbound channel of type `C`, each session identifier to its session,
/// and each session that awaits eviction to the time at which it became
/// empty. Every operation runs to completion and returns the messages it
/// sends, in sending order; [`Registry::channel`] finds the channel to
/// deliver each on.
pub struct Registry<C> {
    sessions: HashMap<u32, VotingSession>,
    timeout_sessions: HashMap<u32, u64>,
    clients: HashMap<u32, C>,
}

impl<C> View for Registry<C> {
    type V = RegistryView<C>;

    closed spec fn view(&self) -> RegistryView<C> {
        RegistryView {
            clients: self.clients@,
            sessions: self.sessions@.map_values(|s: VotingSession| s@),
            pending_eviction: self.timeout_sessions@,
        }
    }
}

impl<C> Registry<C> {
    /// A registry without clients and sessions.
    pub fn new() -> (registry: Registry<C>)
        ensures
            registry@ == RegistryView::<C>::empty(),
    {
        let registry = Registry {
            sessions: HashMap::new(),
            clients: HashMap::new(),
            timeout_sessions: HashMap::new(),
        };
        assert(registry@.sessions =~= Map::empty());
        registry
    }

    /// Registers `channel` as the outbound channel of a fresh participant
    /// identifier, found from a random draw, and returns the identifier.
    pub fn connect(&mut self, channel: C) -> (participant_id: u32)
        ensures
            is_fresh(old(self)@.clients.dom(), participant_id),
            final(self)@ == old(self)@.connect(participant_id, channel),
    {
        let drawn_id = generate_random_id();
        proof {
            lemma_first_free_is_free(self@.clients.dom(), drawn_id);
        }
        self.connect_with_id(drawn_id, channel)
    }

    /// Registers `channel` as the outbound channel of the first identifier
    /// from `drawn_id` on that no participant has, and returns the
    /// identifier.
    pub fn connect_with_id(&mut self, drawn_id: u32, channel: C) -> (participant_id: u32)
        ensures
            participant_id == first_free(old(self)@.clients.dom(), drawn_id),
            final(self)@ == old(self)@.connect(participant_id, channel),
    {
        let participant_id = first_free_id(&self.clients, drawn_id);
        self.clients.insert(participant_id, channel);
        participant_id
    }

    /// The outbound channel of `participant_id`, if it is connected. A
    /// message to a participant without a channel has nowhere to go and is
    /// dropped.
    pub fn channel(&self, participant_id: u32) -> (channel: Option<&C>)
        ensures
            match channel {
                Some(c) => self@.clients.contains_key(participant_id) && *c
                    == self@.clients[participant_id],
                None => !self@.clients.contains_key(participant_id),
            },
    {
        self.clients.get(&participant_id)
    }

    /// The session registered under `session_id`.
    pub fn session(&self, session_id: u32) -> (session: Option<&VotingSession>)
        ensures
            match session {
                Some(s) => self@.sessions.contains_key(session_id) && s@
                    == self@.sessions[session_id],
                None => !self@.sessions.contains_key(session_id),
            },
    {
        self.sessions.get(&session_id)
    }

    /// The time at which `session_id` became empty, if it awaits eviction.
    pub fn pending_eviction(&self, session_id: u32) -> (emptied_at: Option<u64>)
        ensures
            match emptied_at {
                Some(t) => self@.pending_eviction.contains_key(session_id) && t
                    == self@.pending_eviction[session_id],
                None => !self@.pending_eviction.contains_key(session_id),
            },
    {
        match self.timeout_sessions.get(&session_id) {
            Some(t) => Some(*t),
            None => None,
        }
    }

    /// Stores `session` under `session_id`.
    fn put_session(&mut self, session_id: u32, session: VotingSession)
        ensures
            final(self)@ == (RegistryView {
                sessions: old(self)@.sessions.insert(session_id, session@),
                ..old(self)@
            }),
    {
        self.sessions.insert(session_id, session);
        assert(self@.sessions =~= old(self)@.sessions.insert(session_id, session@));
    }

    /// Creates a session for `participant_id` under a fresh session
    /// identifier, found from a random draw, with a newly opened issue under
    /// a drawn identifier, and tells the creator its state.
    pub fn create_session(&mut self, participant_id: u32, participant_name: String) -> (outbox:
        Vec<Outbound>)
        ensures
            exists|session_id: u32, issue_id: u32|
                is_fresh(old(self)@.sessions.dom(), session_id) && #[trigger] old(
                    self,
                )@.create_session(session_id, issue_id, participant_id, participant_name@) == (Step {
                    next: final(self)@,
                    outbox: outbox_view(outbox@),
                }),
    {
        let drawn_id = generate_random_id();
        let issue_id = generate_random_id();
        proof {
            lemma_first_free_is_free(self@.sessions.dom(), drawn_id);
        }
        self.create_session_with_ids(drawn_id, issue_id, participant_id, participant_name)
    }

    /// Creates a session for `participant_id` under the first identifier
    /// from `drawn_id` on that no session has, with a newly opened issue
    /// `issue_id`, and tells the creator its state.
    pub fn create_session_with_ids(
        &mut self,
        drawn_id: u32,
        issue_id: u32,
        participant_id: u32,
        participant_name: String,
    ) -> (outbox: Vec<Outbound>)
        ensures
            old(self)@.create_session(
                first_free(old(self)@.sessions.dom(), drawn_id),
                issue_id,
                participant_id,
                participant_name@,
            ) == (Step { next: final(self)@, outbox: outbox_view(outbox@) }),
    {
        let session_id = first_free_id(&self.sessions, drawn_id);
        assert(self@.sessions.dom() =~= self.sessions@.dom());
        let session = VotingSession::with_issue(
            session_id,
            participant_id,
            participant_name.clone(),
            VotingIssue::with_id(issue_id, None),
        );
        let message = PokerMessage::SessionInfoResponse {
            session_id,
            current_issue: session.current_issue().clone_blinded(Some(&participant_name)),
            current_participants: session.participant_names(),
        };
        self.put_session(session_id, session);
        let mut outbox: Vec<Outbound> = Vec::new();
        outbox.push(Outbound { recipient: participant_id, message });
        proof {
            let step = old(self)@.create_session(
                session_id,
                issue_id,
                participant_id,
                participant_name@,
            );
            assert(outbox_view(outbox@) =~= step.outbox);
        }
        outbox
    }

    /// Lets `participant_id` join `session_id` under `participant_name`, or
    /// tells it why it cannot.
    pub fn join_session(&mut self, session_id: u32, participant_id: u32, participant_name: String) -> (outbox:
        Vec<Outbound>)
        ensures
            old(self)@.join_session(session_id, participant_id, participant_name@) == (Step {
                next: final(self)@,
                outbox: outbox_view(outbox@),
            }),
    {
        let ghost step = self@.join_session(session_id, participant_id, participant_name@);
        let mut outbox: Vec<Outbound> = Vec::new();
        let refusal = match self.sessions.get(&session_id) {
            None => Some(SessionJoinError::UnknownSession),
            Some(session) => {
                if session.has_name(&participant_name) {
                    Some(SessionJoinError::ParticipantNameTaken)
                } else {
                    None
                }
            },
        };
        if let Some(error) = refusal {
            outbox.push(
                Outbound {
                    recipient: participant_id,
                    message: PokerMessage::SessionJoinErrorResponse { session_id, error },
                },
            );
            assert(outbox_view(outbox@) =~= step.outbox);
            return outbox;
        }
        let mut session = self.sessions.remove(&session_id).unwrap();
        self.timeout_sessions.remove(&session_id);
        let present = session.participant_ids();
        session.add_participant(VotingParticipant::new(participant_id, participant_name.clone()));
        let message = PokerMessage::SessionInfoResponse {
            session_id,
            current_issue: session.current_issue().clone_blinded(Some(&participant_name)),
            current_participants: session.participant_names(),
        };
        outbox.push(Outbound { recipient: participant_id, message });
        let ghost first = outbox_view(outbox@);
        send_to_all(
            &mut outbox,
            &present,
            &PokerMessage::ParticipantJoinAnnouncement { participant_name },
        );
        self.sessions.insert(session_id, session);
        proof {
            assert(first =~= seq![step.outbox[0]]);
            assert(self@.sessions =~= step.next.sessions);
        }
        outbox
    }

    /// Changes the topic of `session_id` to `trello_card`, with a newly
    /// drawn identifier for the issue that this opens.
    pub fn change_topic(&mut self, session_id: u32, participant_id: u32, trello_card: String) -> (outbox:
        Vec<Outbound>)
        ensures
            exists|drawn_id: u32| #[trigger]
                old(self)@.change_topic(session_id, trello_card@, drawn_id) == (Step {
                    next: final(self)@,
                    outbox: outbox_view(outbox@),
                }),
    {
        let drawn_id = generate_random_id();
        self.change_topic_with_id(session_id, participant_id, trello_card, drawn_id)
    }

    /// Changes the topic of `session_id` to `trello_card`; `drawn_id` is the
    /// identifier drawn for the issue that this opens. Anyone may ask for
    /// it: who asks does not enter into the decision.
    pub fn change_topic_with_id(
        &mut self,
        session_id: u32,
        _participant_id: u32,
        trello_card: String,
        drawn_id: u32,
    ) -> (outbox: Vec<Outbound>)
        ensures
            old(self)@.change_topic(session_id, trello_card@, drawn_id) == (Step {
                next: final(self)@,
                outbox: outbox_view(outbox@),
            }),
    {
        let ghost step = self@.change_topic(session_id, trello_card@, drawn_id);
        let mut outbox: Vec<Outbound> = Vec::new();
        let topic = if trello_card.as_str().is_empty() {
            None
        } else {
            Some(trello_card)
        };
        let current_id = match self.sessions.get(&session_id) {
            None => None,
            Some(session) => {
                if session.current_issue().has_topic(&topic) {
                    None
                } else {
                    Some(session.current_issue().id())
                }
            },
        };
        match current_id {
            None => {
                assert(outbox_view(outbox@) =~= step.outbox);
            },
            Some(current_id) => {
                let issue = VotingIssue::with_id(renew_issue_id(current_id, drawn_id), topic);
                let mut session = self.sessions.remove(&session_id).unwrap();
                send_to_all(
                    &mut outbox,
                    &session.participant_ids(),
                    &PokerMessage::VotingIssueAnnouncement { voting_issue: issue.clone() },
                );
                session.replace_issue(issue);
                self.sessions.insert(session_id, session);
                proof {
                    assert(self@.sessions =~= step.next.sessions);
                    assert(outbox_view(outbox@) =~= step.outbox);
                }
            },
        }
        outbox
    }

    /// Takes the vote of `participant_id` on the issue `issue_id` of
    /// `session_id`, and reveals the votes if it was the last one awaited.
    pub fn cast_vote(&mut self, session_id: u32, issue_id: u32, participant_id: u32, vote: Vote) -> (outbox:
        Vec<Outbound>)
        ensures
            old(self)@.cast_vote(session_id, issue_id, participant_id, vote) == (Step {
                next: final(self)@,
                outbox: outbox_view(outbox@),
            }),
    {
        let ghost step = self@.cast_vote(session_id, issue_id, participant_id, vote);
        let mut outbox: Vec<Outbound> = Vec::new();
        let voter = match self.sessions.get(&session_id) {
            None => None,
            Some(session) => {
                match session.position_of(participant_id) {
                    None => None,
                    Some(place) => {
                        if session.current_issue().id() != issue_id
                            || session.current_issue().state() == VotingState::Closing || vote
                            == Vote::Secret {
                            None
                        } else {
                            Some(session.participant(place).name().clone())
                        }
                    },
                }
            },
        };
        match voter {
            None => {
                assert(outbox_view(outbox@) =~= step.outbox);
            },
            Some(name) => {
                let mut session = self.sessions.remove(&session_id).unwrap();
                session.record_vote(name.clone(), vote);
                send_to_all(
                    &mut outbox,
                    &session.participant_ids(),
                    &PokerMessage::VoteReceiptAnnouncement { participant_name: name, issue_id },
                );
                reveal_if_everyone_voted(&mut session, &mut outbox);
                self.sessions.insert(session_id, session);
                proof {
                    assert(self@.sessions =~= step.next.sessions);
                    assert(outbox_view(outbox@) =~= step.outbox);
                }
            },
        }
        outbox
    }

    /// Forgets the channel of the participant that `msg` names and takes the
    /// participant out of the session that `msg` names; `now` is the time of
    /// the call, in seconds.
    pub fn disconnect(&mut self, msg: Disconnect, now: u64) -> (outbox: Vec<Outbound>)
        ensures
            old(self)@.disconnect(msg.participant_id, msg.session_id, now) == (Step {
                next: final(self)@,
                outbox: outbox_view(outbox@),
            }),
    {
        let ghost step = self@.disconnect(msg.participant_id, msg.session_id, now);
        let mut outbox: Vec<Outbound> = Vec::new();
        self.clients.remove(&msg.participant_id);
        let found = match self.sessions.get(&msg.session_id) {
            None => None,
            Some(session) => session.position_of(msg.participant_id),
        };
        match found {
            None => {
                assert(outbox_view(outbox@) =~= step.outbox);
            },
            Some(place) => {
                let mut session = self.sessions.remove(&msg.session_id).unwrap();
                let gone = session.remove_participant(place);
                if session.participant_count() == 0 {
                    self.timeout_sessions.insert(msg.session_id, now);
                    assert(outbox_view(outbox@) =~= step.outbox);
                } else {
                    send_to_all(
                        &mut outbox,
                        &session.participant_ids(),
                        &PokerMessage::ParticipantLeaveAnnouncement {
                            participant_name: gone.name().clone(),
                        },
                    );
                    reveal_if_everyone_voted(&mut session, &mut outbox);
                    assert(outbox_view(outbox@) =~= step.outbox);
                }
                self.sessions.insert(msg.session_id, session);
                assert(self@.sessions =~= step.next.sessions);
            },
        }
        outbox
    }

    /// Handles one message from a client: carries out the request it holds.
    /// A message that is no request the coordinator serves is ignored.
    pub fn handle(&mut self, msg: PokerMessage) -> (outbox: Vec<Outbound>)
        ensures
            old(self)@.handles(msg@, Step { next: final(self)@, outbox: outbox_view(outbox@) }),
    {
        let ghost request = msg@;
        let outbox = match msg {
            PokerMessage::CreateSessionRequest { participant_id, participant_name } => {
                self.create_session(participant_id, participant_name)
            },
            PokerMessage::JoinSessionRequest { participant_id, participant_name, session_id } => {
                self.join_session(session_id, participant_id, participant_name)
            },
            PokerMessage::TopicChangeRequest { session_id, participant_id, trello_card } => {
                self.change_topic(session_id, participant_id, trello_card)
            },
            PokerMessage::VoteRequest { session_id, participant_id, issue_id, vote } => {
                self.cast_vote(session_id, issue_id, participant_id, vote)
            },
            _ => Vec::new(),
        };
        proof {
            let step = Step { next: self@, outbox: outbox_view(outbox@) };
            match request {
                MessageView::CreateSessionRequest { participant_id, participant_name } => {
                    let (session_id, issue_id) = choose|session_id: u32, issue_id: u32|
                        is_fresh(old(self)@.sessions.dom(), session_id) && #[trigger] old(
                            self,
                        )@.create_session(session_id, issue_id, participant_id, participant_name)
                            == step;
                    assert(old(self)@.create_session(
                        session_id,
                        issue_id,
                        participant_id,
                        participant_name,
                    ) == step);
                },
                MessageView::TopicChangeRequest { session_id, trello_card, .. } => {
                    let drawn_id = choose|drawn_id: u32| #[trigger]
                        old(self)@.change_topic(session_id, trello_card, drawn_id) == step;
                    assert(old(self)@.change_topic(session_id, trello_card, drawn_id) == step);
                },
                MessageView::JoinSessionRequest { .. } => {},
                MessageView::VoteRequest { .. } => {},
                _ => {
                    assert(step =~= old(self)@.ignored());
                },
            }
        }
        outbox
    }

    /// Deletes every session that has been awaiting eviction for longer than
    /// the eviction window at `now`, the time of the call in seconds.
    pub fn sweep(&mut self, now: u64)
        ensures
            final(self)@ == old(self)@.sweep(now),
    {
        let ghost pending = self.timeout_sessions@;
        let ghost entries = self.timeout_sessions.iter().remaining();
        let ghost mut seen: int = 0;
        let mut overdue: Vec<u32> = Vec::new();
        for entry in iter: self.timeout_sessions.iter()
            invariant
                pending == self.timeout_sessions@,
                entries == iter.seq(),
                seen == iter.index(),
                forall|i: int|
                    0 <= i < entries.len() ==> pending.contains_key(*(#[trigger] entries[i]).0)
                        && pending[*entries[i].0] == *entries[i].1,
                forall|j: int|
                    0 <= j < overdue@.len() ==> pending.contains_key(#[trigger] overdue@[j])
                        && is_overdue(pending[overdue@[j]], now),
                forall|i: int|
                    0 <= i < seen && is_overdue(*(#[trigger] entries[i]).1, now)
                        ==> overdue@.contains(*entries[i].0),
        {
            let (session_id, emptied_at) = entry;
            let ghost before = overdue@;
            if now > *emptied_at && now - *emptied_at > SESSION_TIMEOUT {
                overdue.push(*session_id);
            }
            proof {
                assert forall|i: int|
                    0 <= i < seen + 1 && is_overdue(
                        *(#[trigger] entries[i]).1,
                        now,
                    ) implies overdue@.contains(*entries[i].0) by {
                    if i < seen {
                        let w = before.index_of(*entries[i].0);
                        assert(overdue@[w] == before[w]);
                    } else {
                        assert(overdue@[overdue@.len() - 1] == *session_id);
                    }
                }
                seen = seen + 1;
            }
        }
        proof {
            assert(seen == entries.len());
            assert(overdue@.to_set() =~= self@.overdue(now)) by {
                assert forall|k: u32| self@.overdue(now).contains(k) implies overdue@.contains(
                    k,
                ) by {
                    assert(pending.contains_key(k));
                    let w = entries.index_of((&k, &pending[k]));
                    assert(entries[w] == (&k, &pending[k]));
                }
                assert forall|k: u32| overdue@.contains(k) implies self@.overdue(now).contains(
                    k,
                ) by {
                    let w = overdue@.index_of(k);
                    assert(overdue@[w] == k);
                }
            }
        }
        let mut i: usize = 0;
        while i < overdue.len()
            invariant
                i <= overdue@.len(),
                self.clients@ == old(self).clients@,
                self.timeout_sessions@ == old(self).timeout_sessions@.remove_keys(
                    overdue@.take(i as int).to_set(),
                ),
                self.sessions@ == old(self).sessions@.remove_keys(overdue@.take(i as int).to_set()),
            decreases overdue@.len() - i,
        {
            self.timeout_sessions.remove(&overdue[i]);
            self.sessions.remove(&overdue[i]);
            proof {
                let done = overdue@.take(i as int).to_set();
                let next = overdue@.take(i + 1).to_set();
                assert(overdue@.take(i + 1) =~= overdue@.take(i as int).push(overdue@[i as int]));
                assert(next =~= done.insert(overdue@[i as int])) by {
                    assert forall|k: u32| next.contains(k) <==> done.insert(
                        overdue@[i as int],
                    ).contains(k) by {
                        if overdue@.take(i + 1).contains(k) {
                            let w = overdue@.take(i + 1).index_of(k);
                            if w < i {
                                assert(overdue@.take(i as int)[w] == k);
                            }
                        }
                        if overdue@.take(i as int).contains(k) {
                            let w = overdue@.take(i as int).index_of(k);
                            assert(overdue@.take(i + 1)[w] == k);
                        }
                        if k == overdue@[i as int] {
                            assert(overdue@.take(i + 1)[i as int] == k);
                        }
                    }
                }
                assert(self.timeout_sessions@ =~= old(self).timeout_sessions@.remove_keys(next));
                assert(self.sessions@ =~= old(self).sessions@.remove_keys(next));
            }
            i += 1;
        }
        proof {
            assert(overdue@.take(overdue@.len() as int) =~= overdue@);
            assert(self@.sessions =~= old(self)@.sweep(now).sessions);
        }
    }
}

/// The outcome of an issue with the votes `votes`.
pub fn resolve_outcome(votes: &VoteMap) -> (outcome: Vote)
    ensures
        outcome == resolved_outcome(votes@),
{
    Vote::Unknown
}

/// Evaluates the reveal condition of `session`: if its issue is not closing
/// yet and every participant present has voted, closes the issue and
/// appends to `outbox` the revelation for each participant.
pub fn reveal_if_everyone_voted(session: &mut VotingSession, outbox: &mut Vec<Outbound>)
    ensures
        final(session)@ == old(session)@.after_reveal(),
        outbox_view(final(outbox)@) == outbox_view(old(outbox)@) + old(session)@.revelations(),
{
    if session.current_issue().state() == VotingState::Closing || session.participant_count() == 0
        || !session.all_votes_cast() {
        assert(outbox_view(outbox@) =~= outbox_view(outbox@) + old(session)@.revelations());
        return ;
    }
    let outcome = resolve_outcome(session.current_issue().votes());
    session.close_issue(outcome);
    let message = PokerMessage::VotingResultsRevelation {
        issue_id: session.current_issue().id(),
        votes: session.current_issue().votes().clone(),
        outcome,
    };
    send_to_all(outbox, &session.participant_ids(), &message);
}

} // verus!
