//! A session: its participants and the issue they are estimating.

use crate::issue::{IssueView, VotingIssue};
use crate::vote::Vote;
use vstd::prelude::*;

verus! {

/// A participant as a mathematical value.
pub struct ParticipantView {
    pub id: u32,
    pub name: Seq<char>,
}

/// One connected identity within a session: the identifier that the
/// coordinator assigned on connect, and the display name.
#[derive(Debug)]
pub struct VotingParticipant {
    id: u32,
    name: String,
}

impl View for VotingParticipant {
    type V = ParticipantView;

    closed spec fn view(&self) -> ParticipantView {
        ParticipantView { id: self.id, name: self.name@ }
    }
}

impl Clone for VotingParticipant {
    fn clone(&self) -> (copy: VotingParticipant)
        ensures
            copy@ == self@,
    {
        VotingParticipant { id: self.id, name: self.name.clone() }
    }
}

impl VotingParticipant {
    /// The participant `id` under the display name `name`.
    pub fn new(id: u32, name: String) -> (participant: VotingParticipant)
        ensures
            participant@ == (ParticipantView { id, name: name@ }),
    {
        VotingParticipant { id, name }
    }

    /// The identifier assigned on connect.
    pub fn id(&self) -> (id: u32)
        ensures
            id == self@.id,
    {
        self.id
    }

    /// The display name.
    pub fn name(&self) -> (name: &String)
        ensures
            name@ == self@.name,
    {
        &self.name
    }
}

/// The views of a list of names.
pub open spec fn names_view(names: Seq<String>) -> Seq<Seq<char>> {
    names.map_values(|name: String| name@)
}

/// The views of a list of participants.
pub open spec fn participants_view(participants: Seq<VotingParticipant>) -> Seq<ParticipantView> {
    participants.map_values(|p: VotingParticipant| p@)
}

/// A session as a mathematical value.
#[verifier::ext_equal]
pub struct SessionView {
    pub id: u32,
    pub participants: Seq<ParticipantView>,
    pub current_issue: IssueView,
}

impl SessionView {
    /// A session as its initiator finds it: the initiator alone, and a newly
    /// opened issue without a topic.
    pub open spec fn fresh(id: u32, initiator: ParticipantView, issue_id: u32) -> SessionView {
        SessionView {
            id,
            participants: seq![initiator],
            current_issue: IssueView::fresh(issue_id, None),
        }
    }

    /// The display names, in the order of joining.
    pub open spec fn names(self) -> Seq<Seq<char>> {
        self.participants.map_values(|p: ParticipantView| p.name)
    }

    /// The identifiers, in the order of joining.
    pub open spec fn ids(self) -> Seq<u32> {
        self.participants.map_values(|p: ParticipantView| p.id)
    }

    /// Whether a participant of this session is named `name`.
    pub open spec fn has_name(self, name: Seq<char>) -> bool {
        self.names().contains(name)
    }

    /// The place of the first participant with the identifier `id`.
    pub open spec fn position_of(self, id: u32) -> Option<int> {
        self.ids().index_of_first(id)
    }

    /// Whether every participant's name has a vote on the current issue.
    pub open spec fn all_votes_cast(self) -> bool {
        forall|i: int|
            0 <= i < self.participants.len() ==> self.current_issue.votes.contains_key(
                (#[trigger] self.participants[i]).name,
            )
    }

    /// No two participants share a display name.
    pub open spec fn names_distinct(self) -> bool {
        self.names().no_duplicates()
    }

    /// The session after `participant` has joined.
    pub open spec fn joined(self, participant: ParticipantView) -> SessionView {
        SessionView { participants: self.participants.push(participant), ..self }
    }

    /// The session after the participant at place `i` has left.
    pub open spec fn without(self, i: int) -> SessionView {
        SessionView { participants: self.participants.remove(i), ..self }
    }

    /// The session with `issue` as its current issue.
    pub open spec fn with_issue(self, issue: IssueView) -> SessionView {
        SessionView { current_issue: issue, ..self }
    }
}

/// A room in which participants estimate one issue at a time.
#[derive(Debug)]
pub struct VotingSession {
    id: u32,
    participants: Vec<VotingParticipant>,
    current_issue: VotingIssue,
}

impl View for VotingSession {
    type V = SessionView;

    closed spec fn view(&self) -> SessionView {
        SessionView {
            id: self.id,
            participants: participants_view(self.participants@),
            current_issue: self.current_issue@,
        }
    }
}

impl VotingSession {
    /// A session with the initiator as its only participant and a newly
    /// opened issue under a newly drawn identifier.
    pub fn new(session_id: u32, initiator_id: u32, initiator_name: String) -> (session:
        VotingSession)
        ensures
            session@ == SessionView::fresh(
                session_id,
                ParticipantView { id: initiator_id, name: initiator_name@ },
                session@.current_issue.id,
            ),
    {
        VotingSession::with_issue(session_id, initiator_id, initiator_name, VotingIssue::new(None))
    }

    /// A session with the initiator as its only participant and `issue` as
    /// its current issue.
    pub fn with_issue(
        session_id: u32,
        initiator_id: u32,
        initiator_name: String,
        issue: VotingIssue,
    ) -> (session: VotingSession)
        ensures
            session@ == (SessionView {
                id: session_id,
                participants: seq![ParticipantView { id: initiator_id, name: initiator_name@ }],
                current_issue: issue@,
            }),
    {
        let mut participants: Vec<VotingParticipant> = Vec::new();
        participants.push(VotingParticipant::new(initiator_id, initiator_name));
        let session = VotingSession { id: session_id, participants, current_issue: issue };
        assert(session@.participants =~= seq![
            ParticipantView { id: initiator_id, name: initiator_name@ },
        ]);
        session
    }

    /// The session's identifier.
    pub fn id(&self) -> (id: u32)
        ensures
            id == self@.id,
    {
        self.id
    }

    /// The issue that is open for estimation.
    pub fn current_issue(&self) -> (issue: &VotingIssue)
        ensures
            issue@ == self@.current_issue,
    {
        &self.current_issue
    }

    /// How many participants the session has.
    pub fn participant_count(&self) -> (count: usize)
        ensures
            count == self@.participants.len(),
    {
        self.participants.len()
    }

    /// The display names of the participants, in the order of joining.
    pub fn participant_names(&self) -> (names: Vec<String>)
        ensures
            names_view(names@) == self@.names(),
    {
        let mut names: Vec<String> = Vec::new();
        let mut i: usize = 0;
        while i < self.participants.len()
            invariant
                i <= self.participants@.len(),
                names@.len() == i,
                forall|k: int| 0 <= k < i ==> (#[trigger] names@[k])@ == self.participants@[k]@.name,
            decreases self.participants@.len() - i,
        {
            names.push(self.participants[i].name.clone());
            i += 1;
        }
        assert(names_view(names@) =~= self@.names());
        names
    }

    /// The identifiers of the participants, in the order of joining.
    pub fn participant_ids(&self) -> (ids: Vec<u32>)
        ensures
            ids@ == self@.ids(),
    {
        let mut ids: Vec<u32> = Vec::new();
        let mut i: usize = 0;
        while i < self.participants.len()
            invariant
                i <= self.participants@.len(),
                ids@.len() == i,
                forall|k: int| 0 <= k < i ==> #[trigger] ids@[k] == self.participants@[k]@.id,
            decreases self.participants@.len() - i,
        {
            ids.push(self.participants[i].id);
            i += 1;
        }
        assert(ids@ =~= self@.ids());
        ids
    }

    /// Whether every participant's name has a vote on the current issue.
    pub fn all_votes_cast(&self) -> (all: bool)
        ensures
            all == self@.all_votes_cast(),
    {
        let mut i: usize = 0;
        while i < self.participants.len()
            invariant
                i <= self.participants@.len(),
                forall|k: int|
                    0 <= k < i ==> self.current_issue@.votes.contains_key(
                        (#[trigger] self@.participants[k]).name,
                    ),
            decreases self.participants@.len() - i,
        {
            if !self.current_issue.votes().contains_key(&self.participants[i].name) {
                assert(!self.current_issue@.votes.contains_key(self@.participants[i as int].name));
                return false;
            }
            i += 1;
        }
        true
    }

    /// Whether a participant of this session is named `name`.
    pub fn has_name(&self, name: &String) -> (taken: bool)
        ensures
            taken == self@.has_name(name@),
    {
        let mut i: usize = 0;
        while i < self.participants.len()
            invariant
                i <= self.participants@.len(),
                forall|k: int| 0 <= k < i ==> (#[trigger] self@.names()[k]) != name@,
            decreases self.participants@.len() - i,
        {
            if self.participants[i].name == *name {
                assert(self@.names()[i as int] == name@);
                return true;
            }
            i += 1;
        }
        false
    }

    /// The place of the first participant with the identifier `id`.
    pub fn position_of(&self, id: u32) -> (place: Option<usize>)
        ensures
            match place {
                Some(i) => self@.position_of(id) == Some(i as int) && i < self@.participants.len(),
                None => self@.position_of(id) is None,
            },
    {
        let mut i: usize = 0;
        while i < self.participants.len()
            invariant
                i <= self.participants@.len(),
                forall|k: int| 0 <= k < i ==> (#[trigger] self@.ids()[k]) != id,
            decreases self.participants@.len() - i,
        {
            if self.participants[i].id == id {
                proof {
                    let ids = self@.ids();
                    assert(ids[i as int] == id);
                    ids.index_of_first_ensures(id);
                    let first = ids.index_of_first(id)->0;
                    if first < i {
                        assert(ids[first] != id);
                    }
                }
                return Some(i);
            }
            i += 1;
        }
        proof {
            let ids = self@.ids();
            ids.index_of_first_ensures(id);
            if ids.index_of_first(id) is Some {
                assert(ids[ids.index_of_first(id)->0] == id);
            }
        }
        None
    }

    /// The participant at place `i`.
    pub fn participant(&self, i: usize) -> (participant: &VotingParticipant)
        requires
            i < self@.participants.len(),
        ensures
            participant@ == self@.participants[i as int],
    {
        &self.participants[i]
    }

    /// Appends `participant` to the session.
    pub(crate) fn add_participant(&mut self, participant: VotingParticipant)
        ensures
            final(self)@ == old(self)@.joined(participant@),
    {
        self.participants.push(participant);
        assert(self@.participants =~= old(self)@.participants.push(participant@));
    }

    /// Takes the participant at place `i` out of the session.
    pub(crate) fn remove_participant(&mut self, i: usize) -> (gone: VotingParticipant)
        requires
            i < old(self)@.participants.len(),
        ensures
            gone@ == old(self)@.participants[i as int],
            final(self)@ == old(self)@.without(i as int),
    {
        let gone = self.participants.remove(i);
        assert(self@.participants =~= old(self)@.participants.remove(i as int));
        gone
    }

    /// Makes `issue` the current issue.
    pub(crate) fn replace_issue(&mut self, issue: VotingIssue)
        ensures
            final(self)@ == old(self)@.with_issue(issue@),
    {
        self.current_issue = issue;
    }

    /// Records `vote` on the current issue for the participant named `name`.
    pub(crate) fn record_vote(&mut self, name: String, vote: Vote)
        ensures
            final(self)@ == old(self)@.with_issue(old(self)@.current_issue.with_vote(name@, vote)),
    {
        self.current_issue.record_vote(name, vote);
    }

    /// Closes the current issue with `outcome`.
    pub(crate) fn close_issue(&mut self, outcome: Vote)
        ensures
            final(self)@ == old(self)@.with_issue(old(self)@.current_issue.closed(outcome)),
    {
        self.current_issue.close(outcome);
    }
}

impl Clone for VotingSession {
    fn clone(&self) -> (copy: VotingSession)
        ensures
            copy@ == self@,
    {
        let mut participants: Vec<VotingParticipant> = Vec::new();
        let mut i: usize = 0;
        while i < self.participants.len()
            invariant
                i <= self.participants@.len(),
                participants@.len() == i,
                forall|k: int| 0 <= k < i ==> (#[trigger] participants@[k])@ == self.participants@[k]@,
            decreases self.participants@.len() - i,
        {
            participants.push(self.participants[i].clone());
            i += 1;
        }
        let copy = VotingSession {
            id: self.id,
            current_issue: self.current_issue.clone(),
            participants,
        };
        assert(copy@.participants =~= self@.participants);
        copy
    }
}

} // verus!
