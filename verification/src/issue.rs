//! The issue a session is currently estimating.

use crate::ids::generate_random_id;
use crate::vote::{Vote, VotingState};
use crate::vote_map::{blinded_votes, name_view, VoteMap};
use vstd::prelude::*;

verus! {

/// The view of an optional topic reference.
pub open spec fn topic_view(topic: Option<String>) -> Option<Seq<char>> {
    match topic {
        Some(t) => Some(t@),
        None => None,
    }
}

/// An issue as a mathematical value.
#[verifier::ext_equal]
pub struct IssueView {
    pub id: u32,
    pub state: VotingState,
    pub trello_card: Option<Seq<char>>,
    pub outcome: Option<Vote>,
    pub votes: Map<Seq<char>, Vote>,
}

impl IssueView {
    /// A newly opened issue: no votes, no outcome.
    pub open spec fn fresh(id: u32, trello_card: Option<Seq<char>>) -> IssueView {
        IssueView {
            id,
            state: VotingState::Opening,
            trello_card,
            outcome: None,
            votes: Map::empty(),
        }
    }

    /// The issue as it is shown to the participant named `viewer`. Until the
    /// issue is closing every vote but the viewer's own is replaced by
    /// `Secret`; a closing issue is shown as it is.
    pub open spec fn blinded(self, viewer: Option<Seq<char>>) -> IssueView {
        if self.state == VotingState::Closing {
            self
        } else {
            IssueView { votes: blinded_votes(self.votes, viewer), ..self }
        }
    }

    /// The issue after `name` has voted `vote`.
    pub open spec fn with_vote(self, name: Seq<char>, vote: Vote) -> IssueView {
        IssueView { votes: self.votes.insert(name, vote), ..self }
    }

    /// The issue after the reveal, with its outcome.
    pub open spec fn closed(self, outcome: Vote) -> IssueView {
        IssueView { state: VotingState::Closing, outcome: Some(outcome), ..self }
    }

    /// An outcome is present only once the issue is closing.
    pub open spec fn outcome_only_when_closing(self) -> bool {
        self.state != VotingState::Closing ==> self.outcome is None
    }

    /// No recorded vote is the `Secret` placeholder.
    pub open spec fn holds_no_secret(self) -> bool {
        forall|name: Seq<char>| #[trigger]
            self.votes.contains_key(name) ==> self.votes[name] != Vote::Secret
    }
}

/// The single topic that is open for estimation in a session.
#[derive(Debug)]
pub struct VotingIssue {
    id: u32,
    state: VotingState,
    trello_card: Option<String>,
    outcome: Option<Vote>,
    votes: VoteMap,
}

impl View for VotingIssue {
    type V = IssueView;

    closed spec fn view(&self) -> IssueView {
        IssueView {
            id: self.id,
            state: self.state,
            trello_card: topic_view(self.trello_card),
            outcome: self.outcome,
            votes: self.votes@,
        }
    }
}

/// A copy of an optional topic reference.
fn clone_topic(topic: &Option<String>) -> (copy: Option<String>)
    ensures
        topic_view(copy) == topic_view(*topic),
{
    match topic {
        Some(t) => Some(t.clone()),
        None => None,
    }
}

impl VotingIssue {
    /// Opens an issue on `trello_card` under a newly drawn identifier.
    pub fn new(trello_card: Option<String>) -> (issue: VotingIssue)
        ensures
            issue@ == IssueView::fresh(issue@.id, topic_view(trello_card)),
    {
        VotingIssue::with_id(generate_random_id(), trello_card)
    }

    /// Opens an issue on `trello_card` under the identifier `id`.
    pub fn with_id(id: u32, trello_card: Option<String>) -> (issue: VotingIssue)
        ensures
            issue@ == IssueView::fresh(id, topic_view(trello_card)),
    {
        VotingIssue {
            id,
            votes: VoteMap::new(),
            outcome: None,
            state: VotingState::Opening,
            trello_card,
        }
    }

    /// The issue with exactly these parts.
    pub fn from_parts(
        id: u32,
        state: VotingState,
        trello_card: Option<String>,
        outcome: Option<Vote>,
        votes: VoteMap,
    ) -> (issue: VotingIssue)
        ensures
            issue@ == (IssueView {
                id,
                state,
                trello_card: topic_view(trello_card),
                outcome,
                votes: votes@,
            }),
    {
        VotingIssue { id, state, trello_card, outcome, votes }
    }

    /// A copy of this issue as the participant named `participant_name` may
    /// see it: before the reveal with every vote but that participant's own
    /// replaced by `Secret`, after it unchanged.
    pub fn clone_blinded(&self, participant_name: Option<&String>) -> (shown: VotingIssue)
        ensures
            shown@ == self@.blinded(name_view(participant_name)),
    {
        let votes = match self.state {
            VotingState::Closing => self.votes.clone(),
            _ => self.votes.blinded(participant_name),
        };
        VotingIssue {
            id: self.id,
            votes,
            outcome: self.outcome,
            state: self.state,
            trello_card: clone_topic(&self.trello_card),
        }
    }

    /// The issue's identifier.
    pub fn id(&self) -> (id: u32)
        ensures
            id == self@.id,
    {
        self.id
    }

    /// The phase the issue is in.
    pub fn state(&self) -> (state: VotingState)
        ensures
            state == self@.state,
    {
        self.state
    }

    /// The outside reference of the topic, if it has one.
    pub fn trello_card(&self) -> (topic: Option<String>)
        ensures
            topic_view(topic) == self@.trello_card,
    {
        clone_topic(&self.trello_card)
    }

    /// The resolved vote, present once the issue is closing.
    pub fn outcome(&self) -> (outcome: Option<Vote>)
        ensures
            outcome == self@.outcome,
    {
        self.outcome
    }

    /// The votes held by this issue.
    pub fn votes(&self) -> (votes: &VoteMap)
        ensures
            votes@ == self@.votes,
    {
        &self.votes
    }

    /// Whether the topic of this issue is `topic`.
    pub fn has_topic(&self, topic: &Option<String>) -> (same: bool)
        ensures
            same == (self@.trello_card == topic_view(*topic)),
    {
        match (&self.trello_card, topic) {
            (Some(mine), Some(other)) => *mine == *other,
            (None, None) => true,
            _ => false,
        }
    }

    /// Records `vote` for the participant named `name`.
    pub(crate) fn record_vote(&mut self, name: String, vote: Vote)
        ensures
            final(self)@ == old(self)@.with_vote(name@, vote),
    {
        self.votes.insert(name, vote);
    }

    /// Closes the issue with `outcome`.
    pub(crate) fn close(&mut self, outcome: Vote)
        ensures
            final(self)@ == old(self)@.closed(outcome),
    {
        self.state = VotingState::Closing;
        self.outcome = Some(outcome);
    }
}

impl Clone for VotingIssue {
    fn clone(&self) -> (copy: VotingIssue)
        ensures
            copy@ == self@,
    {
        VotingIssue {
            id: self.id,
            state: self.state,
            outcome: self.outcome,
            votes: self.votes.clone(),
            trello_card: clone_topic(&self.trello_card),
        }
    }
}

} // verus!
