//! What holds of the coordinator, whatever the requests.

use crate::issue::IssueView;
use crate::message::{broadcast, MessageView, OutboundView};
use crate::connection::stamped;
use crate::model::{
    join_refusal, normalized_topic, resolved_outcome, Operation, RegistryView, SESSION_TIMEOUT,
};
use crate::session::ParticipantView;
use crate::vote::{SessionJoinError, Vote, VotingState};
use crate::vote_map::blinded_votes;
use vstd::prelude::*;

verus! {

/// A session that has just been created has its creator as the only
/// participant and an opening issue without votes, and the creator is told
/// exactly that.
pub proof fn law_created_session<C>(
    pre: RegistryView<C>,
    session_id: u32,
    issue_id: u32,
    participant_id: u32,
    name: Seq<char>,
)
    ensures
        ({
            let step = pre.create_session(session_id, issue_id, participant_id, name);
            let session = step.next.sessions[session_id];
            &&& step.next.sessions.contains_key(session_id)
            &&& session.participants == seq![ParticipantView { id: participant_id, name }]
            &&& session.names() == seq![name]
            &&& session.current_issue.state == VotingState::Opening
            &&& session.current_issue.votes == Map::<Seq<char>, Vote>::empty()
            &&& session.current_issue.outcome is None
            &&& step.outbox == seq![
                OutboundView {
                    recipient: participant_id,
                    message: MessageView::SessionInfoResponse {
                        session_id,
                        current_issue: IssueView::fresh(issue_id, None),
                        current_participants: seq![name],
                    },
                },
            ]
        }),
{
    let step = pre.create_session(session_id, issue_id, participant_id, name);
    assert(step.next.sessions[session_id].names() =~= seq![name]);
    law_fresh_issue_hides_nothing(issue_id, None, Some(name));
}

/// A newly opened issue has no votes to hide: it is shown to every reader
/// as it is.
pub proof fn law_fresh_issue_hides_nothing(
    id: u32,
    trello_card: Option<Seq<char>>,
    viewer: Option<Seq<char>>,
)
    ensures
        IssueView::fresh(id, trello_card).blinded(viewer) == IssueView::fresh(id, trello_card),
{
    assert(blinded_votes(Map::<Seq<char>, Vote>::empty(), viewer) =~= Map::<
        Seq<char>,
        Vote,
    >::empty());
}

/// Joining a session that is not registered is refused as `UnknownSession`
/// and changes nothing.
pub proof fn law_join_unknown_session<C>(
    pre: RegistryView<C>,
    session_id: u32,
    participant_id: u32,
    name: Seq<char>,
)
    requires
        !pre.sessions.contains_key(session_id),
    ensures
        pre.join_session(session_id, participant_id, name).next == pre,
        pre.join_session(session_id, participant_id, name).outbox == join_refusal(
            participant_id,
            session_id,
            SessionJoinError::UnknownSession,
        ),
{
}

/// Joining under a name that a participant of the session already has is
/// refused as `ParticipantNameTaken` and changes nothing: the participant
/// list is as it was.
pub proof fn law_join_name_taken<C>(
    pre: RegistryView<C>,
    session_id: u32,
    participant_id: u32,
    name: Seq<char>,
)
    requires
        pre.sessions.contains_key(session_id),
        pre.sessions[session_id].has_name(name),
    ensures
        pre.join_session(session_id, participant_id, name).next == pre,
        pre.join_session(session_id, participant_id, name).next.sessions[session_id].participants
            == pre.sessions[session_id].participants,
        pre.join_session(session_id, participant_id, name).outbox == join_refusal(
            participant_id,
            session_id,
            SessionJoinError::ParticipantNameTaken,
        ),
{
}

/// Once a vote that is taken leaves every participant's name with a vote,
/// the issue is closing with all votes as cast, and after the receipts each
/// participant is sent the unblinded votes and the outcome, once.
pub proof fn law_last_vote_reveals<C>(
    pre: RegistryView<C>,
    session_id: u32,
    issue_id: u32,
    participant_id: u32,
    vote: Vote,
)
    requires
        pre.vote_is_taken(session_id, issue_id, participant_id, vote),
        ({
            let before = pre.sessions[session_id];
            let name = before.participants[before.position_of(participant_id)->0].name;
            before.with_issue(before.current_issue.with_vote(name, vote)).all_votes_cast()
        }),
    ensures
        ({
            let before = pre.sessions[session_id];
            let name = before.participants[before.position_of(participant_id)->0].name;
            let votes = before.current_issue.votes.insert(name, vote);
            let step = pre.cast_vote(session_id, issue_id, participant_id, vote);
            let after = step.next.sessions[session_id];
            &&& before.participants.len() >= 1
            &&& after.participants == before.participants
            &&& after.current_issue.id == issue_id
            &&& after.current_issue.state == VotingState::Closing
            &&& after.current_issue.votes == votes
            &&& after.current_issue.outcome == Some(resolved_outcome(votes))
            &&& step.outbox == broadcast(
                before.ids(),
                MessageView::VoteReceiptAnnouncement { participant_name: name, issue_id },
            ) + broadcast(
                before.ids(),
                MessageView::VotingResultsRevelation {
                    issue_id,
                    votes,
                    outcome: resolved_outcome(votes),
                },
            )
        }),
{
    let before = pre.sessions[session_id];
    before.ids().index_of_first_ensures(participant_id);
}

/// While votes are still awaited after a vote that is taken, the issue
/// stays open and only the receipts are sent.
pub proof fn law_early_vote_is_kept_secret<C>(
    pre: RegistryView<C>,
    session_id: u32,
    issue_id: u32,
    participant_id: u32,
    vote: Vote,
)
    requires
        pre.vote_is_taken(session_id, issue_id, participant_id, vote),
        ({
            let before = pre.sessions[session_id];
            let name = before.participants[before.position_of(participant_id)->0].name;
            !before.with_issue(before.current_issue.with_vote(name, vote)).all_votes_cast()
        }),
    ensures
        ({
            let before = pre.sessions[session_id];
            let name = before.participants[before.position_of(participant_id)->0].name;
            let step = pre.cast_vote(session_id, issue_id, participant_id, vote);
            let after = step.next.sessions[session_id];
            &&& after.current_issue.state == before.current_issue.state
            &&& after.current_issue.outcome == before.current_issue.outcome
            &&& after.current_issue.votes == before.current_issue.votes.insert(name, vote)
            &&& step.outbox == broadcast(
                before.ids(),
                MessageView::VoteReceiptAnnouncement { participant_name: name, issue_id },
            )
        }),
{
}

/// When a participant leaves and everyone who remains has voted on an issue
/// that is not closing yet, the issue is closing with all votes as cast, and
/// after the leave announcements each remaining participant is sent the
/// unblinded votes and the outcome, once.
pub proof fn law_departure_reveals<C>(
    pre: RegistryView<C>,
    participant_id: u32,
    session_id: u32,
    now: u64,
)
    requires
        pre.sessions.contains_key(session_id),
        pre.sessions[session_id].position_of(participant_id) is Some,
        pre.sessions[session_id].participants.len() > 1,
        pre.sessions[session_id].current_issue.state != VotingState::Closing,
        pre.sessions[session_id].without(
            pre.sessions[session_id].position_of(participant_id)->0,
        ).all_votes_cast(),
    ensures
        ({
            let before = pre.sessions[session_id];
            let place = before.position_of(participant_id)->0;
            let votes = before.current_issue.votes;
            let step = pre.disconnect(participant_id, session_id, now);
            let after = step.next.sessions[session_id];
            &&& after.participants == before.participants.remove(place)
            &&& after.current_issue.id == before.current_issue.id
            &&& after.current_issue.state == VotingState::Closing
            &&& after.current_issue.votes == votes
            &&& after.current_issue.outcome == Some(resolved_outcome(votes))
            &&& step.next.pending_eviction == pre.pending_eviction
            &&& step.outbox == broadcast(
                after.ids(),
                MessageView::ParticipantLeaveAnnouncement {
                    participant_name: before.participants[place].name,
                },
            ) + broadcast(
                after.ids(),
                MessageView::VotingResultsRevelation {
                    issue_id: before.current_issue.id,
                    votes,
                    outcome: resolved_outcome(votes),
                },
            )
        }),
{
    let before = pre.sessions[session_id];
    before.ids().index_of_first_ensures(participant_id);
}

/// Whether `outbox` holds a revelation of votes.
pub open spec fn reveals(outbox: Seq<OutboundView>) -> bool {
    exists|i: int| 0 <= i < outbox.len() && (#[trigger] outbox[i]).message is VotingResultsRevelation
}

/// An issue that is closing stays as it is under every operation that does
/// not replace or delete it, and no such operation on its session reveals
/// the votes a second time. A change of topic replaces it by an issue under
/// another identifier.
pub proof fn law_revealed_once<C>(pre: RegistryView<C>, session_id: u32, op: Operation<C>)
    requires
        pre.sessions.contains_key(session_id),
        pre.sessions[session_id].current_issue.state == VotingState::Closing,
        match op {
            Operation::CreateSession { session_id: created, .. } => created != session_id,
            Operation::JoinSession { session_id: addressed, .. } => addressed == session_id,
            Operation::ChangeTopic { session_id: addressed, .. } => addressed == session_id,
            Operation::CastVote { session_id: addressed, .. } => addressed == session_id,
            Operation::Disconnect { session_id: addressed, .. } => addressed == session_id,
            _ => true,
        },
    ensures
        !reveals(pre.apply(op).outbox),
        pre.apply(op).next.sessions.contains_key(session_id) ==> {
            let issue = pre.apply(op).next.sessions[session_id].current_issue;
            issue == pre.sessions[session_id].current_issue || issue.id
                != pre.sessions[session_id].current_issue.id
        },
{
    let before = pre.sessions[session_id];
    match op {
        Operation::Disconnect { participant_id, .. } => {
            if before.position_of(participant_id) is Some {
                let remaining = before.without(before.position_of(participant_id)->0);
                assert(remaining.revelations() =~= Seq::empty());
            }
        },
        _ => {},
    }
}

/// What a participant is shown of an issue before the reveal: the names
/// that have voted, its own vote as cast, `Secret` for every other vote,
/// and the rest of the issue as it is.
pub proof fn law_blinded_before_reveal(
    issue: IssueView,
    viewer: Seq<char>,
)
    requires
        issue.state != VotingState::Closing,
    ensures
        ({
            let shown = issue.blinded(Some(viewer));
            &&& shown.id == issue.id
            &&& shown.state == issue.state
            &&& shown.trello_card == issue.trello_card
            &&& shown.outcome == issue.outcome
            &&& shown.votes.dom() == issue.votes.dom()
            &&& issue.votes.contains_key(viewer) ==> shown.votes[viewer] == issue.votes[viewer]
            &&& forall|name: Seq<char>| #[trigger]
                issue.votes.contains_key(name) && name != viewer ==> shown.votes[name]
                    == Vote::Secret
        }),
{
    let shown = issue.blinded(Some(viewer));
    assert(shown.votes.dom() =~= issue.votes.dom());
}

/// Once an issue is closing it is shown to everyone as it is.
pub proof fn law_unblinded_after_reveal(issue: IssueView, viewer: Option<Seq<char>>)
    requires
        issue.state == VotingState::Closing,
    ensures
        issue.blinded(viewer) == issue,
{
}

/// A request for the topic that the session already has is ignored: the
/// issue keeps its identifier and nothing is sent.
pub proof fn law_same_topic_is_ignored<C>(
    pre: RegistryView<C>,
    session_id: u32,
    trello_card: Seq<char>,
    drawn_id: u32,
)
    requires
        pre.sessions.contains_key(session_id),
        pre.sessions[session_id].current_issue.trello_card == normalized_topic(trello_card),
    ensures
        pre.change_topic(session_id, trello_card, drawn_id).next == pre,
        pre.change_topic(session_id, trello_card, drawn_id).outbox == Seq::<OutboundView>::empty(),
{
}

/// A request for another topic opens an issue under another identifier,
/// without votes, and announces it to every participant.
pub proof fn law_new_topic_opens_new_issue<C>(
    pre: RegistryView<C>,
    session_id: u32,
    trello_card: Seq<char>,
    drawn_id: u32,
)
    requires
        pre.sessions.contains_key(session_id),
        pre.sessions[session_id].current_issue.trello_card != normalized_topic(trello_card),
    ensures
        ({
            let before = pre.sessions[session_id];
            let step = pre.change_topic(session_id, trello_card, drawn_id);
            let after = step.next.sessions[session_id];
            &&& after.current_issue.id != before.current_issue.id
            &&& after.current_issue.votes == Map::<Seq<char>, Vote>::empty()
            &&& after.current_issue.state == VotingState::Opening
            &&& after.current_issue.outcome is None
            &&& after.current_issue.trello_card == normalized_topic(trello_card)
            &&& after.participants == before.participants
            &&& step.outbox == broadcast(
                before.ids(),
                MessageView::VotingIssueAnnouncement { voting_issue: after.current_issue },
            )
        }),
{
}

/// A vote addressed to an issue that a change of topic has replaced is
/// ignored.
pub proof fn law_stale_vote_is_ignored<C>(
    pre: RegistryView<C>,
    session_id: u32,
    trello_card: Seq<char>,
    drawn_id: u32,
    participant_id: u32,
    vote: Vote,
)
    requires
        pre.topic_changes(session_id, trello_card),
    ensures
        ({
            let changed = pre.change_topic(session_id, trello_card, drawn_id).next;
            let stale = pre.sessions[session_id].current_issue.id;
            changed.cast_vote(session_id, stale, participant_id, vote) == changed.ignored()
        }),
{
}

/// When the only participant of a session disconnects, the session is not
/// deleted: it stays registered with its issue and votes as they were, has
/// no participants, and awaits eviction as of the time of the disconnect.
pub proof fn law_emptied_session_is_kept<C>(
    pre: RegistryView<C>,
    session_id: u32,
    participant_id: u32,
    now: u64,
)
    requires
        pre.sessions.contains_key(session_id),
        pre.sessions[session_id].participants.len() == 1,
        pre.sessions[session_id].participants[0].id == participant_id,
    ensures
        ({
            let step = pre.disconnect(participant_id, session_id, now);
            &&& step.next.sessions.contains_key(session_id)
            &&& step.next.sessions[session_id].participants.len() == 0
            &&& step.next.sessions[session_id].current_issue
                == pre.sessions[session_id].current_issue
            &&& step.next.pending_eviction.contains_key(session_id)
            &&& step.next.pending_eviction[session_id] == now
            &&& step.outbox == Seq::<OutboundView>::empty()
        }),
{
    let before = pre.sessions[session_id];
    before.ids().index_of_first_ensures(participant_id);
    assert(before.ids()[0] == participant_id);
    assert(before.position_of(participant_id) == Some(0int));
}

/// A sweep deletes a session exactly if it has awaited eviction for longer
/// than the eviction window. A deleted session cannot be reached under its
/// identifier any more: a request to join it is refused as unknown.
pub proof fn law_sweep_evicts_overdue<C>(
    pre: RegistryView<C>,
    session_id: u32,
    now: u64,
    participant_id: u32,
    name: Seq<char>,
)
    requires
        pre.sessions.contains_key(session_id),
    ensures
        pre.sweep(now).sessions.contains_key(session_id) <==> !(pre.pending_eviction.contains_key(
            session_id,
        ) && now - pre.pending_eviction[session_id] > SESSION_TIMEOUT),
        pre.sweep(now).sessions.contains_key(session_id) ==> pre.sweep(now).sessions[session_id]
            == pre.sessions[session_id],
        !pre.sweep(now).sessions.contains_key(session_id) ==> pre.sweep(now).join_session(
            session_id,
            participant_id,
            name,
        ).outbox == join_refusal(participant_id, session_id, SessionJoinError::UnknownSession),
{
}

/// Joining a session that awaits eviction cancels the eviction: no later
/// sweep deletes the session on that account, and its issue and votes are
/// as they were.
pub proof fn law_rejoin_cancels_eviction<C>(
    pre: RegistryView<C>,
    session_id: u32,
    participant_id: u32,
    name: Seq<char>,
    later: u64,
)
    requires
        pre.sessions.contains_key(session_id),
        pre.pending_eviction.contains_key(session_id),
        !pre.sessions[session_id].has_name(name),
    ensures
        ({
            let joined = pre.join_session(session_id, participant_id, name).next;
            &&& !joined.pending_eviction.contains_key(session_id)
            &&& joined.sessions[session_id].current_issue == pre.sessions[session_id].current_issue
            &&& joined.sweep(later).sessions.contains_key(session_id)
            &&& joined.sweep(later).sessions[session_id] == joined.sessions[session_id]
        }),
{
}

/// The registry before anyone has connected is well formed.
pub proof fn law_empty_is_well_formed<C>()
    ensures
        RegistryView::<C>::empty().well_formed(),
{
}

/// Every operation keeps the registry well formed: in every state that can
/// be reached, each session is registered under its own identifier, names
/// are unique within a session, an issue has an outcome only once it is
/// closing, and `Secret` is never recorded as a vote.
pub proof fn law_well_formed_is_kept<C>(pre: RegistryView<C>, op: Operation<C>)
    requires
        pre.well_formed(),
    ensures
        pre.apply(op).next.well_formed(),
{
    let next = pre.apply(op).next;
    assert forall|id: u32| #[trigger] next.sessions.contains_key(id) implies {
        &&& next.sessions[id].id == id
        &&& next.sessions[id].names_distinct()
        &&& next.sessions[id].current_issue.outcome_only_when_closing()
        &&& next.sessions[id].current_issue.holds_no_secret()
    } by {
        if pre.sessions.contains_key(id) && next.sessions[id] == pre.sessions[id] {
        } else {
            match op {
                Operation::CreateSession { session_id, issue_id, participant_id, name } => {
                    assert(next.sessions[id].names() =~= seq![name]);
                },
                Operation::JoinSession { session_id, participant_id, name } => {
                    let before = pre.sessions[session_id];
                    assert(next.sessions[id].names() =~= before.names().push(name));
                    assert(!before.names().contains(name));
                    assert forall|i: int, j: int|
                        0 <= i < before.names().len() + 1 && 0 <= j < before.names().len() + 1
                            && i != j implies before.names().push(name)[i] != before.names().push(
                        name,
                    )[j] by {
                        if i < before.names().len() && j < before.names().len() {
                        } else if i < before.names().len() {
                            assert(before.names()[i] != name);
                        } else {
                            assert(before.names()[j] != name);
                        }
                    }
                },
                Operation::ChangeTopic { .. } => {},
                Operation::CastVote { session_id, issue_id, participant_id, vote } => {
                    let before = pre.sessions[session_id];
                    let name = before.participants[before.position_of(participant_id)->0].name;
                    let voted = before.with_issue(before.current_issue.with_vote(name, vote));
                    assert(voted.current_issue.holds_no_secret());
                },
                Operation::Disconnect { participant_id, session_id, now } => {
                    let before = pre.sessions[session_id];
                    before.ids().index_of_first_ensures(participant_id);
                    let place = before.position_of(participant_id)->0;
                    let remaining = before.without(place);
                    assert(remaining.names() =~= before.names().remove(place));
                    assert forall|i: int, j: int|
                        0 <= i < remaining.names().len() && 0 <= j < remaining.names().len() && i
                            != j implies remaining.names()[i] != remaining.names()[j] by {
                        let a = if i < place { i } else { i + 1 };
                        let b = if j < place { j } else { j + 1 };
                        assert(remaining.names()[i] == before.names()[a]);
                        assert(remaining.names()[j] == before.names()[b]);
                    }
                },
                _ => {},
            }
        }
    }
}

/// As long as sessions are created under identifiers that are not in use,
/// the sessions that await eviction are in every state exactly the
/// registered sessions without participants: no abandoned session escapes
/// the sweeper.
pub proof fn law_evictions_match_emptiness<C>(pre: RegistryView<C>, op: Operation<C>)
    requires
        pre.evictions_match_emptiness(),
        op matches Operation::CreateSession { session_id, .. } ==> !pre.sessions.contains_key(
            session_id,
        ),
    ensures
        RegistryView::<C>::empty().evictions_match_emptiness(),
        pre.apply(op).next.evictions_match_emptiness(),
{
    let next = pre.apply(op).next;
    match op {
        Operation::Disconnect { participant_id, session_id, now } => {
            if pre.sessions.contains_key(session_id) {
                pre.sessions[session_id].ids().index_of_first_ensures(participant_id);
            }
        },
        _ => {},
    }
    assert forall|id: u32| #[trigger] next.pending_eviction.contains_key(id) implies
        next.sessions.contains_key(id) by {
        assert(pre.pending_eviction.contains_key(id) ==> pre.sessions.contains_key(id));
    }
    assert forall|id: u32| #[trigger] next.sessions.contains_key(id) implies (
    next.sessions[id].participants.len() == 0 <==> next.pending_eviction.contains_key(id)) by {
        assert(pre.pending_eviction.contains_key(id) ==> pre.sessions.contains_key(id));
        assert(pre.sessions.contains_key(id) ==> (pre.sessions[id].participants.len() == 0
            <==> pre.pending_eviction.contains_key(id)));
    }
}

/// A sweep never deletes a session that has participants.
pub proof fn law_sweep_spares_live_sessions<C>(pre: RegistryView<C>, session_id: u32, now: u64)
    requires
        pre.evictions_match_emptiness(),
        pre.sessions.contains_key(session_id),
        pre.sessions[session_id].participants.len() > 0,
    ensures
        pre.sweep(now).sessions.contains_key(session_id),
        pre.sweep(now).sessions[session_id] == pre.sessions[session_id],
{
}

/// The session that an operation addresses.
pub open spec fn addressed_session<C>(op: Operation<C>) -> u32 {
    match op {
        Operation::CreateSession { session_id, .. } => session_id,
        Operation::JoinSession { session_id, .. } => session_id,
        Operation::ChangeTopic { session_id, .. } => session_id,
        Operation::CastVote { session_id, .. } => session_id,
        Operation::Disconnect { session_id, .. } => session_id,
        _ => 0,
    }
}

/// The name under which the participant that an operation serves is known.
pub open spec fn served_name<C>(op: Operation<C>) -> Option<Seq<char>> {
    match op {
        Operation::CreateSession { name, .. } => Some(name),
        Operation::JoinSession { name, .. } => Some(name),
        _ => None,
    }
}

/// No message leaks a vote before the reveal. An issue that is sent while
/// it is not closing shows no vote but `Secret`, except the recipient's own
/// to the participant that created or joined the session; and the votes are
/// revealed only for an issue that the same operation leaves closing, and
/// then as they are recorded.
pub proof fn law_votes_are_blind_until_reveal<C>(pre: RegistryView<C>, op: Operation<C>, i: int)
    requires
        0 <= i < pre.apply(op).outbox.len(),
    ensures
        match pre.apply(op).outbox[i].message {
            MessageView::SessionInfoResponse { current_issue, .. } => {
                current_issue.state != VotingState::Closing ==> forall|name: Seq<char>| #[trigger]
                    current_issue.votes.contains_key(name) && current_issue.votes[name]
                        != Vote::Secret ==> served_name(op) == Some(name)
            },
            MessageView::VotingIssueAnnouncement { voting_issue } => {
                voting_issue.votes == Map::<Seq<char>, Vote>::empty()
            },
            MessageView::VotingResultsRevelation { issue_id, votes, outcome } => {
                let session = pre.apply(op).next.sessions[addressed_session(op)];
                &&& pre.apply(op).next.sessions.contains_key(addressed_session(op))
                &&& session.current_issue.state == VotingState::Closing
                &&& session.current_issue.id == issue_id
                &&& session.current_issue.votes == votes
                &&& session.current_issue.outcome == Some(outcome)
            },
            _ => true,
        },
{
    let step = pre.apply(op);
    match op {
        Operation::CastVote { session_id, issue_id, participant_id, vote } => {
            if pre.vote_is_taken(session_id, issue_id, participant_id, vote) {
                let before = pre.sessions[session_id];
                let name = before.participants[before.position_of(participant_id)->0].name;
                let voted = before.with_issue(before.current_issue.with_vote(name, vote));
                if i >= voted.ids().len() {
                    assert(voted.reveal_is_due());
                }
            }
        },
        Operation::Disconnect { participant_id, session_id, now } => {
            if pre.sessions.contains_key(session_id) && pre.sessions[session_id].position_of(
                participant_id,
            ) is Some {
                let before = pre.sessions[session_id];
                let remaining = before.without(before.position_of(participant_id)->0);
                if remaining.participants.len() > 0 && i >= remaining.ids().len() {
                    assert(remaining.reveal_is_due());
                }
            }
        },
        _ => {},
    }
}

/// The participant that a request names as its sender, if it names one.
pub open spec fn claimed_sender(msg: MessageView) -> Option<u32> {
    match msg {
        MessageView::CreateSessionRequest { participant_id, .. } => Some(participant_id),
        MessageView::JoinSessionRequest { participant_id, .. } => Some(participant_id),
        MessageView::TopicChangeRequest { participant_id, .. } => Some(participant_id),
        MessageView::VoteRequest { participant_id, .. } => Some(participant_id),
        MessageView::VoteRevelationRequest { participant_id, .. } => Some(participant_id),
        _ => None,
    }
}

/// A request that a connection has stamped names the connection's own
/// participant as its sender, whatever the client wrote, and what it acts on
/// within a session is the connection's own session: no client can speak for
/// another.
pub proof fn law_stamp_overrides_claims(msg: MessageView, participant: u32, session: u32)
    ensures
        claimed_sender(msg) is Some ==> claimed_sender(stamped(msg, participant, session)) == Some(
            participant,
        ),
        claimed_sender(msg) is None ==> stamped(msg, participant, session) == msg,
        stamped(msg, participant, session) matches MessageView::TopicChangeRequest {
            session_id,
            ..
        } ==> session_id == session,
        stamped(msg, participant, session) matches MessageView::VoteRequest { session_id, .. }
            ==> session_id == session,
        forall|other: u32, elsewhere: u32|
            stamped(stamped(msg, other, elsewhere), participant, session) == stamped(
                msg,
                participant,
                session,
            ),
{
}

} // verus!
