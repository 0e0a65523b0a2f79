use planning_poker::message::{Disconnect, Outbound, PokerMessage};
use planning_poker::model::{SESSION_TIMEOUT, SESSION_TIMEOUT_CHECK_INTERVAL};
use planning_poker::registry::{resolve_outcome, reveal_if_everyone_voted, Registry};
use planning_poker::session::VotingSession;
use planning_poker::issue::VotingIssue;
use planning_poker::vote::{SessionJoinError, Vote, VotingState};
use planning_poker::vote_map::VoteMap;

const S: u32 = 100;
const I1: u32 = 500;
const A: u32 = 1;
const B: u32 = 2;
const C: u32 = 3;

fn name(s: &str) -> String {
    s.to_string()
}

/// A registry with the session `S`, created by `A` under the name "A".
fn with_session() -> Registry<String> {
    let mut registry: Registry<String> = Registry::new();
    registry.connect_with_id(A, name("channel of A"));
    let outbox = registry.create_session_with_ids(S, I1, A, name("A"));
    assert_eq!(outbox.len(), 1);
    registry
}

/// A registry with the session `S` and the participants "A" and "B".
fn with_two() -> Registry<String> {
    let mut registry = with_session();
    registry.connect_with_id(B, name("channel of B"));
    let outbox = registry.join_session(S, B, name("B"));
    assert_eq!(outbox.len(), 2);
    registry
}

fn recipients(outbox: &Vec<Outbound>) -> Vec<u32> {
    outbox.iter().map(|o| o.recipient).collect()
}

fn assert_receipt(out: &Outbound, recipient: u32, voter: &str, issue: u32) {
    assert_eq!(out.recipient, recipient);
    match &out.message {
        PokerMessage::VoteReceiptAnnouncement { participant_name, issue_id } => {
            assert_eq!(participant_name, voter);
            assert_eq!(*issue_id, issue);
        }
        other => panic!("not a receipt: {:?}", other),
    }
}

fn assert_revelation(out: &Outbound, recipient: u32, issue: u32, expected: &[(&str, Vote)]) {
    assert_eq!(out.recipient, recipient);
    match &out.message {
        PokerMessage::VotingResultsRevelation { issue_id, votes, outcome } => {
            assert_eq!(*issue_id, issue);
            assert_eq!(votes.len(), expected.len());
            for (voter, vote) in expected {
                assert_eq!(votes.get(&voter.to_string()), Some(*vote));
            }
            assert_eq!(*outcome, Vote::Unknown);
        }
        other => panic!("not a revelation: {:?}", other),
    }
}

fn assert_refusal(outbox: &Vec<Outbound>, recipient: u32, session: u32, expected: SessionJoinError) {
    assert_eq!(outbox.len(), 1);
    assert_eq!(outbox[0].recipient, recipient);
    match &outbox[0].message {
        PokerMessage::SessionJoinErrorResponse { session_id, error } => {
            assert_eq!(*session_id, session);
            assert_eq!(*error, expected);
        }
        other => panic!("not a refusal: {:?}", other),
    }
}

#[test]
fn new_registry_is_empty() {
    let registry: Registry<String> = Registry::new();
    assert!(registry.session(S).is_none());
    assert!(registry.channel(A).is_none());
    assert!(registry.pending_eviction(S).is_none());
}

#[test]
fn connect_stores_the_channel_under_the_returned_id() {
    let mut registry: Registry<String> = Registry::new();
    let id = registry.connect(name("socket"));
    assert_eq!(registry.channel(id), Some(&name("socket")));
    assert!(registry.channel(id.wrapping_add(1)).is_none());
}

#[test]
fn connect_with_id_uses_a_free_draw_as_it_is() {
    let mut registry: Registry<String> = Registry::new();
    assert_eq!(registry.connect_with_id(A, name("first")), A);
    assert_eq!(registry.connect_with_id(7, name("other")), 7);
    assert_eq!(registry.channel(A), Some(&name("first")));
    assert_eq!(registry.channel(7), Some(&name("other")));
}

#[test]
fn connect_with_id_never_takes_over_a_channel() {
    let mut registry: Registry<String> = Registry::new();
    assert_eq!(registry.connect_with_id(A, name("first")), A);
    assert_eq!(registry.connect_with_id(A + 1, name("next")), A + 1);
    assert_eq!(registry.connect_with_id(A, name("second")), A + 2);
    assert_eq!(registry.channel(A), Some(&name("first")));
    assert_eq!(registry.channel(A + 1), Some(&name("next")));
    assert_eq!(registry.channel(A + 2), Some(&name("second")));
}

#[test]
fn connect_with_id_goes_round_after_the_largest_id() {
    let mut registry: Registry<String> = Registry::new();
    assert_eq!(registry.connect_with_id(u32::MAX, name("last")), u32::MAX);
    assert_eq!(registry.connect_with_id(u32::MAX, name("round")), 0);
    assert_eq!(registry.connect_with_id(u32::MAX, name("again")), 1);
    assert_eq!(registry.channel(0), Some(&name("round")));
}

#[test]
fn connect_gives_distinct_identifiers() {
    let mut registry: Registry<u32> = Registry::new();
    let mut seen: Vec<u32> = Vec::new();
    for n in 0..200 {
        let id = registry.connect(n);
        assert!(!seen.contains(&id));
        seen.push(id);
    }
    for (n, id) in seen.iter().enumerate() {
        assert_eq!(registry.channel(*id), Some(&(n as u32)));
    }
}

#[test]
fn create_session_never_replaces_a_session() {
    let mut registry = with_two();
    registry.cast_vote(S, I1, A, Vote::Five);
    let outbox = registry.create_session_with_ids(S, 900, C, name("C"));
    match &outbox[0].message {
        PokerMessage::SessionInfoResponse { session_id, current_issue, current_participants } => {
            assert_eq!(*session_id, S + 1);
            assert_eq!(current_issue.id(), 900);
            assert_eq!(current_participants, &vec![name("C")]);
        }
        other => panic!("not a session info: {:?}", other),
    }
    let old = registry.session(S).unwrap();
    assert_eq!(old.participant_names(), vec![name("A"), name("B")]);
    assert_eq!(old.current_issue().votes().get(&name("A")), Some(Vote::Five));
    let new = registry.session(S + 1).unwrap();
    assert_eq!(new.id(), S + 1);
    assert_eq!(new.participant_ids(), vec![C]);
}

#[test]
fn create_session_does_not_take_an_id_that_awaits_eviction() {
    let mut registry = with_session();
    registry.disconnect(Disconnect { participant_id: A, session_id: S }, 10);
    registry.create_session_with_ids(S, 900, B, name("B"));
    assert_eq!(registry.session(S).unwrap().participant_count(), 0);
    assert_eq!(registry.session(S + 1).unwrap().participant_ids(), vec![B]);
    registry.sweep(10 + SESSION_TIMEOUT + 1);
    assert!(registry.session(S).is_none());
    assert_eq!(registry.session(S + 1).unwrap().participant_ids(), vec![B]);
}

#[test]
fn create_session_registers_creator_alone() {
    let mut registry: Registry<String> = Registry::new();
    let outbox = registry.create_session_with_ids(S, I1, A, name("A"));
    let session = registry.session(S).expect("the session is registered");
    assert_eq!(session.id(), S);
    assert_eq!(session.participant_names(), vec![name("A")]);
    assert_eq!(session.participant_ids(), vec![A]);
    assert_eq!(session.current_issue().id(), I1);
    assert_eq!(session.current_issue().state(), VotingState::Opening);
    assert_eq!(session.current_issue().votes().len(), 0);
    assert_eq!(session.current_issue().outcome(), None);
    assert_eq!(session.current_issue().trello_card(), None);
    assert!(registry.pending_eviction(S).is_none());

    assert_eq!(outbox.len(), 1);
    assert_eq!(outbox[0].recipient, A);
    match &outbox[0].message {
        PokerMessage::SessionInfoResponse { session_id, current_issue, current_participants } => {
            assert_eq!(*session_id, S);
            assert_eq!(current_issue.id(), I1);
            assert_eq!(current_issue.state(), VotingState::Opening);
            assert_eq!(current_issue.votes().len(), 0);
            assert_eq!(current_participants, &vec![name("A")]);
        }
        other => panic!("not a session info: {:?}", other),
    }
}

#[test]
fn create_session_draws_its_identifiers() {
    let mut registry: Registry<String> = Registry::new();
    let outbox = registry.create_session(A, name("A"));
    assert_eq!(outbox.len(), 1);
    assert_eq!(outbox[0].recipient, A);
    match &outbox[0].message {
        PokerMessage::SessionInfoResponse { session_id, current_issue, current_participants } => {
            let session = registry.session(*session_id).expect("registered under the id it tells");
            assert_eq!(session.id(), *session_id);
            assert_eq!(session.current_issue().id(), current_issue.id());
            assert_eq!(session.participant_names(), vec![name("A")]);
            assert_eq!(current_issue.state(), VotingState::Opening);
            assert_eq!(current_issue.votes().len(), 0);
            assert_eq!(current_participants, &vec![name("A")]);
        }
        other => panic!("not a session info: {:?}", other),
    }
}

#[test]
fn join_unknown_session_is_refused_and_changes_nothing() {
    let mut registry = with_session();
    let outbox = registry.join_session(S + 1, B, name("B"));
    assert_refusal(&outbox, B, S + 1, SessionJoinError::UnknownSession);
    assert!(registry.session(S + 1).is_none());
    let session = registry.session(S).unwrap();
    assert_eq!(session.participant_names(), vec![name("A")]);
    assert_eq!(session.current_issue().id(), I1);
}

#[test]
fn join_with_taken_name_is_refused_and_changes_nothing() {
    let mut registry = with_two();
    let outbox = registry.join_session(S, C, name("A"));
    assert_refusal(&outbox, C, S, SessionJoinError::ParticipantNameTaken);
    let session = registry.session(S).unwrap();
    assert_eq!(session.participant_names(), vec![name("A"), name("B")]);
    assert_eq!(session.participant_ids(), vec![A, B]);
}

#[test]
fn join_names_are_case_sensitive() {
    let mut registry = with_session();
    let outbox = registry.join_session(S, B, name("a"));
    assert_eq!(outbox.len(), 2);
    let session = registry.session(S).unwrap();
    assert_eq!(session.participant_names(), vec![name("A"), name("a")]);
}

#[test]
fn join_tells_the_joiner_and_announces_to_the_others() {
    let mut registry = with_two();
    let outbox = registry.join_session(S, C, name("C"));
    assert_eq!(recipients(&outbox), vec![C, A, B]);
    match &outbox[0].message {
        PokerMessage::SessionInfoResponse { session_id, current_issue, current_participants } => {
            assert_eq!(*session_id, S);
            assert_eq!(current_issue.id(), I1);
            assert_eq!(current_participants, &vec![name("A"), name("B"), name("C")]);
        }
        other => panic!("not a session info: {:?}", other),
    }
    for out in &outbox[1..] {
        match &out.message {
            PokerMessage::ParticipantJoinAnnouncement { participant_name } => {
                assert_eq!(participant_name, "C");
            }
            other => panic!("not a join announcement: {:?}", other),
        }
    }
    let session = registry.session(S).unwrap();
    assert_eq!(session.participant_ids(), vec![A, B, C]);
}

#[test]
fn joiner_sees_earlier_votes_as_secret() {
    let mut registry = with_two();
    registry.cast_vote(S, I1, A, Vote::Five);
    let outbox = registry.join_session(S, C, name("C"));
    match &outbox[0].message {
        PokerMessage::SessionInfoResponse { current_issue, .. } => {
            assert_eq!(current_issue.state(), VotingState::Opening);
            assert_eq!(current_issue.votes().len(), 1);
            assert_eq!(current_issue.votes().get(&name("A")), Some(Vote::Secret));
        }
        other => panic!("not a session info: {:?}", other),
    }
    // the vote itself is kept as cast
    let kept = registry.session(S).unwrap().current_issue().votes().get(&name("A"));
    assert_eq!(kept, Some(Vote::Five));
}

#[test]
fn joiner_under_a_name_that_voted_sees_that_vote() {
    let mut registry = with_two();
    registry.connect_with_id(C, name("channel of C"));
    registry.join_session(S, C, name("C"));
    registry.cast_vote(S, I1, B, Vote::Eight);
    registry.disconnect(Disconnect { participant_id: B, session_id: S }, 10);
    let outbox = registry.join_session(S, 9, name("B"));
    match &outbox[0].message {
        PokerMessage::SessionInfoResponse { current_issue, current_participants, .. } => {
            assert_eq!(current_issue.votes().get(&name("B")), Some(Vote::Eight));
            assert_eq!(current_participants, &vec![name("A"), name("C"), name("B")]);
        }
        other => panic!("not a session info: {:?}", other),
    }
}

#[test]
fn sole_participant_vote_closes_at_once() {
    let mut registry = with_session();
    let outbox = registry.cast_vote(S, I1, A, Vote::Five);
    assert_eq!(outbox.len(), 2);
    assert_receipt(&outbox[0], A, "A", I1);
    assert_revelation(&outbox[1], A, I1, &[("A", Vote::Five)]);
    let issue = registry.session(S).unwrap().current_issue();
    assert_eq!(issue.state(), VotingState::Closing);
    assert_eq!(issue.outcome(), Some(Vote::Unknown));
    assert_eq!(issue.votes().get(&name("A")), Some(Vote::Five));
    assert_eq!(issue.votes().len(), 1);
}

#[test]
fn two_participants_reveal_after_both_voted() {
    let mut registry = with_two();

    let first = registry.cast_vote(S, I1, A, Vote::Three);
    assert_eq!(first.len(), 2);
    assert_receipt(&first[0], A, "A", I1);
    assert_receipt(&first[1], B, "A", I1);
    let issue = registry.session(S).unwrap().current_issue();
    assert_eq!(issue.state(), VotingState::Opening);
    assert_eq!(issue.outcome(), None);

    let second = registry.cast_vote(S, I1, B, Vote::Eight);
    assert_eq!(second.len(), 4);
    assert_receipt(&second[0], A, "B", I1);
    assert_receipt(&second[1], B, "B", I1);
    assert_revelation(&second[2], A, I1, &[("A", Vote::Three), ("B", Vote::Eight)]);
    assert_revelation(&second[3], B, I1, &[("A", Vote::Three), ("B", Vote::Eight)]);
    let issue = registry.session(S).unwrap().current_issue();
    assert_eq!(issue.state(), VotingState::Closing);
    assert_eq!(issue.outcome(), Some(Vote::Unknown));
}

#[test]
fn vote_can_be_changed_before_the_reveal() {
    let mut registry = with_two();
    registry.cast_vote(S, I1, A, Vote::Three);
    let again = registry.cast_vote(S, I1, A, Vote::Thirteen);
    assert_eq!(again.len(), 2);
    let issue = registry.session(S).unwrap().current_issue();
    assert_eq!(issue.state(), VotingState::Opening);
    assert_eq!(issue.votes().len(), 1);
    assert_eq!(issue.votes().get(&name("A")), Some(Vote::Thirteen));
}

#[test]
fn abstention_counts_as_a_vote() {
    let mut registry = with_two();
    registry.cast_vote(S, I1, A, Vote::Unknown);
    let outbox = registry.cast_vote(S, I1, B, Vote::Infinite);
    assert_revelation(&outbox[2], A, I1, &[("A", Vote::Unknown), ("B", Vote::Infinite)]);
}

#[test]
fn vote_for_unknown_session_is_ignored() {
    let mut registry = with_session();
    let outbox = registry.cast_vote(S + 1, I1, A, Vote::Five);
    assert!(outbox.is_empty());
    assert_eq!(registry.session(S).unwrap().current_issue().votes().len(), 0);
}

#[test]
fn stale_vote_is_ignored() {
    let mut registry = with_two();
    let outbox = registry.cast_vote(S, I1 + 1, A, Vote::Five);
    assert!(outbox.is_empty());
    let issue = registry.session(S).unwrap().current_issue();
    assert_eq!(issue.votes().len(), 0);
    assert_eq!(issue.state(), VotingState::Opening);
}

#[test]
fn vote_of_a_non_member_is_ignored() {
    let mut registry = with_two();
    let outbox = registry.cast_vote(S, I1, C, Vote::Five);
    assert!(outbox.is_empty());
    assert_eq!(registry.session(S).unwrap().current_issue().votes().len(), 0);
}

#[test]
fn vote_after_closing_is_ignored() {
    let mut registry = with_session();
    registry.cast_vote(S, I1, A, Vote::Five);
    let outbox = registry.cast_vote(S, I1, A, Vote::Eight);
    assert!(outbox.is_empty());
    let issue = registry.session(S).unwrap().current_issue();
    assert_eq!(issue.votes().get(&name("A")), Some(Vote::Five));
    assert_eq!(issue.state(), VotingState::Closing);
}

#[test]
fn secret_is_never_recorded() {
    let mut registry = with_two();
    let outbox = registry.cast_vote(S, I1, A, Vote::Secret);
    assert!(outbox.is_empty());
    assert_eq!(registry.session(S).unwrap().current_issue().votes().len(), 0);
}

#[test]
fn change_topic_opens_a_new_issue() {
    let mut registry = with_two();
    registry.cast_vote(S, I1, A, Vote::Five);
    let outbox = registry.change_topic_with_id(S, A, name("CARD-7"), 600);
    assert_eq!(recipients(&outbox), vec![A, B]);
    for out in &outbox {
        match &out.message {
            PokerMessage::VotingIssueAnnouncement { voting_issue } => {
                assert_eq!(voting_issue.id(), 600);
                assert_eq!(voting_issue.state(), VotingState::Opening);
                assert_eq!(voting_issue.trello_card(), Some(name("CARD-7")));
                assert_eq!(voting_issue.votes().len(), 0);
                assert_eq!(voting_issue.outcome(), None);
            }
            other => panic!("not an issue announcement: {:?}", other),
        }
    }
    let issue = registry.session(S).unwrap().current_issue();
    assert_eq!(issue.id(), 600);
    assert_eq!(issue.votes().len(), 0);
    assert_eq!(issue.trello_card(), Some(name("CARD-7")));
    assert_eq!(registry.session(S).unwrap().participant_ids(), vec![A, B]);
}

#[test]
fn change_topic_to_the_same_topic_is_ignored() {
    let mut registry = with_two();
    registry.change_topic_with_id(S, A, name("CARD-7"), 600);
    registry.cast_vote(S, 600, A, Vote::Five);
    let outbox = registry.change_topic_with_id(S, B, name("CARD-7"), 700);
    assert!(outbox.is_empty());
    let issue = registry.session(S).unwrap().current_issue();
    assert_eq!(issue.id(), 600);
    assert_eq!(issue.votes().get(&name("A")), Some(Vote::Five));
}

#[test]
fn empty_topic_means_no_topic() {
    let mut registry = with_session();
    // the initial issue has no topic, so the empty reference changes nothing
    let outbox = registry.change_topic_with_id(S, A, name(""), 600);
    assert!(outbox.is_empty());
    assert_eq!(registry.session(S).unwrap().current_issue().id(), I1);

    registry.change_topic_with_id(S, A, name("CARD-7"), 600);
    let back = registry.change_topic_with_id(S, A, name(""), 700);
    assert_eq!(back.len(), 1);
    let issue = registry.session(S).unwrap().current_issue();
    assert_eq!(issue.id(), 700);
    assert_eq!(issue.trello_card(), None);
}

#[test]
fn change_topic_never_keeps_the_issue_id() {
    let mut registry = with_session();
    let outbox = registry.change_topic_with_id(S, A, name("CARD-7"), I1);
    assert_eq!(outbox.len(), 1);
    assert_eq!(registry.session(S).unwrap().current_issue().id(), I1 + 1);
}

#[test]
fn change_topic_draws_a_new_issue_id() {
    let mut registry = with_session();
    let outbox = registry.change_topic(S, A, name("CARD-7"));
    assert_eq!(outbox.len(), 1);
    let issue = registry.session(S).unwrap().current_issue();
    assert_ne!(issue.id(), I1);
    assert_eq!(issue.trello_card(), Some(name("CARD-7")));
    assert_eq!(issue.votes().len(), 0);
}

#[test]
fn change_topic_of_unknown_session_is_ignored() {
    let mut registry = with_session();
    let outbox = registry.change_topic_with_id(S + 1, A, name("CARD-7"), 600);
    assert!(outbox.is_empty());
    assert!(registry.session(S + 1).is_none());
    assert_eq!(registry.session(S).unwrap().current_issue().id(), I1);
}

#[test]
fn change_topic_reopens_after_a_reveal() {
    let mut registry = with_session();
    registry.cast_vote(S, I1, A, Vote::Five);
    registry.change_topic_with_id(S, A, name("CARD-8"), 600);
    let issue = registry.session(S).unwrap().current_issue();
    assert_eq!(issue.state(), VotingState::Opening);
    assert_eq!(issue.outcome(), None);
    let outbox = registry.cast_vote(S, I1, A, Vote::Eight);
    assert!(outbox.is_empty());
    let outbox = registry.cast_vote(S, 600, A, Vote::Eight);
    assert_eq!(outbox.len(), 2);
    assert_revelation(&outbox[1], A, 600, &[("A", Vote::Eight)]);
}

#[test]
fn disconnect_forgets_the_channel() {
    let mut registry = with_two();
    registry.disconnect(Disconnect { participant_id: B, session_id: S }, 10);
    assert!(registry.channel(B).is_none());
    assert_eq!(registry.channel(A), Some(&name("channel of A")));
}

#[test]
fn disconnect_without_session_forgets_the_channel() {
    let mut registry = with_two();
    let outbox = registry.disconnect(Disconnect { participant_id: B, session_id: 0 }, 10);
    assert!(outbox.is_empty());
    assert!(registry.channel(B).is_none());
    assert_eq!(registry.session(S).unwrap().participant_ids(), vec![A, B]);
}

#[test]
fn disconnect_of_a_non_member_leaves_the_session() {
    let mut registry = with_session();
    registry.connect_with_id(C, name("channel of C"));
    let outbox = registry.disconnect(Disconnect { participant_id: C, session_id: S }, 10);
    assert!(outbox.is_empty());
    assert!(registry.channel(C).is_none());
    assert_eq!(registry.session(S).unwrap().participant_ids(), vec![A]);
    assert!(registry.pending_eviction(S).is_none());
}

#[test]
fn disconnect_announces_the_leave_to_those_who_remain() {
    let mut registry = with_two();
    registry.join_session(S, C, name("C"));
    let outbox = registry.disconnect(Disconnect { participant_id: B, session_id: S }, 10);
    assert_eq!(recipients(&outbox), vec![A, C]);
    for out in &outbox {
        match &out.message {
            PokerMessage::ParticipantLeaveAnnouncement { participant_name } => {
                assert_eq!(participant_name, "B");
            }
            other => panic!("not a leave announcement: {:?}", other),
        }
    }
    assert_eq!(registry.session(S).unwrap().participant_names(), vec![name("A"), name("C")]);
    assert!(registry.pending_eviction(S).is_none());
}

#[test]
fn disconnect_of_the_last_awaited_voter_reveals() {
    let mut registry = with_two();
    registry.cast_vote(S, I1, A, Vote::Five);
    let outbox = registry.disconnect(Disconnect { participant_id: B, session_id: S }, 10);
    assert_eq!(outbox.len(), 2);
    assert_eq!(outbox[0].recipient, A);
    assert!(matches!(outbox[0].message, PokerMessage::ParticipantLeaveAnnouncement { .. }));
    assert_revelation(&outbox[1], A, I1, &[("A", Vote::Five)]);
    assert_eq!(registry.session(S).unwrap().current_issue().state(), VotingState::Closing);
}

#[test]
fn disconnect_after_the_reveal_does_not_reveal_again() {
    let mut registry = with_two();
    registry.cast_vote(S, I1, A, Vote::Five);
    registry.cast_vote(S, I1, B, Vote::Eight);
    let outbox = registry.disconnect(Disconnect { participant_id: B, session_id: S }, 10);
    assert_eq!(outbox.len(), 1);
    assert!(matches!(outbox[0].message, PokerMessage::ParticipantLeaveAnnouncement { .. }));
    let issue = registry.session(S).unwrap().current_issue();
    assert_eq!(issue.state(), VotingState::Closing);
    assert_eq!(issue.votes().len(), 2);
}

#[test]
fn last_disconnect_marks_the_session_for_eviction() {
    let mut registry = with_session();
    let outbox = registry.disconnect(Disconnect { participant_id: A, session_id: S }, 1000);
    assert!(outbox.is_empty());
    let session = registry.session(S).expect("not deleted at once");
    assert_eq!(session.participant_count(), 0);
    assert_eq!(session.current_issue().state(), VotingState::Opening);
    assert_eq!(registry.pending_eviction(S), Some(1000));
}

#[test]
fn sweep_keeps_a_session_within_the_window() {
    let mut registry = with_session();
    registry.disconnect(Disconnect { participant_id: A, session_id: S }, 1000);
    registry.sweep(1000);
    assert!(registry.session(S).is_some());
    registry.sweep(1000 + SESSION_TIMEOUT);
    assert!(registry.session(S).is_some());
    assert_eq!(registry.pending_eviction(S), Some(1000));
}

#[test]
fn sweep_evicts_after_the_window() {
    let mut registry = with_session();
    registry.disconnect(Disconnect { participant_id: A, session_id: S }, 1000);
    registry.sweep(1000 + SESSION_TIMEOUT + 1);
    assert!(registry.session(S).is_none());
    assert!(registry.pending_eviction(S).is_none());
    let outbox = registry.join_session(S, B, name("B"));
    assert_refusal(&outbox, B, S, SessionJoinError::UnknownSession);
}

#[test]
fn sweep_with_an_earlier_clock_evicts_nothing() {
    let mut registry = with_session();
    registry.disconnect(Disconnect { participant_id: A, session_id: S }, 1000);
    registry.sweep(0);
    assert!(registry.session(S).is_some());
    assert_eq!(registry.pending_eviction(S), Some(1000));
}

#[test]
fn sweep_leaves_live_sessions_alone() {
    let mut registry = with_session();
    registry.create_session_with_ids(S + 1, I1 + 1, B, name("B"));
    registry.create_session_with_ids(S + 2, I1 + 2, C, name("C"));
    registry.disconnect(Disconnect { participant_id: B, session_id: S + 1 }, 10);
    registry.disconnect(Disconnect { participant_id: C, session_id: S + 2 }, 40);
    registry.sweep(50);
    assert!(registry.session(S).is_some());
    assert!(registry.session(S + 1).is_none());
    assert!(registry.session(S + 2).is_some());
    assert!(registry.pending_eviction(S + 1).is_none());
    assert_eq!(registry.pending_eviction(S + 2), Some(40));
    assert_eq!(registry.channel(A), Some(&name("channel of A")));
}

#[test]
fn rejoin_cancels_the_eviction_and_keeps_the_votes() {
    let mut registry = with_two();
    registry.cast_vote(S, I1, A, Vote::Five);
    registry.disconnect(Disconnect { participant_id: A, session_id: S }, 1000);
    registry.disconnect(Disconnect { participant_id: B, session_id: S }, 1001);
    assert_eq!(registry.pending_eviction(S), Some(1001));

    let outbox = registry.join_session(S, C, name("C"));
    assert_eq!(outbox.len(), 1);
    assert!(registry.pending_eviction(S).is_none());
    registry.sweep(5000);
    let session = registry.session(S).expect("the session survives");
    assert_eq!(session.participant_names(), vec![name("C")]);
    assert_eq!(session.current_issue().id(), I1);
    assert_eq!(session.current_issue().votes().get(&name("A")), Some(Vote::Five));
}

#[test]
fn sweeper_reference_values() {
    assert_eq!(SESSION_TIMEOUT, 20);
    assert_eq!(SESSION_TIMEOUT_CHECK_INTERVAL, 5);
}

#[test]
fn handle_dispatches_requests() {
    let mut registry: Registry<String> = Registry::new();
    let created = registry.handle(PokerMessage::CreateSessionRequest {
        participant_id: A,
        participant_name: name("A"),
    });
    let (session, issue) = match &created[0].message {
        PokerMessage::SessionInfoResponse { session_id, current_issue, .. } => {
            (*session_id, current_issue.id())
        }
        other => panic!("not a session info: {:?}", other),
    };

    let joined = registry.handle(PokerMessage::JoinSessionRequest {
        participant_id: B,
        session_id: session,
        participant_name: name("B"),
    });
    assert_eq!(recipients(&joined), vec![B, A]);

    let voted = registry.handle(PokerMessage::VoteRequest {
        participant_id: A,
        session_id: session,
        issue_id: issue,
        vote: Vote::Two,
    });
    assert_eq!(voted.len(), 2);
    assert_receipt(&voted[0], A, "A", issue);

    let changed = registry.handle(PokerMessage::TopicChangeRequest {
        participant_id: B,
        session_id: session,
        trello_card: name("CARD-1"),
    });
    assert_eq!(recipients(&changed), vec![A, B]);
    let current = registry.session(session).unwrap().current_issue();
    assert_ne!(current.id(), issue);
    assert_eq!(current.trello_card(), Some(name("CARD-1")));
}

#[test]
fn handle_ignores_what_is_no_request() {
    let mut registry = with_two();
    let outbox = registry.handle(PokerMessage::VoteRevelationRequest {
        participant_id: A,
        issue_id: I1,
    });
    assert!(outbox.is_empty());
    let outbox = registry.handle(PokerMessage::ParticipantJoinAnnouncement {
        participant_name: name("Z"),
    });
    assert!(outbox.is_empty());
    let session = registry.session(S).unwrap();
    assert_eq!(session.participant_names(), vec![name("A"), name("B")]);
    assert_eq!(session.current_issue().state(), VotingState::Opening);
}

#[test]
fn reveal_needs_someone_present() {
    let mut registry = with_session();
    registry.disconnect(Disconnect { participant_id: A, session_id: S }, 10);
    let mut session: VotingSession = registry.session(S).unwrap().clone();
    let mut outbox: Vec<Outbound> = Vec::new();
    reveal_if_everyone_voted(&mut session, &mut outbox);
    assert!(outbox.is_empty());
    assert_eq!(session.current_issue().state(), VotingState::Opening);
}

#[test]
fn reveal_waits_for_every_vote() {
    let mut session = VotingSession::with_issue(S, A, name("A"), VotingIssue::with_id(I1, None));
    let mut outbox: Vec<Outbound> = Vec::new();
    reveal_if_everyone_voted(&mut session, &mut outbox);
    assert!(outbox.is_empty());
    assert_eq!(session.current_issue().state(), VotingState::Opening);
    assert_eq!(session.current_issue().outcome(), None);
}

#[test]
fn outcome_is_unknown_whatever_the_votes() {
    let mut votes = VoteMap::new();
    assert_eq!(resolve_outcome(&votes), Vote::Unknown);
    votes.insert(name("A"), Vote::Five);
    votes.insert(name("B"), Vote::Five);
    assert_eq!(resolve_outcome(&votes), Vote::Unknown);
}

#[test]
fn message_clone_keeps_the_content() {
    let mut registry = with_session();
    let outbox = registry.cast_vote(S, I1, A, Vote::Five);
    let copy = Outbound { recipient: outbox[1].recipient, message: outbox[1].message.clone() };
    assert_revelation(&copy, A, I1, &[("A", Vote::Five)]);
}
