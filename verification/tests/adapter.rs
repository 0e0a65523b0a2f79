use planning_poker::config::{
    listen_interface, listen_port, parse_port, PortChoice, DEFAULT_INTERFACE, DEFAULT_PORT,
};
use planning_poker::connection::{
    process_websocket_message, Connection, Frame, Received, CLIENT_TIMEOUT, HEARTBEAT_INTERVAL,
    NO_SESSION,
};
use planning_poker::issue::VotingIssue;
use planning_poker::message::{Disconnect, PokerMessage};
use planning_poker::vote::Vote;

fn text(s: &str) -> String {
    s.to_string()
}

#[test]
fn parse_port_reads_decimal_digits() {
    assert_eq!(parse_port("8080"), Some(8080));
    assert_eq!(parse_port("0"), Some(0));
    assert_eq!(parse_port("65535"), Some(65535));
    assert_eq!(parse_port("00080"), Some(80));
    assert_eq!(parse_port("+443"), Some(443));
}

#[test]
fn parse_port_refuses_what_is_no_port() {
    assert_eq!(parse_port(""), None);
    assert_eq!(parse_port("+"), None);
    assert_eq!(parse_port("-1"), None);
    assert_eq!(parse_port("65536"), None);
    assert_eq!(parse_port("99999999999999999999"), None);
    assert_eq!(parse_port("80 "), None);
    assert_eq!(parse_port(" 80"), None);
    assert_eq!(parse_port("8_080"), None);
    assert_eq!(parse_port("80a"), None);
    assert_eq!(parse_port("++80"), None);
    assert_eq!(parse_port("８０"), None);
}

#[test]
fn parse_port_agrees_with_the_standard_parser() {
    let samples = [
        "", "+", "-", "0", "+0", "-0", "1", "80", "080", "8080", "65535", "65536", "+65535",
        "655350", "70000", "4294967296", "12a", "a12", "1 2", "٣", "１", "0x50", "1e3", "+-1",
    ];
    for sample in samples {
        assert_eq!(parse_port(sample), sample.parse::<u16>().ok(), "{:?}", sample);
    }
}

#[test]
fn listen_port_falls_back_to_the_default() {
    assert_eq!(listen_port(None), PortChoice::Unset);
    assert_eq!(listen_port(None).port(), DEFAULT_PORT);
    let junk = text("http");
    assert_eq!(listen_port(Some(&junk)), PortChoice::Unparsable);
    assert_eq!(listen_port(Some(&junk)).port(), 8080);
    let given = text("3000");
    assert_eq!(listen_port(Some(&given)), PortChoice::Configured(3000));
    assert_eq!(listen_port(Some(&given)).port(), 3000);
}

#[test]
fn listen_interface_falls_back_to_the_default() {
    assert_eq!(listen_interface(None), "127.0.0.1");
    assert_eq!(DEFAULT_INTERFACE, "127.0.0.1");
    assert_eq!(listen_interface(Some(text("0.0.0.0"))), "0.0.0.0");
    assert_eq!(listen_interface(Some(text(""))), "");
}

#[test]
fn text_frames_hold_requests() {
    match process_websocket_message(Some(Frame::Text(text("{}")))) {
        Received::Request(t) => assert_eq!(t, "{}"),
        other => panic!("not a request: {:?}", other),
    }
}

#[test]
fn control_and_binary_frames_need_nothing() {
    assert!(matches!(process_websocket_message(Some(Frame::Binary)), Received::Nothing));
    assert!(matches!(process_websocket_message(Some(Frame::Ping)), Received::Nothing));
    assert!(matches!(process_websocket_message(Some(Frame::Pong)), Received::Nothing));
}

#[test]
fn close_frames_and_failed_reads_end_the_connection() {
    assert!(matches!(process_websocket_message(Some(Frame::Close)), Received::Closed));
    assert!(matches!(process_websocket_message(None), Received::Closed));
}

#[test]
fn new_connection_is_in_no_session() {
    let connection = Connection::new(7, 100);
    assert_eq!(connection.participant_id, 7);
    assert_eq!(connection.session_id, NO_SESSION);
    assert_eq!(connection.last_seen, 100);
    assert_eq!(connection.disconnect(), Disconnect { participant_id: 7, session_id: 0 });
}

#[test]
fn stamp_overwrites_the_claimed_identifiers() {
    let connection = Connection { participant_id: 7, session_id: 30, last_seen: 0 };

    match connection.stamp(PokerMessage::CreateSessionRequest {
        participant_id: 99,
        participant_name: text("A"),
    }) {
        PokerMessage::CreateSessionRequest { participant_id, participant_name } => {
            assert_eq!(participant_id, 7);
            assert_eq!(participant_name, "A");
        }
        other => panic!("changed kind: {:?}", other),
    }

    match connection.stamp(PokerMessage::JoinSessionRequest {
        participant_id: 99,
        session_id: 55,
        participant_name: text("A"),
    }) {
        PokerMessage::JoinSessionRequest { participant_id, session_id, participant_name } => {
            assert_eq!(participant_id, 7);
            assert_eq!(session_id, 55);
            assert_eq!(participant_name, "A");
        }
        other => panic!("changed kind: {:?}", other),
    }

    match connection.stamp(PokerMessage::TopicChangeRequest {
        participant_id: 99,
        session_id: 55,
        trello_card: text("CARD"),
    }) {
        PokerMessage::TopicChangeRequest { participant_id, session_id, trello_card } => {
            assert_eq!(participant_id, 7);
            assert_eq!(session_id, 30);
            assert_eq!(trello_card, "CARD");
        }
        other => panic!("changed kind: {:?}", other),
    }

    match connection.stamp(PokerMessage::VoteRequest {
        participant_id: 99,
        session_id: 55,
        issue_id: 4,
        vote: Vote::Two,
    }) {
        PokerMessage::VoteRequest { participant_id, session_id, issue_id, vote } => {
            assert_eq!(participant_id, 7);
            assert_eq!(session_id, 30);
            assert_eq!(issue_id, 4);
            assert_eq!(vote, Vote::Two);
        }
        other => panic!("changed kind: {:?}", other),
    }

    match connection.stamp(PokerMessage::VoteRevelationRequest { participant_id: 99, issue_id: 4 }) {
        PokerMessage::VoteRevelationRequest { participant_id, issue_id } => {
            assert_eq!(participant_id, 7);
            assert_eq!(issue_id, 4);
        }
        other => panic!("changed kind: {:?}", other),
    }
}

#[test]
fn stamp_leaves_other_messages_alone() {
    let connection = Connection { participant_id: 7, session_id: 30, last_seen: 0 };
    match connection.stamp(PokerMessage::VoteReceiptAnnouncement {
        participant_name: text("A"),
        issue_id: 4,
    }) {
        PokerMessage::VoteReceiptAnnouncement { participant_name, issue_id } => {
            assert_eq!(participant_name, "A");
            assert_eq!(issue_id, 4);
        }
        other => panic!("changed kind: {:?}", other),
    }
}

#[test]
fn session_info_tells_the_connection_its_session() {
    let mut connection = Connection::new(7, 100);
    connection.note_outbound(&PokerMessage::ParticipantJoinAnnouncement {
        participant_name: text("B"),
    });
    assert_eq!(connection.session_id, NO_SESSION);
    connection.note_outbound(&PokerMessage::SessionInfoResponse {
        session_id: 30,
        current_issue: VotingIssue::with_id(4, None),
        current_participants: vec![text("A")],
    });
    assert_eq!(connection.session_id, 30);
    assert_eq!(connection.participant_id, 7);
    assert_eq!(connection.last_seen, 100);
    assert_eq!(connection.disconnect(), Disconnect { participant_id: 7, session_id: 30 });
}

#[test]
fn silence_beyond_the_timeout_closes() {
    let mut connection = Connection::new(7, 100);
    assert!(!connection.timed_out(100));
    assert!(!connection.timed_out(100 + CLIENT_TIMEOUT));
    assert!(connection.timed_out(100 + CLIENT_TIMEOUT + 1));
    assert!(!connection.timed_out(50));
    connection.note_alive(105);
    assert_eq!(connection.last_seen, 105);
    assert!(!connection.timed_out(100 + CLIENT_TIMEOUT + 1));
    assert!(connection.timed_out(116));
}

#[test]
fn heartbeat_reference_values() {
    assert_eq!(HEARTBEAT_INTERVAL, 5);
    assert_eq!(CLIENT_TIMEOUT, 10);
}
