use gateway_client::address::normalize;
use gateway_client::decode::{decode, DecodeError};
use gateway_client::gateway::{
    EventName, Gateway, GatewayDispatch, GatewayDispatchOpCode, GatewayKind, GatewayOp,
    GatewayOpCode, Hello, Identify, MessageCreate, MessageCreateAuthor, MessageCreateMention,
    Resume,
};
use gateway_client::ws::{
    react_to_mention, Action, Event, GatewayConnection, Outbound, Outcome, Phase, ProtocolError,
    Reaction, SocketSequence, TransportError,
};
use serde_json::Value;

const HELLO: &str = r#"{"t":null,"s":null,"op":10,"d":{"heartbeat_interval":5000}}"#;
const READY: &str =
    r#"{"op":0,"s":1,"t":"READY","d":{"session_id":"abc","resume_gateway_url":"wss://x"}}"#;

fn text(frame: &str) -> Event {
    Event::Text(frame.to_string())
}

fn dispatching(token: &str) -> GatewayConnection<'_> {
    let mut c = GatewayConnection::new(token);
    assert!(c.step(&Event::Opened, "42").is_empty());
    assert_eq!(c.step(&text(HELLO), "42").len(), 2);
    assert!(c.step(&text(READY), "42").is_empty());
    assert_eq!(c.phase, Phase::Dispatching);
    c
}

fn event_frame(name: &str, sequence: Option<u64>) -> String {
    match sequence {
        Some(n) => format!(r#"{{"op":0,"s":{},"t":"{}","d":{{}}}}"#, n, name),
        None => format!(r#"{{"op":0,"t":"{}","d":{{}}}}"#, name),
    }
}

fn message(mentions: &[&str]) -> MessageCreate {
    MessageCreate {
        author: MessageCreateAuthor { username: "luigi".to_string() },
        channel_id: "11".to_string(),
        id: "22".to_string(),
        content: "hi".to_string(),
        guild_id: None,
        mentions: mentions.iter().map(|m| MessageCreateMention { id: m.to_string() }).collect(),
    }
}

fn fire() -> Reaction {
    Reaction {
        channel_id: "11".to_string(),
        message_id: "22".to_string(),
        emoji: "\u{1F525}".to_string(),
    }
}

#[test]
fn a_new_connection_has_no_session() {
    let c = GatewayConnection::new("secret");
    assert_eq!(c.token, "secret");
    assert_eq!(c.resume_gateway_url, None);
    assert_eq!(c.session_id, None);
    assert_eq!(c.sequence, 0);
    assert_eq!(c.phase, Phase::Connecting);
    assert_eq!(c.outcome(), None);
    assert!(!c.can_resume());
    assert_eq!(c.endpoint(), "wss://gateway.discord.gg/");
}

#[test]
fn the_endpoint_is_the_resume_url_once_there_is_one() {
    let c = dispatching("secret");
    assert_eq!(c.endpoint(), "wss://x");
    assert!(c.can_resume());
}

#[test]
fn an_attempt_starts_at_the_default_endpoint() {
    let mut c = GatewayConnection::new("secret");
    let actions = c.step(&Event::Start, "42");
    assert_eq!(actions, vec![Action::Connect("wss://gateway.discord.gg/".to_string())]);
    assert_eq!(c.phase, Phase::Connecting);
    assert_eq!(c.outcome(), None);
}

#[test]
fn an_attempt_with_a_session_starts_at_the_resume_url() {
    let mut c = dispatching("secret");
    c.step(&Event::Close, "42");
    c.reconnect();
    let before = c.clone();
    assert_eq!(c.step(&Event::Start, "42"), vec![Action::Connect("wss://x/".to_string())]);
    assert_eq!(c, before);
}

#[test]
fn an_endpoint_that_is_no_address_ends_the_attempt() {
    for endpoint in ["", "no address", "//x", "wss://"] {
        let mut c = GatewayConnection::new("secret");
        c.resume_gateway_url = Some(endpoint.to_string());
        assert!(c.step(&Event::Start, "42").is_empty());
        assert_eq!(c.outcome(), Some(Outcome::Fatal(ProtocolError::InvalidEndpoint)));
    }
}

#[test]
fn start_takes_the_address_it_is_given() {
    let mut c = GatewayConnection::new("secret");
    assert_eq!(c.start(Some("wss://y/".to_string())), vec![Action::Connect("wss://y/".to_string())]);
    assert_eq!(c.phase, Phase::Connecting);
    assert!(c.start(None).is_empty());
    assert_eq!(c.outcome(), Some(Outcome::Fatal(ProtocolError::InvalidEndpoint)));
    assert!(c.start(Some("wss://y/".to_string())).is_empty());
    assert_eq!(c.outcome(), Some(Outcome::Fatal(ProtocolError::InvalidEndpoint)));
    let mut c = dispatching("secret");
    assert!(c.start(Some("wss://y/".to_string())).is_empty());
    assert_eq!(c.outcome(), Some(Outcome::Fatal(ProtocolError::OutOfPhase)));
}

#[test]
fn addresses_are_brought_to_their_normal_form() {
    assert_eq!(normalize("wss://gateway.discord.gg/"), Some("wss://gateway.discord.gg/".to_string()));
    assert_eq!(normalize("WSS://Gateway.Example:443/a/../b?v=10"), Some("wss://gateway.example/b?v=10".to_string()));
    assert_eq!(normalize("wss://x"), Some("wss://x/".to_string()));
    assert_eq!(normalize("gateway.discord.gg"), None);
    assert_eq!(normalize(""), None);
}

#[test]
fn opening_leads_to_awaiting_hello() {
    let mut c = GatewayConnection::new("secret");
    assert!(c.step(&Event::Opened, "42").is_empty());
    assert_eq!(c.phase, Phase::AwaitingHello);
}

#[test]
fn hello_without_session_identifies() {
    let mut c = GatewayConnection::new("secret");
    c.step(&Event::Opened, "42");
    let actions = c.step(&text(HELLO), "42");
    assert_eq!(
        actions,
        vec![
            Action::StartHeartbeat(5000),
            Action::Send(Outbound::Identify(Identify::new("secret"))),
        ]
    );
    assert_eq!(c.phase, Phase::Authenticated);
}

#[test]
fn hello_with_session_resumes() {
    let mut c = dispatching("secret");
    c.step(&text(&event_frame("X", Some(9))), "42");
    c.step(&Event::Close, "42");
    c.reconnect();
    c.step(&Event::Opened, "42");
    let actions = c.step(&text(HELLO), "42");
    assert_eq!(
        actions,
        vec![
            Action::StartHeartbeat(5000),
            Action::Send(Outbound::Resume(Resume::new("secret", "abc", 9))),
        ]
    );
    assert_eq!(c.sequence, 9);
    assert_eq!(c.phase, Phase::Authenticated);
}

#[test]
fn resume_needs_both_session_id_and_resume_url() {
    for (session, url, resumes) in [
        (None, None, false),
        (Some("abc"), None, false),
        (None, Some("wss://x"), false),
        (Some(""), Some("wss://x"), false),
        (Some("abc"), Some("wss://x"), true),
    ] {
        let mut c = GatewayConnection::new("secret");
        c.session_id = session.map(str::to_string);
        c.resume_gateway_url = url.map(str::to_string);
        c.sequence = 5;
        assert_eq!(c.can_resume(), resumes);
        c.step(&Event::Opened, "42");
        let actions = c.step(&text(HELLO), "42");
        let want = if resumes {
            Outbound::Resume(Resume::new("secret", "abc", 5))
        } else {
            Outbound::Identify(Identify::new("secret"))
        };
        assert_eq!(actions, vec![Action::StartHeartbeat(5000), Action::Send(want)]);
        assert_eq!(c.sequence, if resumes { 5 } else { 0 });
    }
}

#[test]
fn the_first_frame_must_be_hello() {
    for (frame, error) in [
        (r#"{"op":11}"#, ProtocolError::UnexpectedOperation(GatewayOpCode::HeartbackACK)),
        (r#"{"op":7}"#, ProtocolError::UnexpectedOperation(GatewayOpCode::Reconnect)),
        (READY, ProtocolError::EventBeforeHello),
        (r#"{"op":0,"t":"X"}"#, ProtocolError::EventBeforeHello),
    ] {
        let mut c = GatewayConnection::new("secret");
        c.step(&Event::Opened, "42");
        assert!(c.step(&text(frame), "42").is_empty());
        assert_eq!(c.outcome(), Some(Outcome::Fatal(error)));
        assert_eq!(c.session_id, None);
    }
}

#[test]
fn hello_without_interval_ends_the_attempt() {
    let mut c = GatewayConnection::new("secret");
    c.step(&Event::Opened, "42");
    let hello = Gateway {
        kind: GatewayKind::GatewayOp(GatewayOp { op: GatewayOpCode::Hello, data: Value::Null }),
        sequence: None,
    };
    assert!(c.receive(&hello, "42").is_empty());
    assert_eq!(c.outcome(), Some(Outcome::Fatal(ProtocolError::MalformedHello)));
}

#[test]
fn a_frame_that_is_no_envelope_ends_the_attempt() {
    for (frame, error) in [
        ("not json", DecodeError::Syntax),
        ("[]", DecodeError::NotAnObject),
        (r#"{"op":10,"d":{}}"#, DecodeError::BadPayload),
        (r#"{"op":99}"#, DecodeError::UnknownOpcode(99)),
        ("{}", DecodeError::MissingDiscriminant),
        (r#"{"op":11,"s":"1"}"#, DecodeError::BadSequence),
    ] {
        let mut c = dispatching("secret");
        assert!(c.step(&text(frame), "42").is_empty());
        assert_eq!(c.outcome(), Some(Outcome::Fatal(ProtocolError::Decode(error))));
        assert_eq!(c.session_id.as_deref(), Some("abc"));
    }
}

#[test]
fn heartbeat_ack_changes_nothing() {
    let mut c = dispatching("secret");
    let before = c.clone();
    assert!(c.step(&text(r#"{"op":11,"d":null}"#), "42").is_empty());
    assert_eq!(c, before);
}

#[test]
fn the_first_frame_after_authentication_starts_dispatching() {
    let mut c = GatewayConnection::new("secret");
    c.step(&Event::Opened, "42");
    c.step(&text(HELLO), "42");
    assert_eq!(c.phase, Phase::Authenticated);
    c.step(&text(r#"{"op":11}"#), "42");
    assert_eq!(c.phase, Phase::Dispatching);
}

#[test]
fn ready_fills_the_session_record() {
    let c = dispatching("secret");
    assert_eq!(c.session_id.as_deref(), Some("abc"));
    assert_eq!(c.resume_gateway_url.as_deref(), Some("wss://x"));
    assert_eq!(c.sequence, 1);
}

#[test]
fn the_sequence_is_the_highest_seen() {
    let mut c = dispatching("secret");
    for (seen, want) in [(Some(3), 3), (Some(7), 7), (None, 7), (Some(5), 7), (Some(7), 7), (Some(8), 8)] {
        assert!(c.step(&text(&event_frame("GUILD_CREATE", seen)), "42").is_empty());
        assert_eq!(c.sequence, want);
        assert_eq!(c.phase, Phase::Dispatching);
    }
}

#[test]
fn only_dispatch_envelopes_move_the_sequence() {
    let mut c = dispatching("secret");
    c.step(&text(r#"{"op":11,"s":50}"#), "42");
    assert_eq!(c.sequence, 1);
}

#[test]
fn reconnect_resumes_in_place() {
    let mut c = dispatching("secret");
    c.step(&text(&event_frame("X", Some(12))), "42");
    let before = c.clone();
    let actions = c.step(&text(r#"{"op":7,"d":null}"#), "42");
    assert_eq!(actions, vec![Action::Send(Outbound::Resume(Resume::new("secret", "abc", 12)))]);
    assert_eq!(c, before);
    assert_eq!(c.sequence, 12);
}

#[test]
fn reconnect_resumes_whatever_the_session_id_is() {
    let mut c = GatewayConnection::new("secret");
    c.step(&Event::Opened, "42");
    c.step(&text(HELLO), "42");
    c.step(
        &text(r#"{"op":0,"s":1,"t":"READY","d":{"session_id":"","resume_gateway_url":"wss://x"}}"#),
        "42",
    );
    c.step(&text(&event_frame("X", Some(6))), "42");
    assert!(!c.can_resume());
    let before = c.clone();
    let actions = c.step(&text(r#"{"op":7,"d":null}"#), "42");
    assert_eq!(actions, vec![Action::Send(Outbound::Resume(Resume::new("secret", "", 6)))]);
    assert_eq!(c, before);
    assert_eq!(c.phase, Phase::Dispatching);
    assert!(c.step(&text(&event_frame("X", Some(7))), "42").is_empty());
    assert_eq!(c.sequence, 7);
}

#[test]
fn reconnect_resumes_without_a_resume_url() {
    let mut c = GatewayConnection::new("secret");
    c.session_id = Some("abc".to_string());
    c.sequence = 3;
    c.phase = Phase::Dispatching;
    let before = c.clone();
    let actions = c.step(&text(r#"{"op":7}"#), "42");
    assert_eq!(actions, vec![Action::Send(Outbound::Resume(Resume::new("secret", "abc", 3)))]);
    assert_eq!(c, before);
}

#[test]
fn reconnect_right_after_authentication_starts_dispatching() {
    let mut c = dispatching("secret");
    c.step(&Event::Close, "42");
    c.reconnect();
    c.step(&Event::Opened, "42");
    c.step(&text(HELLO), "42");
    assert_eq!(c.phase, Phase::Authenticated);
    let actions = c.step(&text(r#"{"op":7}"#), "42");
    assert_eq!(actions, vec![Action::Send(Outbound::Resume(Resume::new("secret", "abc", 1)))]);
    assert_eq!(c.phase, Phase::Dispatching);
    assert_eq!(c.sequence, 1);
}

#[test]
fn reconnect_without_session_ends_the_attempt() {
    let mut c = GatewayConnection::new("secret");
    c.step(&Event::Opened, "42");
    c.step(&text(HELLO), "42");
    assert!(c.step(&text(r#"{"op":7}"#), "42").is_empty());
    assert_eq!(c.outcome(), Some(Outcome::Fatal(ProtocolError::MissingSession)));
}

#[test]
fn other_operations_end_the_attempt() {
    for (frame, op) in [
        (HELLO, GatewayOpCode::Hello),
        (r#"{"op":9,"d":false}"#, GatewayOpCode::InvalidSession),
        (r#"{"op":1,"d":null}"#, GatewayOpCode::Heartbeat),
        (r#"{"op":2}"#, GatewayOpCode::Identify),
        (r#"{"op":6}"#, GatewayOpCode::Resume),
        (r#"{"op":3}"#, GatewayOpCode::StatusUpdate),
    ] {
        let mut c = dispatching("secret");
        assert!(c.step(&text(frame), "42").is_empty());
        assert_eq!(c.outcome(), Some(Outcome::Fatal(ProtocolError::UnexpectedOperation(op))));
        assert_eq!(c.session_id.as_deref(), Some("abc"));
        assert_eq!(c.sequence, 1);
    }
}

#[test]
fn a_close_ends_the_attempt_in_order() {
    let mut c = dispatching("secret");
    assert!(c.step(&Event::Close, "42").is_empty());
    assert_eq!(c.outcome(), Some(Outcome::Closed));
    let mut c = dispatching("secret");
    assert!(c.step(&Event::Ended, "42").is_empty());
    assert_eq!(c.outcome(), Some(Outcome::Closed));
    let mut c = GatewayConnection::new("secret");
    c.step(&Event::Opened, "42");
    c.step(&Event::Close, "42");
    assert_eq!(c.outcome(), Some(Outcome::Closed));
}

#[test]
fn a_transport_failure_is_kept_for_the_run_loop() {
    for e in [
        TransportError::ResetWithoutClosingHandshake,
        TransportError::ConnectionReset,
        TransportError::Other,
    ] {
        let mut c = dispatching("secret");
        assert!(c.step(&Event::Failed(e), "42").is_empty());
        assert_eq!(c.outcome(), Some(Outcome::Transport(e)));
        let mut c = GatewayConnection::new("secret");
        c.step(&Event::Failed(e), "42");
        assert_eq!(c.outcome(), Some(Outcome::Transport(e)));
    }
}

#[test]
fn a_frame_of_another_kind_ends_the_attempt() {
    let mut c = dispatching("secret");
    assert!(c.step(&Event::Other, "42").is_empty());
    assert_eq!(c.outcome(), Some(Outcome::Fatal(ProtocolError::UnexpectedFrame)));
}

#[test]
fn events_out_of_phase_end_the_attempt() {
    for event in [text(HELLO), Event::Close, Event::Other, Event::Ended] {
        let mut c = GatewayConnection::new("secret");
        assert!(c.step(&event, "42").is_empty());
        assert_eq!(c.outcome(), Some(Outcome::Fatal(ProtocolError::OutOfPhase)));
    }
    for event in [Event::Opened, Event::Start] {
        let mut c = dispatching("secret");
        assert!(c.step(&event, "42").is_empty());
        assert_eq!(c.outcome(), Some(Outcome::Fatal(ProtocolError::OutOfPhase)));
    }
    let mut c = GatewayConnection::new("secret");
    let envelope = decode(HELLO).unwrap();
    assert!(c.receive(&envelope, "42").is_empty());
    assert_eq!(c.outcome(), Some(Outcome::Fatal(ProtocolError::OutOfPhase)));
}

#[test]
fn an_ended_attempt_stays_ended() {
    let mut c = dispatching("secret");
    c.step(&Event::Close, "42");
    let before = c.clone();
    for event in [
        Event::Start,
        Event::Opened,
        text(HELLO),
        text(READY),
        Event::Other,
        Event::Failed(TransportError::Other),
        Event::Ended,
    ] {
        assert!(c.step(&event, "42").is_empty());
        assert_eq!(c, before);
    }
    assert!(c.receive(&decode(READY).unwrap(), "42").is_empty());
    assert_eq!(c, before);
}

#[test]
fn reconnect_keeps_the_session_record() {
    let mut c = dispatching("secret");
    c.step(&text(&event_frame("X", Some(4))), "42");
    c.step(&Event::Failed(TransportError::ConnectionReset), "42");
    c.reconnect();
    assert_eq!(c.phase, Phase::Connecting);
    assert_eq!(c.session_id.as_deref(), Some("abc"));
    assert_eq!(c.resume_gateway_url.as_deref(), Some("wss://x"));
    assert_eq!(c.sequence, 4);
    assert_eq!(c.token, "secret");
}

#[test]
fn receive_agrees_with_step_on_text() {
    let mut a = dispatching("secret");
    let mut b = a.clone();
    let frame = r#"{"op":0,"s":3,"t":"MESSAGE_CREATE","d":{"author":{"username":"u"},
        "channel_id":"1","id":"2","content":"c","mentions":[{"id":"42"}]}}"#;
    let left = a.step(&text(frame), "42");
    let right = b.receive(&decode(frame).unwrap(), "42");
    assert_eq!(left, right);
    assert_eq!(a, b);
    assert_eq!(left.len(), 1);
}

#[test]
fn the_policy_reacts_to_a_mention_of_the_client() {
    assert_eq!(react_to_mention(&message(&["42"]), "42"), vec![Action::React(fire())]);
    assert_eq!(react_to_mention(&message(&["7", "42", "42"]), "42"), vec![Action::React(fire())]);
}

#[test]
fn the_policy_ignores_messages_that_mention_others() {
    assert_eq!(react_to_mention(&message(&[]), "42"), vec![]);
    assert_eq!(react_to_mention(&message(&["4", "2", "420", ""]), "42"), vec![]);
}

#[test]
fn a_message_event_runs_the_policy() {
    let mut c = dispatching("secret");
    let envelope = Gateway {
        kind: GatewayKind::Event(GatewayDispatch {
            op: GatewayDispatchOpCode::Dispatch,
            data: EventName::MessageCreate(message(&["42"])),
        }),
        sequence: Some(2),
    };
    assert_eq!(c.receive(&envelope, "42"), vec![Action::React(fire())]);
    assert_eq!(c.receive(&envelope, "43"), vec![]);
    assert_eq!(c.sequence, 2);
}

#[test]
fn the_channel_counter_counts_heartbeats() {
    let mut s = SocketSequence::new();
    assert_eq!(s.sequence, 0);
    assert_eq!(s.get_seq(), 1);
    assert_eq!(s.get_seq(), 2);
    assert_eq!(s.sequence, 2);
    assert_eq!(s.heartbeat(), Some(Outbound::Heartbeat(Hello::new(3))));
    assert_eq!(s.heartbeat(), Some(Outbound::Heartbeat(Hello::new(4))));
    assert_eq!(s.sequence, 4);
}

#[test]
fn the_channel_counter_stops_at_its_end() {
    let mut s = SocketSequence { sequence: u64::MAX - 1 };
    assert_eq!(s.heartbeat(), Some(Outbound::Heartbeat(Hello::new(u64::MAX))));
    assert_eq!(s.heartbeat(), None);
    assert_eq!(s.sequence, u64::MAX);
}
