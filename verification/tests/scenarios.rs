use gateway_client::bot::{classify, Disposition};
use gateway_client::gateway::{Identify, Resume};
use gateway_client::rest::{reaction_url, API_VERSION};
use gateway_client::ws::{
    Action, Event, GatewayConnection, Outbound, Outcome, Phase, Reaction, SocketSequence,
};

const SELF_ID: &str = "42";
const HELLO: &str = r#"{"t":null,"s":null,"op":10,"d":{"heartbeat_interval":5000}}"#;
const READY: &str = r#"{"t":"READY","s":1,"op":0,"d":{"v":10,"session_id":"abc","resume_gateway_url":"wss://x","user":{"id":"42"}}}"#;

fn run(c: &mut GatewayConnection<'_>, frames: &[&str]) -> Vec<Action> {
    let dial = c.step(&Event::Start, SELF_ID);
    assert_eq!(dial.len(), 1);
    assert!(matches!(dial[0], Action::Connect(_)));
    let mut all = c.step(&Event::Opened, SELF_ID);
    for frame in frames {
        all.extend(c.step(&Event::Text(frame.to_string()), SELF_ID));
    }
    all
}

fn message(mentions: &str) -> String {
    format!(
        r#"{{"t":"MESSAGE_CREATE","s":7,"op":0,"d":{{"author":{{"username":"luigi"}},"channel_id":"100","id":"200","content":"hey","guild_id":"300","mentions":{}}}}}"#,
        mentions
    )
}

#[test]
fn hello_alone_identifies_once_and_schedules_the_heartbeat() {
    let mut c = GatewayConnection::new("secret");
    let actions = run(&mut c, &[HELLO]);
    assert_eq!(
        actions,
        vec![
            Action::StartHeartbeat(5000),
            Action::Send(Outbound::Identify(Identify::new("secret"))),
        ]
    );
    let identifies =
        actions.iter().filter(|a| matches!(a, Action::Send(Outbound::Identify(_)))).count();
    assert_eq!(identifies, 1);
    let mut channel = SocketSequence::new();
    assert_eq!(channel.heartbeat().unwrap().encode(), r#"{"d":1,"op":1}"#);
    assert_eq!(channel.heartbeat().unwrap().encode(), r#"{"d":2,"op":1}"#);
}

#[test]
fn a_mention_of_the_client_gets_one_reaction() {
    let mut c = GatewayConnection::new("secret");
    let actions = run(&mut c, &[HELLO, READY, &message(r#"[{"id":"42"}]"#)]);
    assert_eq!(c.session_id.as_deref(), Some("abc"));
    assert_eq!(c.resume_gateway_url.as_deref(), Some("wss://x"));
    assert_eq!(c.sequence, 7);
    assert_eq!(c.phase, Phase::Dispatching);
    let reactions: Vec<&Action> = actions.iter().filter(|a| matches!(a, Action::React(_))).collect();
    let want = Action::React(Reaction {
        channel_id: "100".to_string(),
        message_id: "200".to_string(),
        emoji: "\u{1F525}".to_string(),
    });
    assert_eq!(reactions, vec![&want]);
    assert_eq!(
        reaction_url(API_VERSION, "100", "200", "\u{1F525}"),
        "https://discord.com/api/v10/channels/100/messages/200/reactions/\u{1F525}/@me"
    );
}

#[test]
fn a_message_that_mentions_others_gets_no_reaction() {
    let mut c = GatewayConnection::new("secret");
    let actions = run(&mut c, &[HELLO, READY, &message(r#"[{"id":"41"},{"id":"420"}]"#)]);
    assert_eq!(c.session_id.as_deref(), Some("abc"));
    assert_eq!(c.resume_gateway_url.as_deref(), Some("wss://x"));
    assert_eq!(c.sequence, 7);
    assert_eq!(actions.iter().filter(|a| matches!(a, Action::React(_))).count(), 0);
    let mut c = GatewayConnection::new("secret");
    let actions = run(&mut c, &[HELLO, READY, &message("[]")]);
    assert_eq!(actions.iter().filter(|a| matches!(a, Action::React(_))).count(), 0);
}

#[test]
fn after_a_clean_close_the_next_attempt_resumes() {
    let mut c = GatewayConnection::new("secret");
    run(&mut c, &[HELLO, READY, &message("[]")]);
    assert!(c.step(&Event::Close, SELF_ID).is_empty());
    let outcome = c.outcome().unwrap();
    assert_eq!(outcome, Outcome::Closed);
    assert_eq!(classify(outcome), Disposition::Reconnect);
    c.reconnect();
    assert_eq!(c.endpoint(), "wss://x");
    assert_eq!(c.clone().step(&Event::Start, SELF_ID), vec![Action::Connect("wss://x/".to_string())]);
    let actions = run(&mut c, &[HELLO]);
    assert_eq!(
        actions,
        vec![
            Action::StartHeartbeat(5000),
            Action::Send(Outbound::Resume(Resume::new("secret", "abc", 7))),
        ]
    );
    assert!(!actions.iter().any(|a| matches!(a, Action::Send(Outbound::Identify(_)))));
    assert_eq!(
        Resume::new("secret", "abc", 7).encode(),
        r#"{"d":{"seq":7,"session_id":"abc","token":"secret"},"op":6}"#
    );
}
