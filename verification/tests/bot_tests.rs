use slime_bot::bootstrap::{
    boot_step, required_intents, startup_log_level, validate_token, BootAction, BootEvent,
    BootState, LogLevel, TokenLookup,
};
use slime_bot::error::SlimeError;
use slime_bot::handler::{
    handle_event, ready_line, send_failure_line, settle_all, settle_event, Action, Event,
    IncomingMessage, Outcome, SendResult,
};

fn message(channel_id: u64, content: &str) -> Event {
    Event::Message(IncomingMessage { channel_id, content: String::from(content) })
}

#[test]
fn ping_is_answered_with_pong() {
    let a = handle_event(&message(42, "!ping"));
    assert_eq!(a, Action::Reply { channel_id: 42, text: String::from("Pong!") });
}

#[test]
fn ping_match_is_exact() {
    for content in ["!Ping", "!PING", " !ping", "!ping ", "ping", "", "!pingg", "!pin", "!!ping"] {
        let a = handle_event(&message(42, content));
        assert_eq!(a, Action::Ignore, "text {content:?} must be ignored");
    }
}

#[test]
fn ready_logs_the_account_name() {
    let a = handle_event(&Event::Ready { user_name: String::from("Slime") });
    match a {
        Action::LogLine { line } => {
            assert_eq!(line, "Slime is connected!");
            assert!(line.contains("Slime"));
        },
        other => panic!("expected a log line, got {other:?}"),
    }
}

#[test]
fn ready_line_is_exact() {
    assert_eq!(ready_line(&String::from("bot")), "bot is connected!");
}

#[test]
fn send_failure_line_is_exact() {
    assert_eq!(
        send_failure_line(&String::from("rate limited")),
        "Error sending message: rate limited"
    );
}

#[test]
fn error_debug_texts() {
    let var = SlimeError::Var(String::from("oops"));
    assert_eq!(var.debug_text(), "Slime says: \"Variable error: oops\"");
    let client = SlimeError::Serenity(String::from("down"));
    assert_eq!(client.debug_text(), "Slime says: \"Serenity error: down\"");
}

#[test]
fn error_display_texts() {
    let var = SlimeError::Var(String::from("oops"));
    assert_eq!(var.display_text(), "SlimeError::Var(oops)");
    let client = SlimeError::Serenity(String::from("down"));
    assert_eq!(client.display_text(), "SlimeError::SerenityError(down)");
}

#[test]
fn token_present_and_non_empty_is_accepted() {
    let r = validate_token(TokenLookup::Found(String::from("s3cret")));
    assert_eq!(r, Ok(String::from("s3cret")));
}

#[test]
fn token_empty_is_a_config_error() {
    let r = validate_token(TokenLookup::Found(String::new()));
    assert_eq!(r, Err(SlimeError::Var(String::from("token variable is empty"))));
}

#[test]
fn token_missing_is_a_config_error() {
    let r = validate_token(TokenLookup::Missing);
    assert_eq!(r, Err(SlimeError::Var(String::from("token variable is not set"))));
}

#[test]
fn token_not_text_is_a_config_error() {
    let r = validate_token(TokenLookup::NotText);
    assert_eq!(r, Err(SlimeError::Var(String::from("token variable is not valid text"))));
}

#[test]
fn intents_request_all_three_flags() {
    let i = required_intents();
    assert!(i.guild_messages);
    assert!(i.direct_messages);
    assert!(i.message_content);
}

#[test]
fn log_level_follows_build_kind() {
    assert_eq!(startup_log_level(true), LogLevel::Debug);
    assert_eq!(startup_log_level(false), LogLevel::Info);
}

#[test]
fn boot_happy_path() {
    let (s1, a1) = boot_step(
        BootState::AwaitingToken,
        BootEvent::TokenRead(TokenLookup::Found(String::from("tok"))),
    );
    assert_eq!(s1, BootState::AwaitingClient { token: String::from("tok") });
    assert_eq!(
        a1,
        BootAction::BuildClient { token: String::from("tok"), intents: required_intents() }
    );

    let (s2, a2) = boot_step(s1, BootEvent::ClientBuilt(Ok(())));
    assert_eq!(s2, BootState::AwaitingRun);
    assert_eq!(a2, BootAction::StartClient);

    let (s3, a3) = boot_step(s2, BootEvent::RunEnded(Ok(())));
    assert_eq!(s3, BootState::Done);
    assert_eq!(a3, BootAction::Exit { failure: None, log: None });
}

#[test]
fn unset_token_exits_without_any_connection_attempt() {
    let (s, a) = boot_step(BootState::AwaitingToken, BootEvent::TokenRead(TokenLookup::Missing));
    assert_eq!(s, BootState::Done);
    assert_eq!(
        a,
        BootAction::Exit {
            failure: Some(SlimeError::Var(String::from("token variable is not set"))),
            log: None,
        }
    );
    assert!(!matches!(a, BootAction::BuildClient { .. }));
    assert!(!matches!(a, BootAction::StartClient));
}

#[test]
fn rejected_token_exits_before_the_event_loop() {
    let (s, a) = boot_step(
        BootState::AwaitingClient { token: String::from("tok") },
        BootEvent::ClientBuilt(Err(String::from("invalid token"))),
    );
    assert_eq!(s, BootState::Done);
    assert_eq!(
        a,
        BootAction::Exit {
            failure: Some(SlimeError::Serenity(String::from("invalid token"))),
            log: None,
        }
    );
    assert!(!matches!(a, BootAction::StartClient));
}

#[test]
fn run_error_is_logged_but_exits_clean() {
    let (s, a) = boot_step(
        BootState::AwaitingRun,
        BootEvent::RunEnded(Err(String::from("fatal disconnect"))),
    );
    assert_eq!(s, BootState::Done);
    assert_eq!(
        a,
        BootAction::Exit {
            failure: None,
            log: Some(String::from("Client error: fatal disconnect")),
        }
    );
}

#[test]
fn two_pings_get_two_independent_replies() {
    let events = vec![message(1, "!ping"), message(2, "!ping")];
    let sends = vec![SendResult::Delivered, SendResult::Delivered];
    let outs = settle_all(&events, &sends);
    assert_eq!(
        outs,
        vec![Outcome::Replied { channel_id: 1 }, Outcome::Replied { channel_id: 2 }]
    );
}

#[test]
fn one_failed_reply_does_not_stop_later_events() {
    let events = vec![
        message(1, "!ping"),
        message(2, "!ping"),
        Event::Ready { user_name: String::from("Slime") },
        message(3, "hello"),
    ];
    let sends = vec![
        SendResult::Failed(String::from("network down")),
        SendResult::Delivered,
        SendResult::Delivered,
        SendResult::Delivered,
    ];
    let outs = settle_all(&events, &sends);
    assert_eq!(
        outs,
        vec![
            Outcome::ReplyFailed {
                channel_id: 1,
                log: String::from("Error sending message: network down"),
            },
            Outcome::Replied { channel_id: 2 },
            Outcome::Logged { line: String::from("Slime is connected!") },
            Outcome::Ignored,
        ]
    );
}

#[test]
fn non_ping_is_ignored_whatever_the_network_would_say() {
    let o = settle_event(&message(9, "pong?"), &SendResult::Failed(String::from("boom")));
    assert_eq!(o, Outcome::Ignored);
}
