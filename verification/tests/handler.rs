use honeypot::handler::{step, Action, Event, Intention, Stage};

#[test]
fn status_conversation() {
    let s = step(Stage::AwaitHandshake, Event::Handshake { intention: Intention::Status, hostname: "mc.example.org".to_string() });
    assert!(matches!(s.action, Action::ReadNext));
    let s = step(s.stage, Event::StatusRequest);
    match &s.action {
        Action::SendStatus { target } => assert_eq!(target, "mc.example.org"),
        _ => panic!("expected a status response"),
    }
    assert!(matches!(s.stage, Stage::AwaitPing));
    let s = step(s.stage, Event::PingRequest { time: 123456789 });
    assert!(matches!(s.action, Action::SendPong { time: 123456789 }));
    assert!(matches!(s.stage, Stage::Closed));
    let s = step(s.stage, Event::StatusRequest);
    assert!(matches!(s.action, Action::Ignore));
    assert!(matches!(s.stage, Stage::Closed));
}

#[test]
fn login_conversation() {
    let s = step(Stage::AwaitHandshake, Event::Handshake { intention: Intention::Login, hostname: "x".to_string() });
    assert!(matches!(s.stage, Stage::AwaitLoginStart));
    let s = step(s.stage, Event::LoginHello { name: "Steve".to_string() });
    match s.action {
        Action::TurnAway { user, reason } => {
            assert_eq!(user, "Steve");
            assert_eq!(reason, "Internal server error, please try again later.");
        }
        _ => panic!("expected the player to be turned away"),
    }
    assert!(matches!(s.stage, Stage::Closed));
}

#[test]
fn no_handshake_is_logged() {
    for event in [Event::ReadFailed, Event::OtherPacket, Event::StatusRequest] {
        let s = step(Stage::AwaitHandshake, event);
        assert!(matches!(s.action, Action::LogConnection));
        assert!(matches!(s.stage, Stage::Closed));
    }
}

#[test]
fn unknown_intention_fails() {
    let s = step(Stage::AwaitHandshake, Event::Handshake { intention: Intention::Other, hostname: String::new() });
    match s.action {
        Action::Fail { message } => assert_eq!(message, "[!] unexpected data"),
        _ => panic!("expected a failure"),
    }
}

#[test]
fn wrong_packets_fail_with_their_message() {
    let cases = [
        (Stage::AwaitStatusRequest { target: "t".to_string() }, "[!] expected status request"),
        (Stage::AwaitPing, "[!] expected ping request"),
        (Stage::AwaitLoginStart, "[!] expected login start"),
    ];
    for (stage, expected) in cases {
        match step(stage, Event::OtherPacket).action {
            Action::Fail { message } => assert_eq!(message, expected),
            _ => panic!("expected a failure"),
        }
    }
    assert!(matches!(step(Stage::AwaitPing, Event::ReadFailed).action, Action::PassReadError));
    assert!(matches!(step(Stage::AwaitLoginStart, Event::StatusRequest).action, Action::Fail { .. }));
}
