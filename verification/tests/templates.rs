use honeypot::templates::{anonymous, base, disconnect, dream, pick, pick_for_me, status_response, Players, SamplePlayer, Status};

fn names(status: &Status) -> Vec<String> {
    status.players.sample.iter().map(|p| p.name.clone()).collect()
}

fn is_plain(status: &Status) {
    assert_eq!(status.description, "A Minecraft Server");
    assert_eq!(status.favicon, None);
    assert_eq!(status.players.max, 20);
    assert_eq!(status.version.name, "1.20.1");
    assert_eq!(status.version.protocol, 763);
    assert_eq!(status.enforces_secure_chat, Some(false));
}

#[test]
fn base_is_an_empty_default_server() {
    let status = base();
    is_plain(&status);
    assert_eq!(status.players.online, 0);
    assert!(status.players.sample.is_empty());
}

#[test]
fn status_response_keeps_given_values() {
    let players = Players {
        max: 5,
        online: 1,
        sample: vec![SamplePlayer { id: "id".to_string(), name: "Notch".to_string() }],
    };
    let status = status_response(Some("hello"), Some(players));
    assert_eq!(status.description, "hello");
    assert_eq!(status.players.max, 5);
    assert_eq!(status.players.online, 1);
    assert_eq!(names(&status), vec!["Notch".to_string()]);
    assert_eq!(status.version.protocol, 763);
}

#[test]
fn anonymous_lists_one_entry_more_than_online() {
    let status = anonymous(3);
    is_plain(&status);
    assert_eq!(status.players.online, 3);
    assert_eq!(status.players.sample.len(), 4);
    for p in &status.players.sample {
        assert_eq!(p.name, "Anonymous Player");
        assert_eq!(p.id, "00000000-0000-0000-0000-000000000000");
    }
    assert_eq!(anonymous(0).players.sample.len(), 1);
    assert_eq!(anonymous(-1).players.sample.len(), 0);
    assert_eq!(anonymous(-1).players.online, -1);
}

#[test]
fn dream_lists_the_recording_server() {
    let status = dream();
    assert_eq!(status.description, "Dream recording server");
    assert_eq!(status.players.online, 3);
    assert_eq!(status.players.max, 20);
    assert_eq!(names(&status), vec!["Dream", "GeorgeNotFound", "Sapnap"]);
    assert_eq!(status.players.sample[0].id, "ec70bcaf-702f-4bb8-b48d-276fa52a780c");
    assert_eq!(status.players.sample[1].id, "bd3dd5a4-0438-4699-b2fd-36f518154b41");
    assert_eq!(status.players.sample[2].id, "c66f7c8a-ed0c-4469-90b0-421d8ff7ca49");
}

#[test]
fn pick_numbers_the_choices() {
    assert_eq!(pick(0, 7).players.online, 0);
    assert_eq!(pick(1, 7).players.online, 7);
    assert_eq!(pick(1, 7).players.sample.len(), 8);
    assert_eq!(pick(2, 7).description, "Dream recording server");
}

#[test]
fn pick_for_me_gives_one_of_the_choices() {
    for _ in 0..200 {
        let status = pick_for_me();
        let online = status.players.online;
        if status.description == "Dream recording server" {
            assert_eq!(online, 3);
        } else if status.players.sample.is_empty() {
            assert_eq!(online, 0);
        } else {
            assert!((0..=20).contains(&online));
            assert_eq!(status.players.sample.len() as i32, online + 1);
        }
    }
}

#[test]
fn disconnect_carries_the_reason() {
    assert_eq!(disconnect("go away").reason, "go away");
}

#[test]
fn pick_for_me_varies() {
    let mut seen = std::collections::HashSet::new();
    for _ in 0..500 {
        let status = pick_for_me();
        seen.insert((status.description.clone(), status.players.online));
    }
    assert!(seen.len() > 3);
}
