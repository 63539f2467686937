use honeypot::response::{anonymous, base, dream, status_response, PlayerSampleEntry, ServerListPing};

fn respond(ping: ServerListPing) -> (i32, i32, Vec<PlayerSampleEntry>, String, Vec<u8>, String, i32) {
    match ping {
        ServerListPing::Respond {
            online_players,
            max_players,
            player_sample,
            description,
            favicon_png,
            version_name,
            protocol,
        } => (online_players, max_players, player_sample, description, favicon_png, version_name, protocol),
        ServerListPing::Ignore => panic!("expected a response"),
    }
}

#[test]
fn base_response() {
    let (online, max, sample, description, favicon, version, protocol) = respond(base());
    assert_eq!(online, 0);
    assert_eq!(max, 20);
    assert!(sample.is_empty());
    assert_eq!(description, "A Minecraft Server");
    assert!(favicon.is_empty());
    assert_eq!(version, "1.20.1");
    assert_eq!(protocol, 763);
}

#[test]
fn online_count_is_sample_size() {
    let sample = vec![
        PlayerSampleEntry { name: "a".to_string(), id: 1 },
        PlayerSampleEntry { name: "b".to_string(), id: 2 },
    ];
    let (online, _, sample, description, ..) = respond(status_response(Some("motd"), Some(sample)));
    assert_eq!(online, 2);
    assert_eq!(sample.len(), 2);
    assert_eq!(description, "motd");
}

#[test]
fn anonymous_response_counts_its_entries() {
    let (online, _, sample, ..) = respond(anonymous(4));
    assert_eq!(online, 5);
    assert_eq!(sample.len(), 5);
    assert!(sample.iter().all(|e| e.name == "Anonymous Player" && e.id == uuid::Uuid::nil().as_u128()));
    let (online, _, sample, ..) = respond(anonymous(-3));
    assert_eq!(online, 0);
    assert!(sample.is_empty());
}

#[test]
fn dream_response_ids_are_the_parsed_uuids() {
    let (online, _, sample, description, ..) = respond(dream());
    assert_eq!(online, 3);
    assert_eq!(description, "Dream recording server");
    let expected = [
        ("Dream", "ec70bcaf-702f-4bb8-b48d-276fa52a780c"),
        ("GeorgeNotFound", "bd3dd5a4-0438-4699-b2fd-36f518154b41"),
        ("Sapnap", "c66f7c8a-ed0c-4469-90b0-421d8ff7ca49"),
    ];
    for (entry, (name, id)) in sample.iter().zip(expected) {
        assert_eq!(entry.name, name);
        assert_eq!(entry.id, id.parse::<uuid::Uuid>().unwrap().as_u128());
    }
}
