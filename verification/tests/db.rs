use honeypot::db::{add_or_update, add_player, backup_entry, counts, player_row, player_upsert, stats_write, PlayerServer, QueryError, StatsWrite, Update};
use honeypot::models::Host;

fn host(ping_count: i32, join_count: i32) -> Host {
    Host {
        id: 7,
        ip_address: "1.2.3.4".to_string(),
        ping_count,
        join_count,
        created_at: 0,
        updated_at: 0,
    }
}

#[test]
fn counts_of_each_kind() {
    assert_eq!(counts(&Update::Ping), (1, 0));
    assert_eq!(counts(&Update::Join), (0, 1));
}

#[test]
fn known_address_counters_go_up() {
    match stats_write(Ok(host(4, 2)), "1.2.3.4", Update::Ping, 99, 1234) {
        Ok(StatsWrite::Increment { ip_address, ping_count, join_count, updated_at }) => {
            assert_eq!(ip_address, "1.2.3.4");
            assert_eq!((ping_count, join_count), (5, 2));
            assert_eq!(updated_at, 1234);
        }
        _ => panic!("expected an increment"),
    }
    match stats_write(Ok(host(4, 2)), "1.2.3.4", Update::Join, 99, 5) {
        Ok(StatsWrite::Increment { ping_count, join_count, .. }) => {
            assert_eq!((ping_count, join_count), (4, 3));
        }
        _ => panic!("expected an increment"),
    }
}

#[test]
fn unknown_address_gets_a_row() {
    match stats_write(Err(QueryError::NotFound), "9.9.9.9", Update::Join, 99, 5) {
        Ok(StatsWrite::Insert(entry)) => {
            assert_eq!(entry.id, 99);
            assert_eq!(entry.ip_address, "9.9.9.9");
            assert_eq!((entry.ping_count, entry.join_count), (0, 1));
        }
        _ => panic!("expected an insert"),
    }
}

#[test]
fn failed_lookup_is_passed_on() {
    match stats_write(Err(QueryError::Failed("boom".to_string())), "9.9.9.9", Update::Ping, 1, 1) {
        Err(QueryError::Failed(m)) => assert_eq!(m, "boom"),
        _ => panic!("expected the error"),
    }
}

#[test]
fn add_or_update_gives_new_rows_random_v4_ids() {
    let mut ids = Vec::new();
    for _ in 0..3 {
        match add_or_update(Err(QueryError::NotFound), "9.9.9.9", Update::Ping) {
            Ok(StatsWrite::Insert(entry)) => {
                assert_eq!((entry.ping_count, entry.join_count), (1, 0));
                let id = uuid::Uuid::from_u128(entry.id);
                assert_eq!(id.get_version_num(), 4);
                assert_eq!(id.get_variant(), uuid::Variant::RFC4122);
                ids.push(entry.id);
            }
            _ => panic!("expected an insert"),
        }
    }
    assert!(ids[0] != ids[1] && ids[1] != ids[2]);
    match add_or_update(Ok(host(0, 0)), "1.2.3.4", Update::Join) {
        Ok(StatsWrite::Increment { ping_count, join_count, .. }) => assert_eq!((ping_count, join_count), (0, 1)),
        _ => panic!("expected an increment"),
    }
}

#[test]
fn player_joins_known_or_new_server() {
    assert!(matches!(add_player(Ok(host(1, 1)), "1.2.3.4"), PlayerServer::Known(7)));
    for lookup in [Err(QueryError::NotFound), Err(QueryError::Failed("x".to_string()))] {
        match add_player(lookup, "4.4.4.4") {
            PlayerServer::Create(entry) => {
                assert_eq!(entry.ip_address, "4.4.4.4");
                assert_eq!((entry.ping_count, entry.join_count), (0, 1));
                assert_eq!(uuid::Uuid::from_u128(entry.id).get_version_num(), 4);
            }
            PlayerServer::Known(_) => panic!("expected a new server row"),
        }
    }
}

#[test]
fn backup_entry_counts_one_join() {
    let entry = backup_entry("3.3.3.3", 5);
    assert_eq!((entry.id, entry.ping_count, entry.join_count), (5, 0, 1));
    assert_eq!(entry.ip_address, "3.3.3.3");
}

#[test]
fn player_rows() {
    let row = player_row(1, 2, "Steve", 77);
    assert_eq!((row.player.uuid, row.player.server_uuid, row.updated_at), (1, 2, 77));
    assert_eq!(row.player.name, "Steve");
    let row = player_upsert(3, 4, "Alex");
    assert_eq!((row.player.uuid, row.player.server_uuid), (3, 4));
    assert_eq!(row.player.name, "Alex");
}
