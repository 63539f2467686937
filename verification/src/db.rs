use vstd::prelude::*;

use crate::models::{Host, NewEntry, NewPlayer};
use crate::text::owned;

verus! {

/// What brought a visitor: a status ping, or a join attempt.
#[derive(Debug, PartialEq, Eq, Structural)]
pub enum Update {
    Ping,
    Join,
}

/// How a database query went wrong: no row matched, or the query itself
/// failed (with the database's message).
pub enum QueryError {
    NotFound,
    Failed(String),
}

/// The write that records a visit in the statistics table.
pub enum StatsWrite {
    /// Set the counters of the row of `ip_address`, and its update time.
    Increment { ip_address: String, ping_count: i32, join_count: i32, updated_at: i64 },
    /// Add a row for an address seen for the first time.
    Insert(NewEntry),
}

/// Where the player's server row comes from.
pub enum PlayerServer {
    /// The address has a row, with this id.
    Known(u128),
    /// The address has none (or the lookup failed): add this one first.
    Create(NewEntry),
}

/// The row that records a player, and the update time it gets when the
/// player is already recorded.
pub struct PlayerUpsert {
    pub player: NewPlayer,
    pub updated_at: i64,
}

/// How much a visit adds to the ping counter and to the join counter.
pub open spec fn increments(update_type: Update) -> (i32, i32) {
    match update_type {
        Update::Ping => (1, 0),
        Update::Join => (0, 1),
    }
}

/// The counters after one more visit fit an `i32`.
pub open spec fn counts_fit(lookup: Result<Host, QueryError>, update_type: Update) -> bool {
    match lookup {
        Ok(h) => h.ping_count + increments(update_type).0 <= i32::MAX && h.join_count
            + increments(update_type).1 <= i32::MAX,
        Err(_) => true,
    }
}

/// A UUID of version 4 with the variant of RFC 4122.
pub open spec fn is_random_uuid(id: u128) -> bool {
    &&& (id >> 76u128) & 0xfu128 == 4u128
    &&& (id >> 62u128) & 0x3u128 == 2u128
}

/// The write for a visit of kind `update_type` from `addr`, given what the
/// lookup of `addr` returned, with `new_id` and `now` for a new row.
pub open spec fn stats_write_spec(
    lookup: Result<Host, QueryError>,
    addr: Seq<char>,
    update_type: Update,
    new_id: u128,
    now: i64,
    write: Result<StatsWrite, QueryError>,
) -> bool {
    let (pc, jc) = increments(update_type);
    match lookup {
        Ok(h) => write matches Ok(StatsWrite::Increment { ip_address, ping_count, join_count, updated_at })
            && ip_address@ == h.ip_address@ && ping_count == h.ping_count + pc && join_count
            == h.join_count + jc && updated_at == now,
        Err(QueryError::NotFound) => write matches Ok(StatsWrite::Insert(e)) && e.id == new_id
            && e.ip_address@ == addr && e.ping_count == pc && e.join_count == jc,
        Err(QueryError::Failed(m)) => write matches Err(QueryError::Failed(m2)) && m2@ == m@,
    }
}

/// The ping counter and join counter that a visit of kind `update_type` adds.
pub fn counts(update_type: &Update) -> (c: (i32, i32))
    ensures
        c == increments(*update_type),
{
    let pc: i32 = if *update_type == Update::Ping {
        1
    } else {
        0
    };
    let jc: i32 = if *update_type == Update::Join {
        1
    } else {
        0
    };
    (pc, jc)
}

/// The write that records a visit: the counters of a known address go up by
/// the visit, an unknown address gets a new row (id `new_id`) counting just
/// this visit, and a failed lookup is handed back.
pub fn stats_write(
    lookup: Result<Host, QueryError>,
    addr: &str,
    update_type: Update,
    new_id: u128,
    now: i64,
) -> (write: Result<StatsWrite, QueryError>)
    requires
        counts_fit(lookup, update_type),
    ensures
        stats_write_spec(lookup, addr@, update_type, new_id, now, write),
{
    let (pc, jc) = counts(&update_type);
    match lookup {
        Ok(host) => Ok(
            StatsWrite::Increment {
                ip_address: host.ip_address,
                ping_count: host.ping_count + pc,
                join_count: host.join_count + jc,
                updated_at: now,
            },
        ),
        Err(QueryError::NotFound) => Ok(
            StatsWrite::Insert(
                NewEntry { id: new_id, ip_address: owned(addr), ping_count: pc, join_count: jc },
            ),
        ),
        Err(QueryError::Failed(m)) => Err(QueryError::Failed(m)),
    }
}

/// A fresh random UUID.
///
/// Calls `uuid::Uuid::new_v4` and reads its 128-bit value; claims only that
/// the version is 4 and the variant that of RFC 4122, which the crate sets on
/// every id it makes this way.
#[verifier::external_body]
fn new_uuid() -> (id: u128)
    ensures
        is_random_uuid(id),
{
    uuid::Uuid::new_v4().as_u128()
}

/// The current local time, in microseconds since 1970-01-01 00:00.
///
/// Calls `chrono::Local::now`, takes the local wall-clock time and counts its
/// microseconds; nothing is claimed of the value.
#[verifier::external_body]
fn now_micros() -> (t: i64) {
    chrono::Local::now().naive_local().and_utc().timestamp_micros()
}

/// The write that records a visit of kind `update_type` from `addr`, given
/// the lookup of `addr` in the statistics table; a new row gets a fresh
/// random id, an updated row the current time.
pub fn add_or_update(lookup: Result<Host, QueryError>, addr: &str, update_type: Update) -> (write:
    Result<StatsWrite, QueryError>)
    requires
        counts_fit(lookup, update_type),
    ensures
        exists|new_id: u128, now: i64|
            is_random_uuid(new_id) && stats_write_spec(
                lookup,
                addr@,
                update_type,
                new_id,
                now,
                write,
            ),
{
    let new_id = new_uuid();
    let now = now_micros();
    stats_write(lookup, addr, update_type, new_id, now)
}

/// The row for an address seen first at a join: one join, no ping.
pub fn backup_entry(addr: &str, id: u128) -> (entry: NewEntry)
    ensures
        entry.id == id,
        entry.ip_address@ == addr@,
        entry.ping_count == 0,
        entry.join_count == 1,
{
    NewEntry { id, ip_address: owned(addr), ping_count: 0, join_count: 1 }
}

/// The server row a joining player belongs to: the row found for `addr`, or,
/// when the lookup found none or failed, a new row for `addr` with a fresh id
/// that counts one join.
pub fn add_player(lookup: Result<Host, QueryError>, addr: &str) -> (server: PlayerServer)
    ensures
        match lookup {
            Ok(h) => server == PlayerServer::Known(h.id),
            Err(_) => server matches PlayerServer::Create(e) && is_random_uuid(e.id)
                && e.ip_address@ == addr@ && e.ping_count == 0 && e.join_count == 1,
        },
{
    match lookup {
        Ok(host) => PlayerServer::Known(host.id),
        Err(_) => PlayerServer::Create(backup_entry(addr, new_uuid())),
    }
}

/// The row recording player `name` with id `uuid` on server `server_uuid`,
/// with `now` as the update time for a player already recorded.
pub fn player_row(uuid: u128, server_uuid: u128, name: &str, now: i64) -> (row: PlayerUpsert)
    ensures
        row.player.uuid == uuid,
        row.player.server_uuid == server_uuid,
        row.player.name@ == name@,
        row.updated_at == now,
{
    PlayerUpsert { player: NewPlayer { uuid, server_uuid, name: owned(name) }, updated_at: now }
}

/// The row recording player `name` with id `uuid` on server `server_uuid`,
/// stamped with the current time.
pub fn player_upsert(uuid: u128, server_uuid: u128, name: &str) -> (row: PlayerUpsert)
    ensures
        row.player.uuid == uuid,
        row.player.server_uuid == server_uuid,
        row.player.name@ == name@,
{
    player_row(uuid, server_uuid, name, now_micros())
}

/// Every visit counts in exactly one counter, by exactly one.
pub proof fn law_one_visit_one_count(update_type: Update)
    ensures
        increments(update_type).0 + increments(update_type).1 == 1,
        increments(update_type).0 == 1 <==> update_type == Update::Ping,
{
}

/// Recording a visit of a known address raises the sum of its counters by
/// one, and a new address starts with a sum of one.
pub proof fn law_visit_adds_one(
    lookup: Result<Host, QueryError>,
    addr: Seq<char>,
    update_type: Update,
    new_id: u128,
    now: i64,
    write: Result<StatsWrite, QueryError>,
)
    requires
        stats_write_spec(lookup, addr, update_type, new_id, now, write),
    ensures
        lookup matches Ok(h) ==> write matches Ok(
            StatsWrite::Increment { ping_count, join_count, .. },
        ) && ping_count + join_count == h.ping_count + h.join_count + 1,
        lookup matches Err(QueryError::NotFound) ==> write matches Ok(StatsWrite::Insert(e))
            && e.ping_count + e.join_count == 1,
{
}

/// A visit of a known address keeps its address and raises exactly the
/// counter of its kind by one, stamped with the time given; an unknown
/// address gets a row for itself with the id given, counting just this
/// visit; a failed lookup gives its own error back.
pub proof fn law_stats_write_effect(
    lookup: Result<Host, QueryError>,
    addr: Seq<char>,
    update_type: Update,
    new_id: u128,
    now: i64,
    write: Result<StatsWrite, QueryError>,
)
    requires
        stats_write_spec(lookup, addr, update_type, new_id, now, write),
    ensures
        lookup matches Ok(h) ==> write matches Ok(
            StatsWrite::Increment { ip_address, ping_count, join_count, updated_at },
        ) && ip_address@ == h.ip_address@ && updated_at == now && (update_type == Update::Ping
            ==> ping_count == h.ping_count + 1 && join_count == h.join_count) && (update_type
            == Update::Join ==> join_count == h.join_count + 1 && ping_count == h.ping_count),
        lookup matches Err(QueryError::NotFound) ==> write matches Ok(StatsWrite::Insert(e))
            && e.id == new_id && e.ip_address@ == addr && (update_type == Update::Ping
            ==> e.ping_count == 1 && e.join_count == 0) && (update_type == Update::Join
            ==> e.ping_count == 0 && e.join_count == 1),
        lookup matches Err(QueryError::Failed(m)) ==> write matches Err(QueryError::Failed(m2))
            && m2@ == m@,
{
}

} // verus!
