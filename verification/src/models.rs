use vstd::prelude::*;

verus! {

// Ids are UUIDs held as their 128-bit value; times are microseconds since
// 1970-01-01 00:00 of the server's local clock.

/// A row of the statistics table: one address and how often it was seen.
pub struct Host {
    pub id: u128,
    pub ip_address: String,
    pub ping_count: i32,
    pub join_count: i32,
    pub created_at: i64,
    pub updated_at: i64,
}

/// A row to add to the statistics table.
pub struct NewEntry {
    pub id: u128,
    pub ip_address: String,
    pub ping_count: i32,
    pub join_count: i32,
}

/// A row of the players table: a player seen on the server at one address.
pub struct Player {
    pub uuid: u128,
    pub server_uuid: u128,
    pub name: String,
    pub created_at: i64,
    pub updated_at: i64,
}

/// A row to add to the players table.
pub struct NewPlayer {
    pub uuid: u128,
    pub server_uuid: u128,
    pub name: String,
}

} // verus!
