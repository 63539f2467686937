//! Verified core of a Minecraft honeypot: a fake server that answers status
//! pings with believable server lists, turns players away at login, records
//! every contact in a statistics table and reports it to a chat webhook.

pub mod text;
pub mod webhook;
pub mod templates;
pub mod response;
pub mod config;
pub mod models;
pub mod db;
pub mod server;
pub mod handler;
