//! Messages the server sends to its clients.
use vstd::prelude::*;

verus! {

/// A message that the server itself composes for a client.
#[derive(Debug, Clone, Copy, PartialEq, Eq, Structural)]
pub enum ServerMessage {
    /// The game that the client asked for is running.
    GameStarted,
    /// Keep-alive probe.
    Ping,
}

/// One line of the lobby: a running game and what is known about it.
#[derive(Debug, PartialEq, Eq)]
pub struct LobbyEntry {
    pub id: u64,
    pub username: String,
    pub spectator_count: u32,
    pub idle_time: u64,
    pub game_id: String,
    pub xl: Option<String>,
    pub char: Option<String>,
    pub place: Option<String>,
    pub turn: Option<String>,
    pub dur: Option<String>,
    pub god: Option<String>,
    pub title: Option<String>,
    pub milestone: Option<String>,
}

} // verus!
