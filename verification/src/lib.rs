//! Verified core of a WebTiles game server: the state of running games, the
//! queues of those who watch them, and what the server decides when it starts.
pub mod game;
pub mod http;
pub mod protocol;
pub mod server;
