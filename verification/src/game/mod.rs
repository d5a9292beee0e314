//! Running games: their watchers, their moderation and their place in the lobby.
pub mod calls;
pub mod clock;
pub mod laws;
mod lemmas;
pub mod mailbox;
pub mod meaning;
pub mod model;
pub mod session;
