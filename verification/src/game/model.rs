//! What a session and its watchers are, as mathematical values.
use std::time::Instant;
use vstd::prelude::*;

use crate::game::clock::NANOS_PER_SEC;
use crate::game::mailbox::{can_follow, Offer, OutgoingMessage};
use crate::game::session::{ExitInfo, GameId, Kick, WhereInfo, WATCHER_QUEUE_CAPACITY};
use crate::protocol::LobbyEntry;

verus! {

/// A registered watcher, with the history of its mailbox.
#[verifier::ext_equal]
pub struct WatcherView {
    pub connection_id: u64,
    pub username: Option<String>,
    pub is_player: bool,
    pub is_admin: bool,
    pub chat_hidden: bool,
    /// The offers made to this watcher, oldest first.
    pub offers: Seq<Offer>,
    /// The number of messages that its queue holds at once.
    pub queue_limit: nat,
    /// The mark of the channel that carries its queue.
    pub channel: int,
}

impl WatcherView {
    /// Whether this watcher counts as a spectator.
    pub open spec fn is_spectator(self) -> bool {
        !self.is_player && !self.chat_hidden
    }

    /// The latest offer.
    pub open spec fn last_offer(self) -> Offer
        recommends
            self.offers.len() > 0,
    {
        self.offers.last()
    }

    /// Whether `after` is this watcher after `message` was offered to it once.
    pub open spec fn was_offered(self, message: OutgoingMessage, after: WatcherView) -> bool {
        &&& after == (WatcherView { offers: self.offers.push(after.last_offer()), ..self })
        &&& after.last_offer().message == message
        &&& can_follow(self.offers, self.queue_limit, after.last_offer())
    }
}

impl Kick {
    /// The nanoseconds that have gone by at `now` since the kick, none if the
    /// kick lies ahead.
    pub open spec fn elapsed_at(self, now: int) -> int {
        if now >= self.kicked_at {
            now - self.kicked_at
        } else {
            0
        }
    }

    /// Whether the kick still keeps its target out at `now`.
    pub open spec fn active_at(self, now: int) -> bool {
        self.elapsed_at(now) < self.interval_secs * NANOS_PER_SEC
    }
}

/// The state of one running game.
#[verifier::ext_equal]
pub struct SessionView {
    pub id: GameId,
    pub username: Seq<char>,
    pub game_config_id: Seq<char>,
    pub started_at: Instant,
    pub watchers: Map<u64, WatcherView>,
    pub blocked: Set<Seq<char>>,
    pub kicked: Map<Seq<char>, Kick>,
    pub where_info: WhereInfo,
    pub last_milestone: Option<String>,
    pub exit_info: ExitInfo,
}

/// The name by which a user is known, if they are logged in.
pub open spec fn name_of(username: Option<&str>) -> Option<Seq<char>> {
    match username {
        Some(name) => Some(name@),
        None => None,
    }
}

impl SessionView {
    /// Every watcher is registered under its own connection with a queue of the
    /// usual size, and there are finitely many.
    pub open spec fn well_formed(self) -> bool {
        &&& self.watchers.dom().finite()
        &&& forall|id: u64| #[trigger]
            self.watchers.contains_key(id) ==> {
                &&& self.watchers[id].connection_id == id
                &&& self.watchers[id].queue_limit == WATCHER_QUEUE_CAPACITY
            }
    }

    /// The connections that count as spectators.
    pub open spec fn spectators(self) -> Set<u64> {
        self.watchers.dom().filter(|id: u64| self.watchers[id].is_spectator())
    }

    /// Whether `other` is a state of the same game: one id, one player, one
    /// configuration, one start.
    pub open spec fn same_game(self, other: SessionView) -> bool {
        &&& self.id == other.id
        &&& self.username == other.username
        &&& self.game_config_id == other.game_config_id
        &&& self.started_at == other.started_at
    }

    /// Whether the lobby shows the same of both sessions, idle times apart.
    pub open spec fn same_line(self, other: SessionView) -> bool {
        &&& self.same_game(other)
        &&& self.spectators() == other.spectators()
        &&& self.where_info == other.where_info
        &&& self.last_milestone == other.last_milestone
    }

    pub open spec fn with_watchers(self, watchers: Map<u64, WatcherView>) -> SessionView {
        SessionView { watchers, ..self }
    }

    pub open spec fn with_blocked(self, blocked: Set<Seq<char>>) -> SessionView {
        SessionView { blocked, ..self }
    }

    pub open spec fn with_kicked(self, kicked: Map<Seq<char>, Kick>) -> SessionView {
        SessionView { kicked, ..self }
    }

    /// Whether spectating is closed to everyone but the player.
    pub open spec fn all_blocked(self) -> bool {
        self.blocked.contains("[all]"@)
    }

    /// Whether a kick keeps `name` out at `now`.
    pub open spec fn kicked_out_at(self, name: Seq<char>, now: int) -> bool {
        self.kicked.contains_key(name) && self.kicked[name].active_at(now)
    }

    /// Whether `who` may not spectate at `now`; `None` is an anonymous visitor.
    pub open spec fn blocked_at(self, who: Option<Seq<char>>, now: int) -> bool {
        if self.all_blocked() {
            who != Some(self.username)
        } else {
            match who {
                None => self.blocked.contains("[anon]"@),
                Some(name) => self.kicked_out_at(name, now) || self.blocked.contains(name),
            }
        }
    }

    /// Whether asking about `who` at `now` comes upon a kick that has run out.
    pub open spec fn meets_expired_kick(self, who: Option<Seq<char>>, now: int) -> bool {
        &&& !self.all_blocked()
        &&& who matches Some(name) && self.kicked.contains_key(name) && !self.kicked[name].active_at(
            now,
        )
    }

    /// The session after it was asked about `who` at `now`: a kick that has run
    /// out is forgotten.
    pub open spec fn asked_about(self, who: Option<Seq<char>>, now: int) -> SessionView {
        if self.meets_expired_kick(who, now) {
            self.with_kicked(self.kicked.remove(who->0))
        } else {
            self
        }
    }

    /// Whether `blocked` answers whether `who` is kept out at `now`, and `after`
    /// is the session after that answer.
    pub open spec fn answers(
        self,
        who: Option<Seq<char>>,
        now: int,
        blocked: bool,
        after: SessionView,
    ) -> bool {
        &&& blocked == self.blocked_at(who, now)
        &&& after == self.asked_about(who, now)
    }

    /// The session after `name` was kicked at `now` for a number of minutes.
    pub open spec fn kicking(self, name: Seq<char>, minutes: u64, now: u128) -> SessionView {
        self.with_kicked(
            self.kicked.insert(
                name,
                (Kick { kicked_at: now, interval_secs: (minutes * 60) as u64 }),
            ),
        )
    }

    /// Whether `after` comes of offering `message` once to every watcher, and
    /// `refused` are the connections that did not take it.
    pub open spec fn broadcasts(
        self,
        message: OutgoingMessage,
        after: SessionView,
        refused: Set<u64>,
    ) -> bool {
        &&& after == self.with_watchers(after.watchers)
        &&& after.watchers.dom() == self.watchers.dom()
        &&& refused.subset_of(self.watchers.dom())
        &&& forall|id: u64| #[trigger]
            self.watchers.contains_key(id) ==> {
                &&& self.watchers[id].was_offered(message, after.watchers[id])
                &&& refused.contains(id) <==> !(after.watchers[id].last_offer().outcome is Queued)
            }
    }

    /// Whether `entry` is this session's line in the lobby, whatever its idle
    /// time.
    pub open spec fn shown_as(self, entry: LobbyEntry) -> bool {
        &&& entry.id == self.id
        &&& entry.username@ == self.username
        &&& entry.spectator_count == self.spectators().len() % 0x1_0000_0000
        &&& entry.game_id@ == self.game_config_id
        &&& entry.xl == self.where_info.xl
        &&& entry.char == self.where_info.char
        &&& entry.place == self.where_info.place
        &&& entry.turn == self.where_info.turn
        &&& entry.dur == self.where_info.dur
        &&& entry.god == self.where_info.god
        &&& entry.title == self.where_info.title
        &&& entry.milestone == self.last_milestone
    }
}

} // verus!
