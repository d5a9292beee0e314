//! Per-game session state: watchers, chat moderation, "where" tracking and
//! lobby-entry construction.
use std::collections::HashMap;
use std::time::Instant;

use tokio::sync::mpsc;
use vstd::hash_map::StringHashMap;
use vstd::hash_set::StringHashSet;
use vstd::prelude::*;

use crate::game::clock::{clock_answers, elapsed_nanos, NANOS_PER_SEC};
use crate::game::lemmas::{lemma_filter_counts, lemma_push_contains};
pub use crate::game::mailbox::OutgoingMessage;
use crate::game::mailbox::{receiver_channel, Delivery, Mailbox, Offer};
use crate::game::model::{name_of, SessionView, WatcherView};
use crate::protocol::LobbyEntry;

verus! {

broadcast use vstd::std_specs::hash::group_hash_axioms;

/// The number of messages that wait for one connection at most. A connection
/// whose queue is full is falling behind: the sender does not wait for it.
pub const WATCHER_QUEUE_CAPACITY: usize = 512;

/// A unique id for one running game.
pub type GameId = u64;

/// The id that the first game gets.
pub const FIRST_GAME_ID: GameId = 1;

/// The id that is handed out after `id`. The counter starts over when it
/// overflows.
pub open spec fn game_id_after(id: GameId) -> GameId {
    if id == u64::MAX {
        0
    } else {
        (id + 1) as u64
    }
}

/// Hands out the id that `next` holds and moves `next` on.
pub fn next_game_id(next: &mut GameId) -> (id: GameId)
    ensures
        id == *old(next),
        *final(next) == game_id_after(*old(next)),
        *final(next) == (*old(next) + 1) % 0x1_0000_0000_0000_0000,
{
    let id: GameId = *next;
    *next = if id == u64::MAX {
        0
    } else {
        id + 1
    };
    id
}

/// One registered watcher (player or spectator) of a [`GameSession`].
pub struct Watcher {
    pub connection_id: u64,
    pub username: Option<String>,
    pub is_player: bool,
    pub is_admin: bool,
    pub chat_hidden: bool,
    /// The writing end of this watcher's queue.
    pub mailbox: Mailbox,
}

impl View for Watcher {
    type V = WatcherView;

    open spec fn view(&self) -> WatcherView {
        WatcherView {
            connection_id: self.connection_id,
            username: self.username,
            is_player: self.is_player,
            is_admin: self.is_admin,
            chat_hidden: self.chat_hidden,
            offers: self.mailbox.offers(),
            queue_limit: self.mailbox.limit(),
            channel: self.mailbox.channel(),
        }
    }
}

impl Watcher {
    /// Makes a watcher and the reading end of its queue.
    pub fn new(
        connection_id: u64,
        username: Option<String>,
        is_player: bool,
        is_admin: bool,
    ) -> (made: (Watcher, mpsc::Receiver<OutgoingMessage>))
        ensures
            made.0@ == (WatcherView {
                connection_id,
                username,
                is_player,
                is_admin,
                chat_hidden: false,
                offers: Seq::empty(),
                queue_limit: WATCHER_QUEUE_CAPACITY as nat,
                channel: receiver_channel(made.1),
            }),
            made.0.connection_id == connection_id,
            made.0.username == username,
            made.0.is_player == is_player,
            made.0.is_admin == is_admin,
            !made.0.chat_hidden,
            made.0.mailbox.offers() == Seq::<Offer>::empty(),
            made.0.mailbox.limit() == 512,
            made.0.mailbox.channel() == receiver_channel(made.1),
    {
        let (mailbox, receiver) = Mailbox::open(WATCHER_QUEUE_CAPACITY);
        (
            Watcher { connection_id, username, is_player, is_admin, chat_hidden: false, mailbox },
            receiver,
        )
    }

    /// Enqueues a message for this watcher, without waiting for room. Returns
    /// `false` if the queue did not take it: the connection is not keeping up
    /// or gone, and the caller should disconnect it.
    pub fn try_send(&mut self, message: OutgoingMessage) -> (sent: bool)
        ensures
            old(self)@.was_offered(message, final(self)@),
            sent <==> final(self)@.last_offer().outcome is Queued,
            final(self).connection_id == old(self).connection_id,
            final(self).username == old(self).username,
            final(self).is_player == old(self).is_player,
            final(self).is_admin == old(self).is_admin,
            final(self).chat_hidden == old(self).chat_hidden,
            final(self).mailbox.limit() == old(self).mailbox.limit(),
            final(self).mailbox.channel() == old(self).mailbox.channel(),
            final(self).mailbox.offers().drop_last() == old(self).mailbox.offers(),
            final(self).mailbox.offers().len() == old(self).mailbox.offers().len() + 1,
            final(self).mailbox.offers().last().message == message,
            sent <==> final(self).mailbox.offers().last().outcome is Queued,
    {
        match self.mailbox.offer(message) {
            Delivery::Queued => true,
            Delivery::Full => false,
            Delivery::Closed => false,
        }
    }
}

/// "Where" info tracked per game.
#[derive(Debug)]
pub struct WhereInfo {
    pub xl: Option<String>,
    pub char: Option<String>,
    pub place: Option<String>,
    pub turn: Option<String>,
    pub dur: Option<String>,
    pub god: Option<String>,
    pub title: Option<String>,
}

impl Clone for WhereInfo {
    fn clone(&self) -> (copy: Self)
        ensures
            copy == *self,
    {
        WhereInfo {
            xl: self.xl.clone(),
            char: self.char.clone(),
            place: self.place.clone(),
            turn: self.turn.clone(),
            dur: self.dur.clone(),
            god: self.god.clone(),
            title: self.title.clone(),
        }
    }
}

impl Default for WhereInfo {
    fn default() -> (info: Self)
        ensures
            info == (WhereInfo {
                xl: None,
                char: None,
                place: None,
                turn: None,
                dur: None,
                god: None,
                title: None,
            }),
    {
        WhereInfo {
            xl: None,
            char: None,
            place: None,
            turn: None,
            dur: None,
            god: None,
            title: None,
        }
    }
}

/// How a game ended, as far as the game process told.
#[derive(Debug)]
pub struct ExitInfo {
    pub reason: Option<String>,
    pub message: Option<String>,
    pub dump_url: Option<String>,
}

impl Clone for ExitInfo {
    fn clone(&self) -> (copy: Self)
        ensures
            copy == *self,
    {
        ExitInfo {
            reason: self.reason.clone(),
            message: self.message.clone(),
            dump_url: self.dump_url.clone(),
        }
    }
}

impl Default for ExitInfo {
    fn default() -> (info: Self)
        ensures
            info == (ExitInfo { reason: None, message: None, dump_url: None }),
    {
        ExitInfo { reason: None, message: None, dump_url: None }
    }
}

/// A timed ban from spectating one game.
#[derive(Debug, Clone, Copy, PartialEq, Eq, Structural)]
pub struct Kick {
    /// When it began, in nanoseconds since the session began.
    pub kicked_at: u128,
    /// How long it lasts.
    pub interval_secs: u64,
}

/// The part of a session that changes while the game runs.
pub struct SessionState {
    watchers: HashMap<u64, Watcher>,
    blocked: StringHashSet,
    kicked: StringHashMap<Kick>,
    where_info: WhereInfo,
    last_milestone: Option<String>,
    exit_info: ExitInfo,
}

impl SessionState {
    /// The watchers, by connection.
    pub closed spec fn watchers(self) -> Map<u64, WatcherView> {
        self.watchers@.map_values(|watcher: Watcher| watcher@)
    }

    /// The names that may not spectate, `[anon]` and `[all]` among them.
    pub closed spec fn blocked(self) -> Set<Seq<char>> {
        self.blocked@
    }

    /// The latest kick of each name.
    pub closed spec fn kicked(self) -> Map<Seq<char>, Kick> {
        self.kicked@
    }

    pub closed spec fn where_info(self) -> WhereInfo {
        self.where_info
    }

    pub closed spec fn last_milestone(self) -> Option<String> {
        self.last_milestone
    }

    pub closed spec fn exit_info(self) -> ExitInfo {
        self.exit_info
    }
}

/// A state shows each entry of its collections, as it is, and its other parts.
proof fn state_shows_its_parts(state: SessionState, id: u64)
    ensures
        state.watchers().contains_key(id) <==> state.watchers@.contains_key(id),
        state.watchers@.contains_key(id) ==> state.watchers()[id] == state.watchers@[id]@,
        state.blocked() == state.blocked@,
        state.kicked() == state.kicked@,
        state.where_info() == state.where_info,
        state.last_milestone() == state.last_milestone,
        state.exit_info() == state.exit_info,
{
}

/// One running game.
pub struct GameSession {
    pub id: GameId,
    pub username: String,
    pub game_config_id: String,
    pub started_at: Instant,
    pub state: SessionState,
}

impl View for GameSession {
    type V = SessionView;

    open spec fn view(&self) -> SessionView {
        SessionView {
            id: self.id,
            username: self.username@,
            game_config_id: self.game_config_id@,
            started_at: self.started_at,
            watchers: self.state.watchers(),
            blocked: self.state.blocked(),
            kicked: self.state.kicked(),
            where_info: self.state.where_info(),
            last_milestone: self.state.last_milestone(),
            exit_info: self.state.exit_info(),
        }
    }
}

impl Kick {
    /// Whether the kick still keeps its target out at `now`.
    pub fn is_active_at(&self, now: u128) -> (active: bool)
        ensures
            active == self.active_at(now as int),
            active <==> self.interval_secs > 0 && now < self.kicked_at + self.interval_secs
                * 1_000_000_000,
    {
        let elapsed: u128 = if now >= self.kicked_at {
            now - self.kicked_at
        } else {
            0
        };
        elapsed < self.interval_secs as u128 * NANOS_PER_SEC
    }
}

impl GameSession {
    /// Starts a session under the id that `next_id` holds, at the instant that the
    /// clock gives.
    pub fn new(next_id: &mut GameId, username: String, game_config_id: String) -> (session: Self)
        ensures
            *final(next_id) == game_id_after(*old(next_id)),
            *final(next_id) == (*old(next_id) + 1) % 0x1_0000_0000_0000_0000,
            session.id == *old(next_id),
            session.username == username,
            session.game_config_id == game_config_id,
            call_ensures(Instant::now, (), session.started_at),
            session@.well_formed(),
            session@ == (SessionView {
                id: *old(next_id),
                username: username@,
                game_config_id: game_config_id@,
                started_at: session@.started_at,
                watchers: Map::empty(),
                blocked: Set::empty(),
                kicked: Map::empty(),
                where_info: WhereInfo {
                    xl: None,
                    char: None,
                    place: None,
                    turn: None,
                    dur: None,
                    god: None,
                    title: None,
                },
                last_milestone: None,
                exit_info: ExitInfo { reason: None, message: None, dump_url: None },
            }),
    {
        let state = SessionState {
            watchers: HashMap::new(),
            blocked: StringHashSet::new(),
            kicked: StringHashMap::new(),
            where_info: WhereInfo::default(),
            last_milestone: None,
            exit_info: ExitInfo::default(),
        };
        assert(state.watchers() == Map::<u64, WatcherView>::empty());
        GameSession {
            id: next_game_id(next_id),
            username,
            game_config_id,
            started_at: Instant::now(),
            state,
        }
    }

    /// Nanoseconds since this session began, by the clock's answer.
    pub fn idle_time(&self) -> (nanos: u128)
        ensures
            clock_answers(self.started_at, nanos),
            nanos / NANOS_PER_SEC <= u64::MAX,
    {
        elapsed_nanos(&self.started_at)
    }

    /// Registers a watcher under its connection, in place of any other there.
    pub fn add_watcher(&mut self, watcher: Watcher)
        ensures
            old(self)@.well_formed() && watcher@.queue_limit == WATCHER_QUEUE_CAPACITY
                ==> final(self)@.well_formed(),
            final(self)@ == old(self)@.with_watchers(
                old(self)@.watchers.insert(watcher.connection_id, watcher@),
            ),
            final(self)@.watchers == old(self)@.watchers.insert(watcher.connection_id, watcher@),
            final(self)@.watchers.contains_key(watcher.connection_id),
            final(self)@.watchers[watcher.connection_id] == watcher@,
            forall|id: u64|
                id != watcher.connection_id ==> {
                    &&& #[trigger] final(self)@.watchers.contains_key(id)
                        == old(self)@.watchers.contains_key(id)
                    &&& old(self)@.watchers.contains_key(id) ==> final(self)@.watchers[id]
                        == old(self)@.watchers[id]
                },
            final(self)@ == (SessionView { watchers: final(self)@.watchers, ..old(self)@ }),
    {
        let ghost (id, added) = (watcher.connection_id, watcher@);
        self.state.watchers.insert(watcher.connection_id, watcher);
        assert(self@.watchers == old(self)@.watchers.insert(id, added));
    }

    /// Drops the watcher of a connection, if there is one.
    pub fn remove_watcher(&mut self, connection_id: u64)
        ensures
            old(self)@.well_formed() ==> final(self)@.well_formed(),
            final(self)@ == old(self)@.with_watchers(old(self)@.watchers.remove(connection_id)),
            final(self)@.watchers == old(self)@.watchers.remove(connection_id),
            !final(self)@.watchers.contains_key(connection_id),
            forall|id: u64|
                id != connection_id ==> {
                    &&& #[trigger] final(self)@.watchers.contains_key(id)
                        == old(self)@.watchers.contains_key(id)
                    &&& old(self)@.watchers.contains_key(id) ==> final(self)@.watchers[id]
                        == old(self)@.watchers[id]
                },
            final(self)@ == (SessionView { watchers: final(self)@.watchers, ..old(self)@ }),
    {
        self.state.watchers.remove(&connection_id);
        assert(self@.watchers == old(self)@.watchers.remove(connection_id));
    }

    /// The connections that are registered, each once.
    fn connection_ids(&self) -> (ids: Vec<u64>)
        ensures
            ids@.no_duplicates(),
            ids@.to_set() == self.state.watchers@.dom(),
    {
        let mut ids: Vec<u64> = Vec::new();
        let keys = self.state.watchers.keys();
        let ghost all = vstd::std_specs::iter::IteratorSpec::remaining(&keys).unref();
        for id in it: keys
            invariant
                it.seq().unref() == all,
                ids@ == all.take(it.index() as int),
        {
            ids.push(*id);
        }
        assert(all.take(all.len() as int) == all);
        ids
    }

    /// Offers a message to every watcher, and waits for none. The connections
    /// that did not take it are returned, for the caller to disconnect.
    pub fn broadcast(&mut self, message: OutgoingMessage) -> (overflowed: Vec<u64>)
        ensures
            old(self)@.well_formed() ==> final(self)@.well_formed(),
            overflowed@.no_duplicates(),
            old(self)@.broadcasts(message, final(self)@, overflowed@.to_set()),
            final(self)@ == (SessionView { watchers: final(self)@.watchers, ..old(self)@ }),
            final(self)@.watchers.dom() == old(self)@.watchers.dom(),
            forall|id: u64| #[trigger]
                old(self)@.watchers.contains_key(id) ==> {
                    let offers = final(self)@.watchers[id].offers;
                    &&& offers.len() == old(self)@.watchers[id].offers.len() + 1
                    &&& offers.drop_last() == old(self)@.watchers[id].offers
                    &&& offers.last().message == message
                    &&& final(self)@.watchers[id] == (WatcherView {
                        offers,
                        ..old(self)@.watchers[id]
                    })
                    &&& overflowed@.contains(id) <==> !(offers.last().outcome is Queued)
                },
            forall|id: u64| #[trigger]
                overflowed@.contains(id) ==> old(self)@.watchers.contains_key(id),
    {
        let ids = self.connection_ids();
        let mut overflowed: Vec<u64> = Vec::new();
        let ghost before = old(self).state.watchers@;
        let mut i: usize = 0;
        while i < ids.len()
            invariant
                i <= ids.len(),
                ids@.no_duplicates(),
                ids@.to_set() == before.dom(),
                old(self).state.watchers@ == before,
                self@ == old(self)@.with_watchers(self@.watchers),
                self.state.watchers@.dom() == before.dom(),
                overflowed@.no_duplicates(),
                forall|id: u64| #[trigger]
                    overflowed@.contains(id) ==> ids@.take(i as int).contains(id),
                forall|j: int|
                    i <= j < ids.len() ==> self.state.watchers@[#[trigger] ids[j]] == before[ids[j]],
                forall|j: int|
                    0 <= j < i ==> {
                        let id = #[trigger] ids[j];
                        let watcher = self.state.watchers@[id]@;
                        &&& before[id]@.was_offered(message, watcher)
                        &&& overflowed@.contains(id) <==> !(watcher.last_offer().outcome is Queued)
                    },
            decreases ids.len() - i,
        {
            let id: u64 = ids[i];
            let ghost earlier = overflowed@;
            assert(ids@.to_set().contains(id));
            if let Some(mut watcher) = self.state.watchers.remove(&id) {
                if !watcher.try_send(message.clone()) {
                    overflowed.push(id);
                }
                self.state.watchers.insert(id, watcher);
            }
            i = i + 1;
            proof {
                let done = ids@.take(i - 1);
                assert(ids@.take(i as int) == done.push(id));
                lemma_push_contains(done, id);
                lemma_push_contains(earlier, id);
                assert(!done.contains(id));
                assert(!earlier.contains(id));
                assert(overflowed@ == earlier || overflowed@ == earlier.push(id));
            }
        }
        overflowed
    }

    /// How many spectators there are: watchers that are not the player and have
    /// not hidden from chat.
    pub fn watcher_count(&self) -> (count: usize)
        ensures
            count == self@.spectators().len(),
            count == self@.watchers.dom().filter(
                |id: u64| !self@.watchers[id].is_player && !self@.watchers[id].chat_hidden,
            ).len(),
    {
        let ids = self.connection_ids();
        let mut count: usize = 0;
        let mut i: usize = 0;
        let ghost counts = |id: u64| self@.watchers[id].is_spectator();
        while i < ids.len()
            invariant
                i <= ids.len(),
                ids@.to_set() == self.state.watchers@.dom(),
                counts == (|id: u64| self@.watchers[id].is_spectator()),
                count == ids@.take(i as int).filter(counts).len(),
                count <= i,
            decreases ids.len() - i,
        {
            let id: u64 = ids[i];
            assert(ids@.to_set().contains(id));
            proof {
                assert(ids@.take(i + 1).drop_last() == ids@.take(i as int));
                reveal(Seq::filter);
            }
            if let Some(watcher) = self.state.watchers.get(&id) {
                if !watcher.is_player && !watcher.chat_hidden {
                    count = count + 1;
                }
            }
            i = i + 1;
        }
        proof {
            assert(ids@.take(i as int) == ids@);
            lemma_filter_counts(ids@, counts);
            assert(ids@.to_set() == self@.watchers.dom());
            assert(self@.watchers.dom().filter(counts) == self@.spectators());
            assert(self@.watchers.dom().filter(
                |id: u64| !self@.watchers[id].is_player && !self@.watchers[id].chat_hidden,
            ) =~= self@.spectators());
        }
        count
    }

    /// Whether `username` may not spectate this game at the time `now`, in
    /// nanoseconds since the session began. `[all]` blocks everyone but the
    /// player, `[anon]` blocks anonymous visitors, and a kick blocks its target
    /// until it runs out.
    pub fn is_blocked_at(&mut self, username: Option<&str>, now: u128) -> (blocked: bool)
        ensures
            old(self)@.answers(name_of(username), now as int, blocked, final(self)@),
            username is None ==> (blocked <==> old(self)@.blocked.contains("[all]"@)
                || old(self)@.blocked.contains("[anon]"@)),
            username matches Some(name) ==> (blocked <==> if old(self)@.blocked.contains("[all]"@) {
                name@ != old(self).username@
            } else {
                ||| old(self)@.blocked.contains(name@)
                ||| {
                    let kick = old(self)@.kicked[name@];
                    &&& old(self)@.kicked.contains_key(name@)
                    &&& kick.interval_secs > 0
                    &&& now < kick.kicked_at + kick.interval_secs * 1_000_000_000
                }
            }),
            final(self)@ == (SessionView { kicked: final(self)@.kicked, ..old(self)@ }),
            username is None ==> final(self)@.kicked == old(self)@.kicked,
            username matches Some(name) ==> {
                let kick = old(self)@.kicked[name@];
                final(self)@.kicked == if !old(self)@.blocked.contains("[all]"@) && (
                kick.interval_secs == 0 || now >= kick.kicked_at + kick.interval_secs
                    * 1_000_000_000) {
                    old(self)@.kicked.remove(name@)
                } else {
                    old(self)@.kicked
                }
            },
    {
        if self.state.blocked.contains("[all]") {
            return match username {
                Some(name) => self.username != name.to_owned(),
                None => true,
            };
        }
        let name = match username {
            Some(name) => name,
            None => return self.state.blocked.contains("[anon]"),
        };
        let kick = match self.state.kicked.get(name) {
            Some(kick) => Some(*kick),
            None => None,
        };
        if let Some(kick) = kick {
            if kick.is_active_at(now) {
                return true;
            }
            self.state.kicked.remove(name);
        }
        self.state.blocked.contains(name)
    }

    /// Whether `username` may not spectate this game now.
    pub fn is_blocked(&mut self, username: Option<&str>) -> (blocked: bool)
        ensures
            exists|now: u128|
                clock_answers(old(self).started_at, now) && #[trigger] old(self)@.answers(
                    name_of(username),
                    now as int,
                    blocked,
                    final(self)@,
                ),
            username is None ==> (blocked <==> old(self)@.blocked.contains("[all]"@)
                || old(self)@.blocked.contains("[anon]"@)),
            username matches Some(name) ==> {
                &&& old(self)@.blocked.contains("[all]"@) ==> (blocked <==> name@
                    != old(self).username@)
                &&& !old(self)@.blocked.contains("[all]"@) && old(self)@.blocked.contains(name@)
                    ==> blocked
                &&& !old(self)@.blocked.contains("[all]"@) && !old(self)@.kicked.contains_key(name@)
                    ==> (blocked <==> old(self)@.blocked.contains(name@))
            },
            final(self)@ == (SessionView { kicked: final(self)@.kicked, ..old(self)@ }),
            username is None ==> final(self)@.kicked == old(self)@.kicked,
            username matches Some(name) ==> exists|now: u128| #[trigger]
                clock_answers(old(self).started_at, now) && {
                    let kick = old(self)@.kicked[name@];
                    let holds = old(self)@.kicked.contains_key(name@) && kick.interval_secs > 0
                        && now < kick.kicked_at + kick.interval_secs * 1_000_000_000;
                    if old(self)@.blocked.contains("[all]"@) {
                        final(self)@.kicked == old(self)@.kicked
                    } else if holds {
                        &&& final(self)@.kicked == old(self)@.kicked
                        &&& blocked
                    } else {
                        &&& final(self)@.kicked == old(self)@.kicked.remove(name@)
                        &&& blocked <==> old(self)@.blocked.contains(name@)
                    }
                },
    {
        let now: u128 = elapsed_nanos(&self.started_at);
        self.is_blocked_at(username, now)
    }

    /// Blocks a name, or `[anon]` or `[all]`, from spectating.
    pub fn block(&mut self, target: String)
        ensures
            final(self)@ == old(self)@.with_blocked(old(self)@.blocked.insert(target@)),
            final(self)@ == (SessionView {
                blocked: old(self)@.blocked.insert(target@),
                ..old(self)@
            }),
    {
        self.state.blocked.insert(target);
    }

    /// Takes a block back.
    pub fn unblock(&mut self, target: &str)
        ensures
            final(self)@ == old(self)@.with_blocked(old(self)@.blocked.remove(target@)),
            final(self)@ == (SessionView {
                blocked: old(self)@.blocked.remove(target@),
                ..old(self)@
            }),
    {
        self.state.blocked.remove(target);
    }

    /// Keeps a name out for a number of minutes from the time `now`, in
    /// nanoseconds since the session began.
    pub fn kick_at(&mut self, target: String, minutes: u64, now: u128)
        requires
            minutes * 60 <= u64::MAX,
        ensures
            final(self)@ == old(self)@.kicking(target@, minutes, now),
            final(self)@ == (SessionView {
                kicked: old(self)@.kicked.insert(
                    target@,
                    (Kick { kicked_at: now, interval_secs: (minutes * 60) as u64 }),
                ),
                ..old(self)@
            }),
    {
        self.state.kicked.insert(target, Kick { kicked_at: now, interval_secs: minutes * 60 });
    }

    /// Keeps a name out for a number of minutes from now.
    pub fn kick(&mut self, target: String, minutes: u64)
        requires
            minutes * 60 <= u64::MAX,
        ensures
            exists|now: u128|
                clock_answers(old(self).started_at, now) && final(self)@
                    == #[trigger] old(self)@.kicking(target@, minutes, now),
            final(self)@.kicked.contains_key(target@),
            final(self)@.kicked[target@].interval_secs == minutes * 60,
            clock_answers(old(self).started_at, final(self)@.kicked[target@].kicked_at),
            final(self)@ == (SessionView {
                kicked: old(self)@.kicked.insert(target@, final(self)@.kicked[target@]),
                ..old(self)@
            }),
    {
        let now: u128 = elapsed_nanos(&self.started_at);
        self.kick_at(target, minutes, now);
    }

    pub fn set_where_info(&mut self, info: WhereInfo)
        ensures
            final(self)@ == (SessionView { where_info: info, ..old(self)@ }),
    {
        self.state.where_info = info;
    }

    pub fn set_last_milestone(&mut self, milestone: Option<String>)
        ensures
            final(self)@ == (SessionView { last_milestone: milestone, ..old(self)@ }),
    {
        self.state.last_milestone = milestone;
    }

    pub fn set_exit_info(&mut self, info: ExitInfo)
        ensures
            final(self)@ == (SessionView { exit_info: info, ..old(self)@ }),
    {
        self.state.exit_info = info;
    }

    pub fn exit_info(&self) -> (info: ExitInfo)
        ensures
            info == self@.exit_info,
    {
        self.state.exit_info.clone()
    }

    /// This session's line in the lobby, given how many seconds it was idle.
    pub fn lobby_entry_idle_for(&self, idle_secs: u64) -> (entry: LobbyEntry)
        ensures
            self@.shown_as(entry),
            entry.idle_time == idle_secs,
            entry.id == self.id,
            entry.username@ == self.username@,
            entry.game_id@ == self.game_config_id@,
            entry.spectator_count == self@.watchers.dom().filter(
                |id: u64| !self@.watchers[id].is_player && !self@.watchers[id].chat_hidden,
            ).len() % 0x1_0000_0000,
            entry.xl == self@.where_info.xl,
            entry.char == self@.where_info.char,
            entry.place == self@.where_info.place,
            entry.turn == self@.where_info.turn,
            entry.dur == self@.where_info.dur,
            entry.god == self@.where_info.god,
            entry.title == self@.where_info.title,
            entry.milestone == self@.last_milestone,
    {
        let where_info = self.state.where_info.clone();
        let count: u64 = self.watcher_count() as u64;
        assert(count as u32 == count % 0x1_0000_0000) by (bit_vector);
        LobbyEntry {
            id: self.id,
            username: self.username.clone(),
            spectator_count: count as u32,
            idle_time: idle_secs,
            game_id: self.game_config_id.clone(),
            xl: where_info.xl,
            char: where_info.char,
            place: where_info.place,
            turn: where_info.turn,
            dur: where_info.dur,
            god: where_info.god,
            title: where_info.title,
            milestone: self.state.last_milestone.clone(),
        }
    }

    /// This session's line in the lobby now. Its idle time is the whole seconds
    /// since the session began.
    pub fn lobby_entry(&self) -> (entry: LobbyEntry)
        ensures
            self@.shown_as(entry),
            exists|nanos: u128| #[trigger]
                clock_answers(self.started_at, nanos) && entry.idle_time == nanos / NANOS_PER_SEC,
            exists|nanos: u128| #[trigger]
                clock_answers(self.started_at, nanos) && entry.idle_time == nanos / 1_000_000_000,
            entry.id == self.id,
            entry.username@ == self.username@,
            entry.game_id@ == self.game_config_id@,
            entry.spectator_count == self@.watchers.dom().filter(
                |id: u64| !self@.watchers[id].is_player && !self@.watchers[id].chat_hidden,
            ).len() % 0x1_0000_0000,
            entry.xl == self@.where_info.xl,
            entry.char == self@.where_info.char,
            entry.place == self@.where_info.place,
            entry.turn == self@.where_info.turn,
            entry.dur == self@.where_info.dur,
            entry.god == self@.where_info.god,
            entry.title == self@.where_info.title,
            entry.milestone == self@.last_milestone,
    {
        let idle_secs: u128 = self.idle_time() / NANOS_PER_SEC;
        self.lobby_entry_idle_for(idle_secs as u64)
    }
}

} // verus!
