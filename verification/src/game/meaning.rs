//! What the words of the contracts say about the parts of a session: its
//! watchers with their flags and offers, its blocks and its kicks.
use vstd::prelude::*;

use crate::game::clock::clock_answers;
use crate::game::mailbox::{can_follow, OutgoingMessage};
use crate::game::model::{name_of, SessionView, WatcherView};
use crate::game::session::{
    game_id_after, GameId, GameSession, Kick, Watcher, FIRST_GAME_ID, WATCHER_QUEUE_CAPACITY,
};
use crate::protocol::LobbyEntry;

verus! {

/// Queues hold 512 messages and ids start at 1.
pub proof fn constants_have_their_values()
    ensures
        WATCHER_QUEUE_CAPACITY == 512,
        FIRST_GAME_ID == 1,
{
}

/// Ids count upwards by one, modulo 2^64.
pub proof fn ids_count_upwards(id: GameId)
    ensures
        id < u64::MAX ==> game_id_after(id) == id + 1,
        game_id_after(u64::MAX) == 0,
{
}

/// A user is known by the characters of their name, an anonymous visitor by none.
pub proof fn users_are_known_by_their_names(name: &str)
    ensures
        name_of(Some(name)) == Some(name@),
        name_of(None) is None,
{
}

/// The view of a watcher has its flags as they are, and the history of its mailbox.
pub proof fn watcher_is_seen_as_it_is(watcher: Watcher)
    ensures
        watcher@.connection_id == watcher.connection_id,
        watcher@.username == watcher.username,
        watcher@.is_player == watcher.is_player,
        watcher@.is_admin == watcher.is_admin,
        watcher@.chat_hidden == watcher.chat_hidden,
        watcher@.offers == watcher.mailbox.offers(),
        watcher@.queue_limit == watcher.mailbox.limit(),
        watcher@.channel == watcher.mailbox.channel(),
{
}

/// The view of a session has each of its parts.
pub proof fn session_is_seen_as_it_is(session: GameSession)
    ensures
        session@.id == session.id,
        session@.username == session.username@,
        session@.game_config_id == session.game_config_id@,
        session@.started_at == session.started_at,
        session@.watchers == session.state.watchers(),
        session@.blocked == session.state.blocked(),
        session@.kicked == session.state.kicked(),
        session@.where_info == session.state.where_info(),
        session@.last_milestone == session.state.last_milestone(),
        session@.exit_info == session.state.exit_info(),
{
}

/// A session with other watchers has just these watchers, whoever they are, and
/// is the same in everything else.
pub proof fn other_watchers_change_nothing_else(
    session: SessionView,
    watchers: Map<u64, WatcherView>,
)
    ensures
        session.with_watchers(watchers).watchers == watchers,
        session.with_watchers(watchers).id == session.id,
        session.with_watchers(watchers).username == session.username,
        session.with_watchers(watchers).game_config_id == session.game_config_id,
        session.with_watchers(watchers).started_at == session.started_at,
        session.with_watchers(watchers).blocked == session.blocked,
        session.with_watchers(watchers).kicked == session.kicked,
        session.with_watchers(watchers).where_info == session.where_info,
        session.with_watchers(watchers).last_milestone == session.last_milestone,
        session.with_watchers(watchers).exit_info == session.exit_info,
{
}

/// A session with other blocks has just these blocks, and is the same in
/// everything else.
pub proof fn other_blocks_change_nothing_else(session: SessionView, blocked: Set<Seq<char>>)
    ensures
        session.with_blocked(blocked).blocked == blocked,
        session.with_blocked(blocked).id == session.id,
        session.with_blocked(blocked).username == session.username,
        session.with_blocked(blocked).game_config_id == session.game_config_id,
        session.with_blocked(blocked).started_at == session.started_at,
        session.with_blocked(blocked).watchers == session.watchers,
        session.with_blocked(blocked).kicked == session.kicked,
        session.with_blocked(blocked).where_info == session.where_info,
        session.with_blocked(blocked).last_milestone == session.last_milestone,
        session.with_blocked(blocked).exit_info == session.exit_info,
{
}

/// A session with other kicks has just these kicks, and is the same in everything
/// else.
pub proof fn other_kicks_change_nothing_else(session: SessionView, kicked: Map<Seq<char>, Kick>)
    ensures
        session.with_kicked(kicked).kicked == kicked,
        session.with_kicked(kicked).id == session.id,
        session.with_kicked(kicked).username == session.username,
        session.with_kicked(kicked).game_config_id == session.game_config_id,
        session.with_kicked(kicked).started_at == session.started_at,
        session.with_kicked(kicked).watchers == session.watchers,
        session.with_kicked(kicked).blocked == session.blocked,
        session.with_kicked(kicked).where_info == session.where_info,
        session.with_kicked(kicked).last_milestone == session.last_milestone,
        session.with_kicked(kicked).exit_info == session.exit_info,
{
}

/// Whoever registers is then found under their connection, whatever their flags;
/// every other connection stays as it was.
pub proof fn who_registers_is_found(session: SessionView, watcher: WatcherView, other: u64)
    requires
        other != watcher.connection_id,
    ensures
        ({
            let after = session.with_watchers(
                session.watchers.insert(watcher.connection_id, watcher),
            );
            &&& after.watchers.contains_key(watcher.connection_id)
            &&& after.watchers[watcher.connection_id] == watcher
            &&& after.watchers.contains_key(other) <==> session.watchers.contains_key(other)
            &&& session.watchers.contains_key(other) ==> after.watchers[other]
                == session.watchers[other]
        }),
{
}

/// Whoever leaves is no longer found; every other connection stays as it was.
pub proof fn who_leaves_is_not_found(session: SessionView, left: u64, other: u64)
    requires
        other != left,
    ensures
        ({
            let after = session.with_watchers(session.watchers.remove(left));
            &&& !after.watchers.contains_key(left)
            &&& after.watchers.contains_key(other) <==> session.watchers.contains_key(other)
            &&& session.watchers.contains_key(other) ==> after.watchers[other]
                == session.watchers[other]
        }),
{
}

/// A broadcast offers its message to whoever has just registered, whatever their
/// flags, behind all that was offered to them before.
pub proof fn who_registers_is_offered_the_next_broadcast(
    session: SessionView,
    watcher: WatcherView,
    message: OutgoingMessage,
    after: SessionView,
    refused: Set<u64>,
)
    requires
        session.with_watchers(
            session.watchers.insert(watcher.connection_id, watcher),
        ).broadcasts(message, after, refused),
    ensures
        after.watchers.contains_key(watcher.connection_id),
        ({
            let offers = after.watchers[watcher.connection_id].offers;
            &&& offers.len() == watcher.offers.len() + 1
            &&& offers.drop_last() == watcher.offers
            &&& offers.last().message == message
            &&& refused.contains(watcher.connection_id) <==> !(offers.last().outcome is Queued)
        }),
{
    let joined = session.with_watchers(session.watchers.insert(watcher.connection_id, watcher));
    assert(joined.watchers.contains_key(watcher.connection_id));
    assert(after.watchers[watcher.connection_id].offers.drop_last() =~= watcher.offers);
}

/// A broadcast offers nothing to a connection that has left, and does not report
/// it.
pub proof fn who_leaves_is_offered_no_broadcast(
    session: SessionView,
    left: u64,
    message: OutgoingMessage,
    after: SessionView,
    refused: Set<u64>,
)
    requires
        session.with_watchers(session.watchers.remove(left)).broadcasts(message, after, refused),
    ensures
        !after.watchers.contains_key(left),
        !refused.contains(left),
{
    assert(!after.watchers.dom().contains(left));
}

/// An offer adds one entry with the message to a watcher's history and changes
/// nothing else about the watcher.
pub proof fn offer_only_adds_to_the_history(
    watcher: WatcherView,
    message: OutgoingMessage,
    after: WatcherView,
)
    requires
        watcher.was_offered(message, after),
    ensures
        after.offers.len() == watcher.offers.len() + 1,
        after.offers.drop_last() == watcher.offers,
        after.offers.last().message == message,
        after.last_offer() == after.offers.last(),
        can_follow(watcher.offers, watcher.queue_limit, after.offers.last()),
        after.connection_id == watcher.connection_id,
        after.username == watcher.username,
        after.is_player == watcher.is_player,
        after.is_admin == watcher.is_admin,
        after.chat_hidden == watcher.chat_hidden,
        after.queue_limit == watcher.queue_limit,
        after.channel == watcher.channel,
{
    assert(after.offers.drop_last() =~= watcher.offers);
}

/// A broadcast adds one entry with the message to the history of every watcher,
/// whatever their flags, reports exactly those who did not take it, and changes
/// nothing else.
pub proof fn broadcast_only_adds_to_every_history(
    session: SessionView,
    message: OutgoingMessage,
    after: SessionView,
    refused: Set<u64>,
    id: u64,
)
    requires
        session.broadcasts(message, after, refused),
    ensures
        after.watchers.contains_key(id) <==> session.watchers.contains_key(id),
        session.watchers.contains_key(id) ==> {
            let (then, now) = (session.watchers[id], after.watchers[id]);
            &&& now == (WatcherView { offers: then.offers.push(now.offers.last()), ..then })
            &&& now.offers.last().message == message
            &&& can_follow(then.offers, then.queue_limit, now.offers.last())
            &&& refused.contains(id) <==> now.offers.last().outcome is Full
                || now.offers.last().outcome is Closed
        },
        refused.contains(id) ==> session.watchers.contains_key(id),
        after.id == session.id,
        after.username == session.username,
        after.game_config_id == session.game_config_id,
        after.started_at == session.started_at,
        after.blocked == session.blocked,
        after.kicked == session.kicked,
        after.where_info == session.where_info,
        after.last_milestone == session.last_milestone,
        after.exit_info == session.exit_info,
{
    assert(after.watchers.dom().contains(id) <==> session.watchers.dom().contains(id));
}

/// Exactly the registered connections that are neither the player's nor hidden
/// from chat are spectators; whether one is an admin's makes no difference.
pub proof fn flags_make_a_spectator(session: SessionView, id: u64)
    ensures
        session.spectators().contains(id) <==> session.watchers.contains_key(id)
            && !session.watchers[id].is_player && !session.watchers[id].chat_hidden,
{
}

/// Whether a watcher is a spectator is told by two flags alone.
pub proof fn two_flags_make_a_spectator(watcher: WatcherView)
    ensures
        watcher.is_spectator() <==> !watcher.is_player && !watcher.chat_hidden,
{
}

/// A well-formed session has finitely many watchers, each under its own
/// connection with a queue for 512 messages; and every such session is
/// well-formed.
pub proof fn what_is_well_formed(session: SessionView)
    ensures
        session.well_formed() <==> session.watchers.dom().finite() && forall|id: u64| #[trigger]
            session.watchers.contains_key(id) ==> session.watchers[id].connection_id == id
                && session.watchers[id].queue_limit == 512,
{
}

/// Two states are of the same game exactly if id, player, configuration and start
/// agree.
pub proof fn what_is_the_same_game(a: SessionView, b: SessionView)
    ensures
        a.same_game(b) <==> a.id == b.id && a.username == b.username && a.game_config_id
            == b.game_config_id && a.started_at == b.started_at,
{
}

/// Two states have the same line in the lobby exactly if they are of the same
/// game, with the same spectators, where info and milestone.
pub proof fn what_is_the_same_line(a: SessionView, b: SessionView)
    ensures
        a.same_line(b) <==> a.id == b.id && a.username == b.username && a.game_config_id
            == b.game_config_id && a.started_at == b.started_at && a.where_info == b.where_info
            && a.last_milestone == b.last_milestone && (forall|id: u64|
            #![trigger a.watchers.contains_key(id)]
            #![trigger b.watchers.contains_key(id)]
            (a.watchers.contains_key(id) && !a.watchers[id].is_player
                && !a.watchers[id].chat_hidden) == (b.watchers.contains_key(id)
                && !b.watchers[id].is_player && !b.watchers[id].chat_hidden)),
{
    if a.same_line(b) {
        assert forall|id: u64|
            #![trigger a.watchers.contains_key(id)]
            #![trigger b.watchers.contains_key(id)]
            (a.watchers.contains_key(id) && !a.watchers[id].is_player
                && !a.watchers[id].chat_hidden) == (b.watchers.contains_key(id)
                && !b.watchers[id].is_player && !b.watchers[id].chat_hidden) by {
            assert(a.spectators().contains(id) == b.spectators().contains(id));
        }
    }
    if forall|id: u64|
        #![trigger a.watchers.contains_key(id)]
        #![trigger b.watchers.contains_key(id)]
        (a.watchers.contains_key(id) && !a.watchers[id].is_player && !a.watchers[id].chat_hidden)
            == (b.watchers.contains_key(id) && !b.watchers[id].is_player
            && !b.watchers[id].chat_hidden) {
        assert forall|id: u64| a.spectators().contains(id) == b.spectators().contains(id) by {
            assert(a.watchers.contains_key(id) == a.watchers.dom().contains(id));
            assert(b.watchers.contains_key(id) == b.watchers.dom().contains(id));
        }
        assert(a.spectators() =~= b.spectators());
    }
}

/// A line in the lobby shows the session's id, player and configuration, and
/// counts every registered connection that is neither the player's nor hidden
/// from chat, each once. The count is exact below 2^32 and wraps there.
pub proof fn lobby_counts_every_spectator(
    session: SessionView,
    counted: Set<u64>,
    entry: LobbyEntry,
)
    requires
        session.shown_as(entry),
        forall|id: u64| #[trigger]
            counted.contains(id) <==> session.watchers.contains_key(id)
                && !session.watchers[id].is_player && !session.watchers[id].chat_hidden,
    ensures
        counted.len() < 0x1_0000_0000 ==> entry.spectator_count == counted.len(),
        entry.spectator_count == counted.len() % 0x1_0000_0000,
        entry.id == session.id,
        entry.username@ == session.username,
        entry.game_id@ == session.game_config_id,
{
    assert(session.spectators() =~= counted);
}

/// A line in the lobby shows where the game was last seen, and its last milestone.
pub proof fn lobby_shows_the_whereabouts(session: SessionView, entry: LobbyEntry)
    requires
        session.shown_as(entry),
    ensures
        entry.xl == session.where_info.xl,
        entry.char == session.where_info.char,
        entry.place == session.where_info.place,
        entry.turn == session.where_info.turn,
        entry.dur == session.where_info.dur,
        entry.god == session.where_info.god,
        entry.title == session.where_info.title,
        entry.milestone == session.last_milestone,
{
}

/// An anonymous visitor is kept out exactly while `[all]` or `[anon]` is blocked:
/// neither watchers nor kicks nor the time make a difference.
pub proof fn anonymous_visitors_meet_two_blocks(session: SessionView, now: int)
    ensures
        session.blocked_at(None, now) <==> session.blocked.contains("[all]"@)
            || session.blocked.contains("[anon]"@),
{
}

/// While `[all]` is blocked, exactly the player is let in.
pub proof fn closed_game_lets_in_its_player(session: SessionView, name: Seq<char>, now: int)
    requires
        session.blocked.contains("[all]"@),
    ensures
        session.all_blocked(),
        session.blocked_at(Some(name), now) <==> name != session.username,
{
}

/// While `[all]` is not blocked, a user is kept out exactly by a block of their
/// name or by a kick that has begun or lies ahead and has time left, to the
/// nanosecond.
pub proof fn users_meet_their_block_and_kick(session: SessionView, name: Seq<char>, now: int)
    requires
        !session.blocked.contains("[all]"@),
    ensures
        !session.all_blocked(),
        session.blocked_at(Some(name), now) <==> session.blocked.contains(name)
            || session.kicked.contains_key(name) && session.kicked[name].interval_secs > 0 && now
            < session.kicked[name].kicked_at + session.kicked[name].interval_secs * 1_000_000_000,
        session.kicked_out_at(name, now) <==> session.kicked.contains_key(name)
            && session.kicked[name].interval_secs > 0 && now < session.kicked[name].kicked_at
            + session.kicked[name].interval_secs * 1_000_000_000,
{
}

/// A kick holds until its seconds have gone by, to the nanosecond, if it has any.
pub proof fn kick_holds_for_its_seconds(kick: Kick, now: int)
    ensures
        kick.active_at(now) <==> kick.interval_secs > 0 && now < kick.kicked_at
            + kick.interval_secs * 1_000_000_000,
        now >= kick.kicked_at ==> kick.elapsed_at(now) == now - kick.kicked_at,
        now < kick.kicked_at ==> kick.elapsed_at(now) == 0,
{
}

/// A kick is noted under its target's name, with its time and sixty seconds for
/// each minute; everyone else's kick and the rest of the session stay.
pub proof fn kick_is_noted_under_its_target(
    session: SessionView,
    name: Seq<char>,
    minutes: u64,
    now: u128,
    other: Seq<char>,
)
    requires
        minutes * 60 <= u64::MAX,
        other != name,
    ensures
        ({
            let after = session.kicking(name, minutes, now);
            &&& after.kicked.contains_key(name)
            &&& after.kicked[name].kicked_at == now
            &&& after.kicked[name].interval_secs == minutes * 60
            &&& after.kicked.contains_key(other) <==> session.kicked.contains_key(other)
            &&& session.kicked.contains_key(other) ==> after.kicked[other] == session.kicked[other]
            &&& after == (SessionView { kicked: after.kicked, ..session })
        }),
{
}

/// An answer is whether the one asked about is kept out. It forgets a kick of a
/// user who is asked about while the game is not closed to all, if that kick has
/// no time left, and changes nothing else.
pub proof fn answers_say_who_is_kept_out(
    session: SessionView,
    who: Option<Seq<char>>,
    now: int,
    blocked: bool,
    after: SessionView,
    name: Seq<char>,
)
    requires
        session.answers(who, now, blocked, after),
    ensures
        blocked == session.blocked_at(who, now),
        after == session.asked_about(who, now),
        after == (SessionView { kicked: after.kicked, ..session }),
        after.kicked.contains_key(name) <==> {
            &&& session.kicked.contains_key(name)
            &&& who != Some(name) || session.blocked.contains("[all]"@) || (
            session.kicked[name].interval_secs > 0 && now < session.kicked[name].kicked_at
                + session.kicked[name].interval_secs * 1_000_000_000)
        },
        after.kicked.contains_key(name) ==> after.kicked[name] == session.kicked[name],
        session.meets_expired_kick(who, now) <==> {
            &&& !session.blocked.contains("[all]"@)
            &&& who is Some
            &&& session.kicked.contains_key(who->0)
            &&& session.kicked[who->0].interval_secs == 0 || now >= session.kicked[who->0].kicked_at
                + session.kicked[who->0].interval_secs * 1_000_000_000
        },
{
}

/// A kick for some minutes that was made when the clock answered `kicked_at`
/// keeps its target out, when the clock answers `asked_at` later, exactly while
/// less than these minutes lie between the two answers.
pub proof fn kick_holds_between_two_answers_of_the_clock(
    session: SessionView,
    name: Seq<char>,
    minutes: u64,
    kicked_at: u128,
    asked_at: u128,
    blocked: bool,
    after: SessionView,
)
    requires
        minutes * 60 <= u64::MAX,
        clock_answers(session.started_at, kicked_at),
        clock_answers(session.started_at, asked_at),
        kicked_at <= asked_at,
        !session.blocked.contains("[all]"@),
        !session.blocked.contains(name),
        session.kicking(name, minutes, kicked_at).answers(
            Some(name),
            asked_at as int,
            blocked,
            after,
        ),
    ensures
        blocked <==> asked_at - kicked_at < minutes * 60 * 1_000_000_000,
        after.kicked.contains_key(name) <==> asked_at - kicked_at < minutes * 60 * 1_000_000_000,
{
}

} // verus!
