//! What calls on sessions and watchers do, and how two calls relate. A session
//! that a call takes by `&mut` is given with its values before and after.
use tokio::sync::mpsc;
use vstd::prelude::*;

use crate::game::clock::{clock_answers, clock_answers_are_readings, elapsed};
use crate::game::mailbox::{receiver_channel, Offer, OutgoingMessage};
use crate::game::model::{name_of, SessionView, WatcherView};
use crate::game::session::{next_game_id, ExitInfo, GameId, GameSession, Kick, Watcher, WhereInfo};
use crate::protocol::LobbyEntry;

verus! {

/// `next_game_id` hands out the counter's value and counts on by one, modulo
/// 2^64: the next call hands out another id.
pub proof fn ids_are_handed_out_in_order(
    first: &mut GameId,
    second: &mut GameId,
    a: GameId,
    b: GameId,
)
    requires
        call_ensures(next_game_id, (first,), a),
        call_ensures(next_game_id, (second,), b),
        *old(second) == *final(first),
    ensures
        a == *old(first),
        b == (a + 1) % 0x1_0000_0000_0000_0000,
        a != b,
{
}

/// Two sessions that are started on one counter have different ids, the next
/// counter value each; and each has the player and the configuration it was
/// started with, no watchers, blocks, kicks, whereabouts, milestone or exit info.
pub proof fn sessions_start_empty_under_their_own_ids(
    first: &mut GameId,
    second: &mut GameId,
    username: String,
    game_config_id: String,
    a: GameSession,
    b: GameSession,
    other_username: String,
    other_game_config_id: String,
)
    requires
        call_ensures(GameSession::new, (first, username, game_config_id), a),
        call_ensures(GameSession::new, (second, other_username, other_game_config_id), b),
        *old(second) == *final(first),
    ensures
        a.id == *old(first),
        b.id == (a.id + 1) % 0x1_0000_0000_0000_0000,
        a.id != b.id,
        a.username == username,
        a.game_config_id == game_config_id,
        call_ensures(std::time::Instant::now, (), a.started_at),
        a@.well_formed(),
        forall|id: u64| !#[trigger] a@.watchers.contains_key(id),
        forall|name: Seq<char>| !#[trigger] a@.blocked.contains(name),
        forall|name: Seq<char>| !#[trigger] a@.kicked.contains_key(name),
        a@.where_info.xl is None,
        a@.where_info.char is None,
        a@.where_info.place is None,
        a@.where_info.turn is None,
        a@.where_info.dur is None,
        a@.where_info.god is None,
        a@.where_info.title is None,
        a@.last_milestone is None,
        a@.exit_info.reason is None,
        a@.exit_info.message is None,
        a@.exit_info.dump_url is None,
{
}

/// `Watcher::new` gives the watcher the connection, name and flags it was asked
/// for, not hidden from chat, with an empty queue for 512 messages, and hands out
/// the reading end of that very queue.
pub proof fn watchers_start_with_an_empty_queue(
    connection_id: u64,
    username: Option<String>,
    is_player: bool,
    is_admin: bool,
    made: (Watcher, mpsc::Receiver<OutgoingMessage>),
)
    requires
        call_ensures(Watcher::new, (connection_id, username, is_player, is_admin), made),
    ensures
        made.0.connection_id == connection_id,
        made.0.username == username,
        made.0.is_player == is_player,
        made.0.is_admin == is_admin,
        !made.0.chat_hidden,
        made.0.mailbox.offers().len() == 0,
        made.0.mailbox.limit() == 512,
        made.0.mailbox.channel() == receiver_channel(made.1),
{
}

/// `try_send` adds one offer with the message to the watcher's history, says
/// whether it was queued, and changes nothing else about the watcher.
pub proof fn sending_adds_one_offer(watcher: &mut Watcher, message: OutgoingMessage, sent: bool)
    requires
        call_ensures(Watcher::try_send, (watcher, message), sent),
    ensures
        final(watcher).mailbox.offers().len() == old(watcher).mailbox.offers().len() + 1,
        final(watcher).mailbox.offers().drop_last() == old(watcher).mailbox.offers(),
        final(watcher).mailbox.offers().last().message == message,
        sent <==> final(watcher).mailbox.offers().last().outcome is Queued,
        final(watcher).mailbox.limit() == old(watcher).mailbox.limit(),
        final(watcher).mailbox.channel() == old(watcher).mailbox.channel(),
        final(watcher).connection_id == old(watcher).connection_id,
        final(watcher).username == old(watcher).username,
        final(watcher).is_player == old(watcher).is_player,
        final(watcher).is_admin == old(watcher).is_admin,
        final(watcher).chat_hidden == old(watcher).chat_hidden,
{
}

/// A new watcher takes its first 512 messages unless its reading end is gone, and
/// refuses none of them as full.
pub proof fn young_queue_is_never_full(watcher: &mut Watcher, message: OutgoingMessage, sent: bool)
    requires
        call_ensures(Watcher::try_send, (watcher, message), sent),
        old(watcher).mailbox.limit() == 512,
        old(watcher).mailbox.offers().len() < 512,
    ensures
        !sent <==> final(watcher).mailbox.offers().last().outcome is Closed,
{
    let offers = old(watcher).mailbox.offers();
    offers.lemma_filter_len(|offer: Offer| offer.outcome is Queued);
}

/// After `add_watcher` the watcher is registered under its connection, whatever
/// its flags. Every other connection and everything else stay as they were.
pub proof fn added_watcher_is_registered(session: &mut GameSession, watcher: Watcher, other: u64)
    requires
        call_ensures(GameSession::add_watcher, (session, watcher), ()),
        other != watcher.connection_id,
    ensures
        final(session)@.watchers.contains_key(watcher.connection_id),
        final(session)@.watchers[watcher.connection_id] == watcher@,
        final(session)@.watchers.contains_key(other) <==> old(session)@.watchers.contains_key(
            other,
        ),
        old(session)@.watchers.contains_key(other) ==> final(session)@.watchers[other] == old(
            session,
        )@.watchers[other],
        final(session)@ == (SessionView { watchers: final(session)@.watchers, ..old(session)@ }),
{
}

/// After `remove_watcher` the connection is not registered. Every other connection
/// and everything else stay as they were.
pub proof fn removed_watcher_is_not_registered(session: &mut GameSession, id: u64, other: u64)
    requires
        call_ensures(GameSession::remove_watcher, (session, id), ()),
        other != id,
    ensures
        !final(session)@.watchers.contains_key(id),
        final(session)@.watchers.contains_key(other) <==> old(session)@.watchers.contains_key(
            other,
        ),
        old(session)@.watchers.contains_key(other) ==> final(session)@.watchers[other] == old(
            session,
        )@.watchers[other],
        final(session)@ == (SessionView { watchers: final(session)@.watchers, ..old(session)@ }),
{
}

/// A broadcast after `add_watcher` offers its message to that watcher, whatever
/// its flags, and reports its connection exactly if the queue did not take it.
pub proof fn added_watcher_is_offered_the_broadcast(
    joined: &mut GameSession,
    told: &mut GameSession,
    watcher: Watcher,
    message: OutgoingMessage,
    overflowed: Vec<u64>,
)
    requires
        call_ensures(GameSession::add_watcher, (joined, watcher), ()),
        call_ensures(GameSession::broadcast, (told, message), overflowed),
        *old(told) == *final(joined),
    ensures
        final(told)@.watchers.contains_key(watcher.connection_id),
        ({
            let offers = final(told)@.watchers[watcher.connection_id].offers;
            &&& offers.len() == watcher.mailbox.offers().len() + 1
            &&& offers.drop_last() == watcher.mailbox.offers()
            &&& offers.last().message == message
            &&& overflowed@.contains(watcher.connection_id) <==> !(offers.last().outcome is Queued)
        }),
{
    assert(old(told)@.watchers.contains_key(watcher.connection_id));
}

/// A broadcast after `remove_watcher` neither reaches nor reports that connection.
pub proof fn removed_watcher_is_not_offered_the_broadcast(
    left: &mut GameSession,
    told: &mut GameSession,
    id: u64,
    message: OutgoingMessage,
    overflowed: Vec<u64>,
)
    requires
        call_ensures(GameSession::remove_watcher, (left, id), ()),
        call_ensures(GameSession::broadcast, (told, message), overflowed),
        *old(told) == *final(left),
    ensures
        !final(told)@.watchers.contains_key(id),
        !overflowed@.contains(id),
{
    assert(!final(told)@.watchers.dom().contains(id));
}

/// A broadcast adds one offer with the message to every watcher's history, whatever
/// their flags. It reports exactly the connections whose queue did not take it,
/// each once, and changes nothing else.
pub proof fn broadcast_is_offered_to_all(
    session: &mut GameSession,
    message: OutgoingMessage,
    overflowed: Vec<u64>,
    id: u64,
)
    requires
        call_ensures(GameSession::broadcast, (session, message), overflowed),
    ensures
        final(session)@.watchers.contains_key(id) <==> old(session)@.watchers.contains_key(id),
        old(session)@.watchers.contains_key(id) ==> {
            let (then, now) = (old(session)@.watchers[id], final(session)@.watchers[id]);
            &&& now == (WatcherView { offers: then.offers.push(now.offers.last()), ..then })
            &&& now.offers.last().message == message
            &&& overflowed@.contains(id) <==> !(now.offers.last().outcome is Queued)
        },
        overflowed@.contains(id) ==> old(session)@.watchers.contains_key(id),
        overflowed@.no_duplicates(),
        final(session)@ == (SessionView { watchers: final(session)@.watchers, ..old(session)@ }),
{
    assert(final(session)@.watchers.dom().contains(id) == old(session)@.watchers.dom().contains(
        id,
    ));
}

/// `watcher_count` counts the registered connections that are neither the player's
/// nor hidden from chat, each once. Whether one is an admin's makes no difference.
pub proof fn every_spectator_is_counted(session: GameSession, counted: Set<u64>, count: usize)
    requires
        call_ensures(GameSession::watcher_count, (&session,), count),
        forall|id: u64| #[trigger]
            counted.contains(id) <==> session@.watchers.contains_key(id)
                && !session@.watchers[id].is_player && !session@.watchers[id].chat_hidden,
    ensures
        count == counted.len(),
{
    assert(counted =~= session@.watchers.dom().filter(
        |id: u64| !session@.watchers[id].is_player && !session@.watchers[id].chat_hidden,
    ));
}

/// Registering a new connection makes `watcher_count` one more, unless it is the
/// player's or hidden from chat: then the count stays.
pub proof fn count_follows_who_registers(
    session: &mut GameSession,
    watcher: Watcher,
    before: usize,
    after: usize,
)
    requires
        call_ensures(GameSession::watcher_count, (&*old(session),), before),
        call_ensures(GameSession::add_watcher, (session, watcher), ()),
        call_ensures(GameSession::watcher_count, (&*final(session),), after),
        old(session)@.well_formed(),
        !old(session)@.watchers.contains_key(watcher.connection_id),
    ensures
        !watcher.is_player && !watcher.chat_hidden ==> after == before + 1,
        watcher.is_player || watcher.chat_hidden ==> after == before,
{
    let (then, now) = (old(session)@, final(session)@);
    let counted = then.watchers.dom().filter(
        |id: u64| !then.watchers[id].is_player && !then.watchers[id].chat_hidden,
    );
    every_spectator_is_counted(*old(session), counted, before);
    if watcher.is_player || watcher.chat_hidden {
        every_spectator_is_counted(*final(session), counted, after);
    } else {
        every_spectator_is_counted(
            *final(session),
            counted.insert(watcher.connection_id),
            after,
        );
    }
}

/// A line in the lobby shows the session's id, player and configuration and the
/// idle time it was asked for, and counts every registered connection that is
/// neither the player's nor hidden from chat, each once. The count is exact below
/// 2^32 and wraps there.
pub proof fn lobby_entry_shows_the_session(
    session: GameSession,
    idle_secs: u64,
    counted: Set<u64>,
    entry: LobbyEntry,
)
    requires
        call_ensures(GameSession::lobby_entry_idle_for, (&session, idle_secs), entry),
        forall|id: u64| #[trigger]
            counted.contains(id) <==> session@.watchers.contains_key(id)
                && !session@.watchers[id].is_player && !session@.watchers[id].chat_hidden,
    ensures
        counted.len() < 0x1_0000_0000 ==> entry.spectator_count == counted.len(),
        entry.spectator_count == counted.len() % 0x1_0000_0000,
        entry.idle_time == idle_secs,
        entry.id == session.id,
        entry.username@ == session.username@,
        entry.game_id@ == session.game_config_id@,
        entry.xl == session@.where_info.xl,
        entry.char == session@.where_info.char,
        entry.place == session@.where_info.place,
        entry.turn == session@.where_info.turn,
        entry.dur == session@.where_info.dur,
        entry.god == session@.where_info.god,
        entry.title == session@.where_info.title,
        entry.milestone == session@.last_milestone,
{
    assert(counted =~= session@.watchers.dom().filter(
        |id: u64| !session@.watchers[id].is_player && !session@.watchers[id].chat_hidden,
    ));
}

/// The line in the lobby that is made now is the one for the whole seconds of some
/// answer of the clock.
pub proof fn lobby_entry_tells_the_seconds(
    session: GameSession,
    counted: Set<u64>,
    entry: LobbyEntry,
)
    requires
        call_ensures(GameSession::lobby_entry, (&session,), entry),
        forall|id: u64| #[trigger]
            counted.contains(id) <==> session@.watchers.contains_key(id)
                && !session@.watchers[id].is_player && !session@.watchers[id].chat_hidden,
    ensures
        exists|nanos: u128| #[trigger]
            clock_answers(session.started_at, nanos) && entry.idle_time * 1_000_000_000 <= nanos
                < (entry.idle_time + 1) * 1_000_000_000,
        counted.len() < 0x1_0000_0000 ==> entry.spectator_count == counted.len(),
        entry.spectator_count == counted.len() % 0x1_0000_0000,
        entry.id == session.id,
        entry.username@ == session.username@,
        entry.game_id@ == session.game_config_id@,
        entry.xl == session@.where_info.xl,
        entry.char == session@.where_info.char,
        entry.place == session@.where_info.place,
        entry.turn == session@.where_info.turn,
        entry.dur == session@.where_info.dur,
        entry.god == session@.where_info.god,
        entry.title == session@.where_info.title,
        entry.milestone == session@.last_milestone,
{
    assert(counted =~= session@.watchers.dom().filter(
        |id: u64| !session@.watchers[id].is_player && !session@.watchers[id].chat_hidden,
    ));
}

/// An anonymous visitor is kept out exactly while `[all]` or `[anon]` is blocked,
/// at any time and whoever watches; asking changes nothing.
pub proof fn anonymous_visitors_are_answered(session: &mut GameSession, now: u128, blocked: bool)
    requires
        call_ensures(GameSession::is_blocked_at, (session, None::<&str>, now), blocked),
    ensures
        blocked <==> old(session)@.blocked.contains("[all]"@) || old(session)@.blocked.contains(
            "[anon]"@,
        ),
        final(session)@ == old(session)@,
{
}

/// As long as `[all]` is blocked, exactly the player is let in; otherwise a user is
/// kept out exactly by a block of their name or a kick with time left.
pub proof fn users_are_answered(
    session: &mut GameSession,
    name: &str,
    now: u128,
    blocked: bool,
)
    requires
        call_ensures(GameSession::is_blocked_at, (session, Some(name), now), blocked),
    ensures
        old(session)@.blocked.contains("[all]"@) ==> (blocked <==> name@ != old(session).username@),
        !old(session)@.blocked.contains("[all]"@) ==> (blocked <==> {
            let kick = old(session)@.kicked[name@];
            ||| old(session)@.blocked.contains(name@)
            ||| old(session)@.kicked.contains_key(name@) && kick.interval_secs > 0 && now
                < kick.kicked_at + kick.interval_secs * 1_000_000_000
        }),
{
}

/// Asking about someone changes nothing but kicks; it notes none, alters none, and
/// forgets none but that of the user who is asked about, once it has no time left.
pub proof fn asking_forgets_only_kicks_without_time(
    session: &mut GameSession,
    who: Option<&str>,
    now: u128,
    blocked: bool,
    name: Seq<char>,
)
    requires
        call_ensures(GameSession::is_blocked_at, (session, who, now), blocked),
    ensures
        final(session)@ == (SessionView { kicked: final(session)@.kicked, ..old(session)@ }),
        final(session)@.kicked.contains_key(name) ==> old(session)@.kicked.contains_key(name)
            && final(session)@.kicked[name] == old(session)@.kicked[name],
        old(session)@.kicked.contains_key(name) && !final(session)@.kicked.contains_key(name) ==> {
            let kick = old(session)@.kicked[name];
            &&& who is Some
            &&& who->0@ == name
            &&& kick.interval_secs == 0 || now >= kick.kicked_at + kick.interval_secs
                * 1_000_000_000
        },
{
}

/// What is blocked is kept out from then on: a name unless `[all]` is blocked and
/// it is the player's, and an anonymous visitor by `[anon]` or `[all]`.
pub proof fn blocking_keeps_out(
    moderated: &mut GameSession,
    asked: &mut GameSession,
    target: String,
    who: Option<&str>,
    now: u128,
    blocked: bool,
)
    requires
        call_ensures(GameSession::block, (moderated, target), ()),
        call_ensures(GameSession::is_blocked_at, (asked, who, now), blocked),
        *old(asked) == *final(moderated),
    ensures
        who is None && (target@ == "[anon]"@ || target@ == "[all]"@) ==> blocked,
        who is Some && who->0@ != old(moderated).username@ && (target@ == who->0@ || target@
            == "[all]"@) ==> blocked,
        who is Some && who->0@ == old(moderated).username@ && target@ == "[all]"@ ==> !blocked,
{
}

/// A block adds its target and leaves everything else, and taking it back removes
/// the target and leaves everything else.
pub proof fn blocks_concern_their_target(
    blocking: &mut GameSession,
    unblocking: &mut GameSession,
    target: String,
    same_target: &str,
    other: Seq<char>,
)
    requires
        call_ensures(GameSession::block, (blocking, target), ()),
        call_ensures(GameSession::unblock, (unblocking, same_target), ()),
        *old(unblocking) == *final(blocking),
        same_target@ == target@,
        other != target@,
    ensures
        final(blocking)@.blocked.contains(target@),
        !final(unblocking)@.blocked.contains(target@),
        final(blocking)@.blocked.contains(other) <==> old(blocking)@.blocked.contains(other),
        final(unblocking)@.blocked.contains(other) <==> old(blocking)@.blocked.contains(other),
        final(blocking)@ == (SessionView {
            blocked: final(blocking)@.blocked,
            ..old(blocking)@
        }),
        final(unblocking)@ == (SessionView {
            blocked: final(unblocking)@.blocked,
            ..old(blocking)@
        }),
{
}

/// A kick is noted under its target, with its time and sixty seconds for each
/// minute; everyone else's kick and everything else stay.
pub proof fn kick_is_noted(
    session: &mut GameSession,
    target: String,
    minutes: u64,
    now: u128,
    other: Seq<char>,
)
    requires
        call_ensures(GameSession::kick_at, (session, target, minutes, now), ()),
        minutes * 60 <= u64::MAX,
        other != target@,
    ensures
        final(session)@.kicked.contains_key(target@),
        final(session)@.kicked[target@].kicked_at == now,
        final(session)@.kicked[target@].interval_secs == minutes * 60,
        final(session)@.kicked.contains_key(other) <==> old(session)@.kicked.contains_key(other),
        old(session)@.kicked.contains_key(other) ==> final(session)@.kicked[other] == old(
            session,
        )@.kicked[other],
        final(session)@ == (SessionView { kicked: final(session)@.kicked, ..old(session)@ }),
{
}

/// A kick for some minutes keeps its target out, when asked later, exactly while
/// less than these minutes have gone by.
pub proof fn kick_keeps_out_for_its_minutes(
    moderated: &mut GameSession,
    asked: &mut GameSession,
    target: String,
    minutes: u64,
    kicked_at: u128,
    name: &str,
    asked_at: u128,
    blocked: bool,
)
    requires
        call_ensures(GameSession::kick_at, (moderated, target, minutes, kicked_at), ()),
        call_ensures(GameSession::is_blocked_at, (asked, Some(name), asked_at), blocked),
        *old(asked) == *final(moderated),
        minutes * 60 <= u64::MAX,
        name@ == target@,
        kicked_at <= asked_at,
        !old(moderated)@.blocked.contains("[all]"@),
        !old(moderated)@.blocked.contains(name@),
    ensures
        blocked <==> asked_at - kicked_at < minutes * 60 * 1_000_000_000,
{
}

/// A kick leaves the answers about everyone else as they are.
pub proof fn kick_leaves_others_alone(
    moderated: &mut GameSession,
    asked: &mut GameSession,
    also_asked: &mut GameSession,
    target: String,
    minutes: u64,
    kicked_at: u128,
    who: Option<&str>,
    now: u128,
    blocked: bool,
    blocked_without: bool,
)
    requires
        call_ensures(GameSession::kick_at, (moderated, target, minutes, kicked_at), ()),
        call_ensures(GameSession::is_blocked_at, (asked, who, now), blocked),
        call_ensures(GameSession::is_blocked_at, (also_asked, who, now), blocked_without),
        *old(asked) == *final(moderated),
        *old(also_asked) == *old(moderated),
        minutes * 60 <= u64::MAX,
        who is Some ==> who->0@ != target@,
    ensures
        blocked == blocked_without,
{
}

/// A kick that is made now, and a question that is asked now: its target is kept
/// out exactly while the clock's answer at the question lies less than these
/// minutes behind its answer at the kick.
pub proof fn kick_keeps_out_by_the_clock(
    moderated: &mut GameSession,
    asked: &mut GameSession,
    target: String,
    minutes: u64,
    name: &str,
    blocked: bool,
)
    requires
        call_ensures(GameSession::kick, (moderated, target, minutes), ()),
        call_ensures(GameSession::is_blocked, (asked, Some(name)), blocked),
        *old(asked) == *final(moderated),
        minutes * 60 <= u64::MAX,
        name@ == target@,
        !old(moderated)@.blocked.contains("[all]"@),
        !old(moderated)@.blocked.contains(name@),
    ensures
        exists|kicked_at: u128, asked_at: u128|
            {
                &&& #[trigger] clock_answers(old(moderated).started_at, kicked_at)
                &&& #[trigger] clock_answers(old(moderated).started_at, asked_at)
                &&& kicked_at <= asked_at ==> (blocked <==> asked_at - kicked_at < minutes * 60
                    * 1_000_000_000)
            },
{
    let kicked_at = final(moderated)@.kicked[name@].kicked_at;
    let asked_at = choose|now: u128|
        #![trigger clock_answers(old(asked).started_at, now)]
        clock_answers(old(asked).started_at, now) && {
            let kick = old(asked)@.kicked[name@];
            let holds = old(asked)@.kicked.contains_key(name@) && kick.interval_secs > 0 && now
                < kick.kicked_at + kick.interval_secs * 1_000_000_000;
            if old(asked)@.blocked.contains("[all]"@) {
                final(asked)@.kicked == old(asked)@.kicked
            } else if holds {
                &&& final(asked)@.kicked == old(asked)@.kicked
                &&& blocked
            } else {
                &&& final(asked)@.kicked == old(asked)@.kicked.remove(name@)
                &&& blocked <==> old(asked)@.blocked.contains(name@)
            }
        };
    assert(old(asked).started_at == old(moderated).started_at) by {
        assert(final(moderated)@.started_at == old(moderated)@.started_at);
    }
    assert(clock_answers(old(moderated).started_at, kicked_at));
    assert(clock_answers(old(moderated).started_at, asked_at));
}

/// `is_active_at` tells whether a kick's seconds have gone by, to the nanosecond.
pub proof fn kick_runs_out_after_its_seconds(kick: Kick, now: u128, active: bool)
    requires
        call_ensures(Kick::is_active_at, (&kick, now), active),
    ensures
        active <==> kick.interval_secs > 0 && now < kick.kicked_at + kick.interval_secs
            * 1_000_000_000,
{
}

/// The time that `idle_time` gives is a reading of the elapsed time of the
/// session's start, as it is.
pub(crate) proof fn idle_time_is_a_reading(session: GameSession, nanos: u128)
    requires
        call_ensures(GameSession::idle_time, (&session,), nanos),
    ensures
        call_ensures(elapsed, (&session.started_at,), nanos),
{
    clock_answers_are_readings(session.started_at, nanos);
}

/// The time that `kick` notes is a reading of the elapsed time of the session's
/// start, as it is.
pub(crate) proof fn kick_notes_a_reading(session: &mut GameSession, target: String, minutes: u64)
    requires
        call_ensures(GameSession::kick, (session, target, minutes), ()),
        minutes * 60 <= u64::MAX,
    ensures
        call_ensures(
            elapsed,
            (&old(session).started_at,),
            final(session)@.kicked[target@].kicked_at,
        ),
        final(session)@.kicked[target@].interval_secs == minutes * 60,
{
    clock_answers_are_readings(
        old(session).started_at,
        final(session)@.kicked[target@].kicked_at,
    );
}

/// The idle time that `lobby_entry` shows is the whole seconds of a reading of the
/// elapsed time of the session's start.
pub(crate) proof fn lobby_entry_shows_a_reading(session: GameSession, entry: LobbyEntry)
    requires
        call_ensures(GameSession::lobby_entry, (&session,), entry),
    ensures
        exists|nanos: u128| #[trigger]
            call_ensures(elapsed, (&session.started_at,), nanos) && entry.idle_time == nanos
                / 1_000_000_000,
{
    let nanos = choose|nanos: u128| #[trigger]
        clock_answers(session.started_at, nanos) && entry.idle_time == nanos / 1_000_000_000;
    clock_answers_are_readings(session.started_at, nanos);
}

/// What `is_blocked` answers is what `is_blocked_at` answers at a reading of the
/// elapsed time of the session's start.
pub(crate) proof fn question_goes_by_a_reading(
    session: &mut GameSession,
    who: Option<&str>,
    blocked: bool,
)
    requires
        call_ensures(GameSession::is_blocked, (session, who), blocked),
    ensures
        exists|now: u128| #[trigger]
            call_ensures(elapsed, (&old(session).started_at,), now) && old(session)@.answers(
                name_of(who),
                now as int,
                blocked,
                final(session)@,
            ),
{
    let now = choose|now: u128|
        clock_answers(old(session).started_at, now) && #[trigger] old(session)@.answers(
            name_of(who),
            now as int,
            blocked,
            final(session)@,
        );
    clock_answers_are_readings(old(session).started_at, now);
}

/// The lobby shows the whereabouts and the milestone that were set last, and what
/// is set changes nothing else.
pub proof fn lobby_shows_what_was_set(
    located: &mut GameSession,
    promoted: &mut GameSession,
    info: WhereInfo,
    milestone: Option<String>,
    idle_secs: u64,
    entry: LobbyEntry,
)
    requires
        call_ensures(GameSession::set_where_info, (located, info), ()),
        call_ensures(GameSession::set_last_milestone, (promoted, milestone), ()),
        *old(promoted) == *final(located),
        call_ensures(GameSession::lobby_entry_idle_for, (&*final(promoted), idle_secs), entry),
    ensures
        entry.xl == info.xl,
        entry.char == info.char,
        entry.place == info.place,
        entry.turn == info.turn,
        entry.dur == info.dur,
        entry.god == info.god,
        entry.title == info.title,
        entry.milestone == milestone,
        entry.id == old(located).id,
        entry.username@ == old(located).username@,
        entry.game_id@ == old(located).game_config_id@,
        final(promoted)@ == (SessionView {
            where_info: info,
            last_milestone: milestone,
            ..old(located)@
        }),
{
    assert(final(promoted)@.id == old(located)@.id);
    assert(final(promoted)@.username == old(located)@.username);
    assert(final(promoted)@.game_config_id == old(located)@.game_config_id);
}

/// `exit_info` gives back what was set last, and setting it changes nothing else.
pub proof fn exit_info_is_kept(session: &mut GameSession, info: ExitInfo, kept: ExitInfo)
    requires
        call_ensures(GameSession::set_exit_info, (session, info), ()),
        call_ensures(GameSession::exit_info, (&*final(session),), kept),
    ensures
        kept == info,
        final(session)@ == (SessionView { exit_info: info, ..old(session)@ }),
{
}

} // verus!
