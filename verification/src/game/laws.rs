//! What holds of sessions as a whole.
use vstd::prelude::*;

use crate::game::clock::NANOS_PER_SEC;
use crate::game::mailbox::{found_closed, queued_count, waiting_after, Offer, OutgoingMessage};
use crate::game::model::{SessionView, WatcherView};
use crate::game::session::{
    game_id_after, ExitInfo, GameId, Kick, WhereInfo, WATCHER_QUEUE_CAPACITY,
};
use crate::protocol::LobbyEntry;

verus! {

/// The id that a counter hands out after `n` others, starting at `first`.
pub open spec fn nth_game_id(first: GameId, n: nat) -> GameId
    decreases n,
{
    if n == 0 {
        first
    } else {
        game_id_after(nth_game_id(first, (n - 1) as nat))
    }
}

proof fn lemma_nth_game_id(first: GameId, n: nat)
    ensures
        nth_game_id(first, n) == (first + n) % 0x1_0000_0000_0000_0000,
    decreases n,
{
    if n > 0 {
        lemma_nth_game_id(first, (n - 1) as nat);
    }
}

/// A counter hands out no id twice in any 2^64 successive ids.
pub proof fn game_ids_are_unique(first: GameId, i: nat, j: nat)
    requires
        i < j < i + 0x1_0000_0000_0000_0000,
    ensures
        nth_game_id(first, i) != nth_game_id(first, j),
{
    lemma_nth_game_id(first, i);
    lemma_nth_game_id(first, j);
}

/// Blocking `[all]` keeps out everyone but the player, whatever else is blocked
/// and whoever is kicked.
pub proof fn block_all_exempts_only_the_player(
    session: SessionView,
    who: Option<Seq<char>>,
    now: int,
)
    ensures
        session.with_blocked(session.blocked.insert("[all]"@)).blocked_at(who, now) <==> who
            != Some(session.username),
{
}

proof fn lemma_targets_differ()
    ensures
        "[all]"@ != "[anon]"@,
{
    reveal_strlit("[all]");
    reveal_strlit("[anon]");
    assert("[all]"@.len() != "[anon]"@.len());
}

/// Blocking `[anon]` keeps out anonymous visitors and changes nothing for
/// users, save for one of that very name.
pub proof fn block_anon_concerns_anonymous_visitors(
    session: SessionView,
    name: Seq<char>,
    now: int,
)
    ensures
        session.with_blocked(session.blocked.insert("[anon]"@)).blocked_at(None, now),
        name != "[anon]"@ ==> session.with_blocked(session.blocked.insert("[anon]"@)).blocked_at(
            Some(name),
            now,
        ) == session.blocked_at(Some(name), now),
{
    lemma_targets_differ();
}

/// A blocked name may not spectate. The one exception is the player, while
/// `[all]` is blocked.
pub proof fn blocked_name_is_kept_out(session: SessionView, name: Seq<char>, now: int)
    requires
        name == session.username ==> !session.all_blocked() && name != "[all]"@,
    ensures
        session.with_blocked(session.blocked.insert(name)).blocked_at(Some(name), now),
{
}

/// Taking back a block that was not there before restores the session.
pub proof fn unblock_undoes_block(session: SessionView, target: Seq<char>)
    requires
        !session.blocked.contains(target),
    ensures
        session.with_blocked(session.blocked.insert(target)).with_blocked(
            session.blocked.insert(target).remove(target),
        ) == session,
{
    assert(session.blocked.insert(target).remove(target) =~= session.blocked);
}

/// After the block of a name was taken back, only `[all]` and a kick still keep
/// that name out.
pub proof fn unblocked_name_is_let_in(session: SessionView, name: Seq<char>, now: int)
    ensures
        ({
            let after = session.with_blocked(session.blocked.remove(name));
            after.blocked_at(Some(name), now) ==> after.all_blocked() || session.kicked_out_at(
                name,
                now,
            )
        }),
{
}

/// A kick keeps its target out for exactly the minutes it was given for.
pub proof fn kick_lasts_its_minutes(
    session: SessionView,
    name: Seq<char>,
    minutes: u64,
    kicked_at: u128,
    now: int,
)
    requires
        minutes * 60 <= u64::MAX,
        minutes == 0 ==> now >= kicked_at,
        !session.all_blocked(),
        !session.blocked.contains(name),
    ensures
        session.kicking(name, minutes, kicked_at).blocked_at(Some(name), now) <==> now - kicked_at
            < minutes * 60 * NANOS_PER_SEC,
{
}

/// A kick for no minutes keeps its target out at no time.
pub proof fn kick_for_no_time_never_holds(
    session: SessionView,
    name: Seq<char>,
    kicked_at: u128,
    now: int,
)
    ensures
        !session.kicking(name, 0, kicked_at).kicked_out_at(name, now),
{
}

/// A kick that has run out stays so.
pub proof fn expired_kick_stays_expired(kick: Kick, now: int, later: int)
    requires
        now <= later,
        !kick.active_at(now),
    ensures
        !kick.active_at(later),
{
}

/// A kick concerns its target alone.
pub proof fn kick_concerns_its_target(
    session: SessionView,
    name: Seq<char>,
    minutes: u64,
    kicked_at: u128,
    who: Option<Seq<char>>,
    now: int,
)
    requires
        who != Some(name),
    ensures
        session.kicking(name, minutes, kicked_at).blocked_at(who, now) == session.blocked_at(
            who,
            now,
        ),
{
}

/// That kicks which have run out are forgotten cannot be told from any later
/// answer.
pub proof fn forgetting_kicks_is_unseen(
    session: SessionView,
    asked: Option<Seq<char>>,
    now: int,
    who: Option<Seq<char>>,
    later: int,
)
    requires
        now <= later,
    ensures
        session.asked_about(asked, now).blocked_at(who, later) == session.blocked_at(who, later),
{
}

/// Asking twice forgets no more than asking once.
pub proof fn asking_again_changes_nothing(
    session: SessionView,
    who: Option<Seq<char>>,
    now: int,
)
    ensures
        session.asked_about(who, now).asked_about(who, now) == session.asked_about(who, now),
{
}

/// Asking about someone changes nothing but the kicks, and those only by
/// forgetting.
pub proof fn asking_only_forgets_kicks(
    session: SessionView,
    who: Option<Seq<char>>,
    now: int,
)
    ensures
        ({
            let after = session.asked_about(who, now);
            &&& after == session.with_kicked(after.kicked)
            &&& after.kicked.submap_of(session.kicked)
        }),
{
}

/// Dropping a watcher of a connection that was not registered before restores
/// the session.
pub proof fn remove_undoes_add(session: SessionView, watcher: WatcherView)
    requires
        !session.watchers.contains_key(watcher.connection_id),
    ensures
        session.watchers.insert(watcher.connection_id, watcher).remove(watcher.connection_id)
            == session.watchers,
{
    assert(session.watchers.insert(watcher.connection_id, watcher).remove(watcher.connection_id)
        =~= session.watchers);
}

/// A newly registered connection counts as one spectator more, unless it is the
/// player's or hidden from chat: then the count stays.
pub proof fn new_watcher_counts_if_spectator(session: SessionView, watcher: WatcherView)
    requires
        session.well_formed(),
        !session.watchers.contains_key(watcher.connection_id),
    ensures
        session.with_watchers(
            session.watchers.insert(watcher.connection_id, watcher),
        ).spectators().len() == session.spectators().len() + (if watcher.is_spectator() {
            1nat
        } else {
            0nat
        }),
{
    let id = watcher.connection_id;
    let after = session.with_watchers(session.watchers.insert(id, watcher));
    if watcher.is_spectator() {
        assert(after.spectators() =~= session.spectators().insert(id));
    } else {
        assert(after.spectators() =~= session.spectators());
    }
}

/// A connection that leaves takes itself off the count if it was a spectator's,
/// and changes nothing otherwise.
pub proof fn leaving_watcher_uncounts_if_spectator(session: SessionView, id: u64)
    requires
        session.well_formed(),
    ensures
        session.with_watchers(session.watchers.remove(id)).spectators() == session.spectators().remove(
            id,
        ),
        session.spectators().contains(id) ==> session.with_watchers(
            session.watchers.remove(id),
        ).spectators().len() + 1 == session.spectators().len(),
        !session.watchers.contains_key(id) ==> session.watchers.remove(id) == session.watchers,
{
    let after = session.with_watchers(session.watchers.remove(id));
    assert(after.spectators() =~= session.spectators().remove(id));
    if !session.watchers.contains_key(id) {
        assert(session.watchers.remove(id) =~= session.watchers);
    }
}

/// Registering a connection again leaves one watcher there, the later one.
pub proof fn later_watcher_replaces_earlier(
    session: SessionView,
    earlier: WatcherView,
    later: WatcherView,
)
    requires
        earlier.connection_id == later.connection_id,
    ensures
        session.watchers.insert(earlier.connection_id, earlier).insert(later.connection_id, later)
            == session.watchers.insert(later.connection_id, later),
{
    assert(session.watchers.insert(earlier.connection_id, earlier).insert(
        later.connection_id,
        later,
    ) =~= session.watchers.insert(later.connection_id, later));
}

/// No more spectators are counted than there are watchers, and fewer where the
/// player watches.
pub proof fn player_is_no_spectator(session: SessionView, player: u64)
    requires
        session.well_formed(),
        session.watchers.contains_key(player),
        session.watchers[player].is_player,
    ensures
        session.spectators().len() < session.watchers.dom().len(),
{
    let others = session.watchers.dom().remove(player);
    assert(session.spectators().subset_of(others));
    vstd::set_lib::lemma_len_subset(session.spectators(), others);
}

/// A broadcast offers the message to every watcher exactly once, after all that
/// was offered before.
pub proof fn broadcast_reaches_every_watcher(
    session: SessionView,
    message: OutgoingMessage,
    after: SessionView,
    refused: Set<u64>,
    id: u64,
)
    requires
        session.broadcasts(message, after, refused),
        session.watchers.contains_key(id),
    ensures
        after.watchers.contains_key(id),
        after.watchers[id].offers.drop_last() == session.watchers[id].offers,
        after.watchers[id].last_offer().message == message,
        queued_count(after.watchers[id].offers) == queued_count(session.watchers[id].offers) + (
        if refused.contains(id) {
            0nat
        } else {
            1nat
        }),
{
    reveal(Seq::filter);
    let before = session.watchers[id].offers;
    assert(before.push(after.watchers[id].last_offer()).drop_last() == before);
}

/// A broadcast reports a watcher exactly if its reading end is gone or as many
/// messages wait for it as its queue holds: 512 in a well-formed session. That
/// many were taken in before.
pub proof fn only_slow_or_gone_watchers_are_reported(
    session: SessionView,
    message: OutgoingMessage,
    after: SessionView,
    refused: Set<u64>,
    id: u64,
)
    requires
        session.broadcasts(message, after, refused),
        session.watchers.contains_key(id),
    ensures
        ({
            let offer = after.watchers[id].last_offer();
            let limit = session.watchers[id].queue_limit;
            &&& session.well_formed() ==> limit == WATCHER_QUEUE_CAPACITY
            &&& refused.contains(id) <==> offer.outcome is Closed || offer.waiting == limit
            &&& offer.waiting == limit ==> queued_count(session.watchers[id].offers) >= limit
        }),
{
}

/// Whether nothing was read from a queue up to the latest of `offers`.
pub open spec fn never_read(offers: Seq<Offer>) -> bool {
    forall|i: int|
        0 <= i < offers.len() ==> (#[trigger] offers[i]).waiting == queued_count(offers.take(i))
}

/// A watcher that reads nothing is reported by every broadcast once its queue
/// has taken in as many messages as it holds, and by none before unless its
/// reading end is gone.
pub proof fn idle_reader_is_reported_at_its_limit(
    session: SessionView,
    message: OutgoingMessage,
    after: SessionView,
    refused: Set<u64>,
    id: u64,
)
    requires
        session.broadcasts(message, after, refused),
        session.watchers.contains_key(id),
        never_read(after.watchers[id].offers),
    ensures
        queued_count(session.watchers[id].offers) >= session.watchers[id].queue_limit
            ==> refused.contains(id),
        queued_count(session.watchers[id].offers) < session.watchers[id].queue_limit
            && refused.contains(id) ==> after.watchers[id].last_offer().outcome is Closed,
{
    let before = session.watchers[id].offers;
    let offers = after.watchers[id].offers;
    assert(offers.take(before.len() as int) == before);
    assert(offers[before.len() as int].waiting == queued_count(before));
}

/// A watcher that one broadcast reports is reported by the next one too, if
/// nothing was read from its queue in between.
pub proof fn reported_watcher_is_reported_again(
    session: SessionView,
    first: OutgoingMessage,
    between: SessionView,
    refused_first: Set<u64>,
    second: OutgoingMessage,
    after: SessionView,
    refused_second: Set<u64>,
    id: u64,
)
    requires
        session.broadcasts(first, between, refused_first),
        between.broadcasts(second, after, refused_second),
        refused_first.contains(id),
        after.watchers[id].last_offer().waiting == waiting_after(between.watchers[id].offers),
    ensures
        refused_second.contains(id),
{
    assert(session.watchers.contains_key(id));
    assert(between.watchers.contains_key(id));
    let offers = between.watchers[id].offers;
    assert(offers[offers.len() - 1] == between.watchers[id].last_offer());
}

/// A watcher whose reading end was once found gone is reported by every later
/// broadcast.
pub proof fn gone_watcher_is_reported_again(
    session: SessionView,
    message: OutgoingMessage,
    after: SessionView,
    refused: Set<u64>,
    id: u64,
)
    requires
        session.broadcasts(message, after, refused),
        session.watchers.contains_key(id),
        found_closed(session.watchers[id].offers),
    ensures
        refused.contains(id),
        found_closed(after.watchers[id].offers),
{
    let before = session.watchers[id].offers;
    let i = choose|i: int| 0 <= i < before.len() && (#[trigger] before[i]).outcome is Closed;
    assert(after.watchers[id].offers[i] == before[i]);
}

proof fn lemma_broadcast_keeps_watchers(
    session: SessionView,
    message: OutgoingMessage,
    after: SessionView,
    refused: Set<u64>,
)
    requires
        session.broadcasts(message, after, refused),
    ensures
        after.spectators() == session.spectators(),
        session.well_formed() ==> after.well_formed(),
{
    assert forall|id: u64| #[trigger] after.watchers.contains_key(id) implies
        session.watchers.contains_key(id) by {}
    assert(after.spectators() =~= session.spectators());
}

/// A broadcast changes nobody's standing: who watches, who counts as a
/// spectator and who is kept out stay as they were, the connections that it
/// reports included, and so do what is known of the game and its line in the
/// lobby.
pub proof fn broadcast_changes_no_standing(
    session: SessionView,
    message: OutgoingMessage,
    after: SessionView,
    refused: Set<u64>,
    who: Option<Seq<char>>,
    now: int,
    entry: LobbyEntry,
)
    requires
        session.broadcasts(message, after, refused),
    ensures
        session.well_formed() ==> after.well_formed(),
        after.watchers.dom() == session.watchers.dom(),
        after.spectators() == session.spectators(),
        after.blocked == session.blocked,
        after.kicked == session.kicked,
        after.where_info == session.where_info,
        after.last_milestone == session.last_milestone,
        after.exit_info == session.exit_info,
        after.blocked_at(who, now) == session.blocked_at(who, now),
        after.shown_as(entry) == session.shown_as(entry),
{
    lemma_broadcast_keeps_watchers(session, message, after, refused);
}

/// The lobby shows the where info and the milestone that were set last.
pub proof fn lobby_shows_what_was_set_last(
    session: SessionView,
    info: WhereInfo,
    milestone: Option<String>,
    entry: LobbyEntry,
)
    requires
        (SessionView { where_info: info, last_milestone: milestone, ..session }).shown_as(entry),
    ensures
        entry.xl == info.xl,
        entry.char == info.char,
        entry.place == info.place,
        entry.turn == info.turn,
        entry.dur == info.dur,
        entry.god == info.god,
        entry.title == info.title,
        entry.milestone == milestone,
{
}

/// Blocks, kicks and exit info leave the line in the lobby as it is: nobody is
/// disconnected by a block or a kick.
pub proof fn moderation_leaves_the_lobby_alone(
    session: SessionView,
    blocked: Set<Seq<char>>,
    kicked: Map<Seq<char>, Kick>,
    exit_info: ExitInfo,
    entry: LobbyEntry,
)
    ensures
        (SessionView { blocked, kicked, exit_info, ..session }).shown_as(entry)
            == session.shown_as(entry),
{
    let after = SessionView { blocked, kicked, exit_info, ..session };
    assert(after.spectators() =~= session.spectators());
}

/// What was set as where info, milestone and exit info stays until it is set
/// again: watchers that come and go, broadcasts, blocks, kicks and questions
/// leave all three alone.
pub proof fn records_stay_until_set_again(
    session: SessionView,
    watchers: Map<u64, WatcherView>,
    blocked: Set<Seq<char>>,
    name: Seq<char>,
    minutes: u64,
    now: u128,
    who: Option<Seq<char>>,
)
    ensures
        ({
            let after = session.with_watchers(watchers).with_blocked(blocked).kicking(
                name,
                minutes,
                now,
            ).asked_about(who, now as int);
            &&& after.where_info == session.where_info
            &&& after.last_milestone == session.last_milestone
            &&& after.exit_info == session.exit_info
        }),
{
}

/// Every operation leaves each watcher registered under its own connection, with
/// a queue of the usual size.
pub proof fn watchers_stay_under_their_connections(
    session: SessionView,
    watcher: WatcherView,
    left: u64,
    blocked: Set<Seq<char>>,
    name: Seq<char>,
    minutes: u64,
    now: u128,
    who: Option<Seq<char>>,
)
    requires
        session.well_formed(),
        watcher.queue_limit == WATCHER_QUEUE_CAPACITY,
    ensures
        session.with_watchers(
            session.watchers.insert(watcher.connection_id, watcher),
        ).well_formed(),
        session.with_watchers(session.watchers.remove(left)).well_formed(),
        session.with_blocked(blocked).well_formed(),
        session.kicking(name, minutes, now).well_formed(),
        session.asked_about(who, now as int).well_formed(),
        forall|message: OutgoingMessage, after: SessionView, refused: Set<u64>| #[trigger]
            session.broadcasts(message, after, refused) ==> after.well_formed(),
{
    assert forall|message: OutgoingMessage, after: SessionView, refused: Set<u64>| #[trigger]
        session.broadcasts(message, after, refused) implies after.well_formed() by {
        lemma_broadcast_keeps_watchers(session, message, after, refused);
    }
}

/// Two broadcasts that a watcher took are queued for it one behind the other,
/// each once.
pub proof fn broadcasts_are_queued_in_order(
    session: SessionView,
    first: OutgoingMessage,
    between: SessionView,
    refused_first: Set<u64>,
    second: OutgoingMessage,
    after: SessionView,
    refused_second: Set<u64>,
    id: u64,
)
    requires
        session.broadcasts(first, between, refused_first),
        between.broadcasts(second, after, refused_second),
        session.watchers.contains_key(id),
        !refused_first.contains(id),
        !refused_second.contains(id),
    ensures
        ({
            let earlier = between.watchers[id].last_offer();
            let later = after.watchers[id].last_offer();
            &&& earlier.message == first && earlier.outcome is Queued
            &&& later.message == second && later.outcome is Queued
            &&& after.watchers[id].offers == session.watchers[id].offers.push(earlier).push(later)
        }),
{
    assert(between.watchers.contains_key(id));
}

/// A session keeps its id, its player, its game and its start through every
/// operation, so the clock is always asked about the same start: nothing that
/// happens in a game resets its idle time.
pub proof fn identity_never_changes(
    session: SessionView,
    watchers: Map<u64, WatcherView>,
    blocked: Set<Seq<char>>,
    name: Seq<char>,
    minutes: u64,
    now: u128,
    who: Option<Seq<char>>,
    info: WhereInfo,
    milestone: Option<String>,
    exit_info: ExitInfo,
)
    ensures
        session.with_watchers(watchers).same_game(session),
        session.with_blocked(blocked).same_game(session),
        session.kicking(name, minutes, now).same_game(session),
        session.asked_about(who, now as int).same_game(session),
        (SessionView { where_info: info, ..session }).same_game(session),
        (SessionView { last_milestone: milestone, ..session }).same_game(session),
        (SessionView { exit_info, ..session }).same_game(session),
        forall|message: OutgoingMessage, after: SessionView, refused: Set<u64>| #[trigger]
            session.broadcasts(message, after, refused) ==> after.same_game(session),
{
}

/// Blocks, kicks, questions, exit info and broadcasts leave what the lobby shows
/// of a session as it is.
pub proof fn lobby_line_stays(
    session: SessionView,
    blocked: Set<Seq<char>>,
    name: Seq<char>,
    minutes: u64,
    now: u128,
    who: Option<Seq<char>>,
    exit_info: ExitInfo,
)
    ensures
        session.with_blocked(blocked).same_line(session),
        session.kicking(name, minutes, now).same_line(session),
        session.asked_about(who, now as int).same_line(session),
        (SessionView { exit_info, ..session }).same_line(session),
        forall|message: OutgoingMessage, after: SessionView, refused: Set<u64>| #[trigger]
            session.broadcasts(message, after, refused) ==> after.same_line(session),
{
    assert(session.with_blocked(blocked).spectators() =~= session.spectators());
    assert(session.kicking(name, minutes, now).spectators() =~= session.spectators());
    assert(session.asked_about(who, now as int).spectators() =~= session.spectators());
    assert((SessionView { exit_info, ..session }).spectators() =~= session.spectators());
    assert forall|message: OutgoingMessage, after: SessionView, refused: Set<u64>| #[trigger]
        session.broadcasts(message, after, refused) implies after.same_line(session) by {
        lemma_broadcast_keeps_watchers(session, message, after, refused);
    }
}

/// While what the lobby shows of a session stays, its entries agree in every
/// field but the idle time.
pub proof fn lobby_entries_agree(
    before: SessionView,
    after: SessionView,
    earlier: LobbyEntry,
    later: LobbyEntry,
)
    requires
        after.same_line(before),
        before.shown_as(earlier),
        after.shown_as(later),
    ensures
        later.id == earlier.id,
        later.username@ == earlier.username@,
        later.spectator_count == earlier.spectator_count,
        later.game_id@ == earlier.game_id@,
        later.xl == earlier.xl,
        later.char == earlier.char,
        later.place == earlier.place,
        later.turn == earlier.turn,
        later.dur == earlier.dur,
        later.god == earlier.god,
        later.title == earlier.title,
        later.milestone == earlier.milestone,
{
}

/// Of two entries, the one that was made on the larger answer of the clock shows
/// no less idle time.
pub proof fn idle_time_grows_with_the_clock(
    earlier: LobbyEntry,
    earlier_nanos: u128,
    later: LobbyEntry,
    later_nanos: u128,
)
    requires
        earlier_nanos <= later_nanos,
        earlier.idle_time == earlier_nanos / NANOS_PER_SEC,
        later.idle_time == later_nanos / NANOS_PER_SEC,
    ensures
        earlier.idle_time <= later.idle_time,
{
}

} // verus!
