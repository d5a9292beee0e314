use webtiles_rs::game::clock::NANOS_PER_SEC;
use webtiles_rs::game::mailbox::OutgoingMessage;
use webtiles_rs::game::session::{
    next_game_id, ExitInfo, GameId, GameSession, Kick, Watcher, WhereInfo, FIRST_GAME_ID,
    WATCHER_QUEUE_CAPACITY,
};
use webtiles_rs::protocol::{LobbyEntry, ServerMessage};

fn session(username: &str, game_config_id: &str) -> GameSession {
    let mut next: GameId = FIRST_GAME_ID;
    GameSession::new(&mut next, username.to_string(), game_config_id.to_string())
}

fn alice() -> GameSession {
    session("alice", "dcss-web-trunk")
}

fn ping() -> OutgoingMessage {
    ServerMessage::Ping.into()
}

#[test]
fn watcher_count_excludes_the_player_and_hidden_chatters() {
    let mut session = alice();
    let (player, _rx1) = Watcher::new(1, Some("alice".to_string()), true, false);
    let (spectator, _rx2) = Watcher::new(2, Some("bob".to_string()), false, false);
    session.add_watcher(player);
    session.add_watcher(spectator);
    assert_eq!(session.watcher_count(), 1);
}

#[test]
fn broadcast_reaches_all_watchers() {
    let mut session = alice();
    let (w1, mut rx1) = Watcher::new(1, Some("alice".to_string()), true, false);
    let (w2, mut rx2) = Watcher::new(2, None, false, false);
    session.add_watcher(w1);
    session.add_watcher(w2);

    let overflowed = session.broadcast(ServerMessage::GameStarted.into());
    assert!(overflowed.is_empty());
    assert_eq!(
        rx1.blocking_recv(),
        Some(OutgoingMessage::Typed(ServerMessage::GameStarted))
    );
    assert_eq!(
        rx2.blocking_recv(),
        Some(OutgoingMessage::Typed(ServerMessage::GameStarted))
    );
}

#[test]
fn full_watcher_queue_is_reported_for_disconnection_not_blocked_on() {
    let mut session = alice();
    let (watcher, mut rx) = Watcher::new(1, None, false, false);
    session.add_watcher(watcher);

    for _ in 0..WATCHER_QUEUE_CAPACITY {
        session.broadcast(ping());
    }
    let overflowed = session.broadcast(ping());
    assert_eq!(overflowed, vec![1]);
    while rx.try_recv().is_ok() {}
}

#[test]
fn block_all_exempts_only_the_player() {
    let mut session = alice();
    session.block("[all]".to_string());
    assert!(session.is_blocked(Some("bob")));
    assert!(!session.is_blocked(Some("alice")));
}

#[test]
fn timed_kick_expires() {
    let mut session = alice();
    session.kick("bob".to_string(), 0); // 0 minutes: expires immediately
    let wait = std::time::Instant::now();
    while wait.elapsed().as_millis() < 5 {}
    assert!(!session.is_blocked(Some("bob")));
}

#[test]
fn lobby_entry_reflects_where_info() {
    let mut session = alice();
    session.set_where_info(WhereInfo {
        xl: Some("5".to_string()),
        char: Some("HuFi".to_string()),
        place: Some("D:3".to_string()),
        ..Default::default()
    });
    let entry = session.lobby_entry();
    assert_eq!(entry.username, "alice");
    assert_eq!(entry.xl.as_deref(), Some("5"));
    assert_eq!(entry.place.as_deref(), Some("D:3"));
}

#[test]
fn queue_capacity_is_512_messages() {
    assert_eq!(WATCHER_QUEUE_CAPACITY, 512);
    let (mut watcher, mut rx) = Watcher::new(1, None, false, false);
    for _ in 0..512 {
        assert!(watcher.try_send(ping()));
    }
    assert!(!watcher.try_send(ping()));
    // room again once one message was read
    assert_eq!(rx.blocking_recv(), Some(ping()));
    assert!(watcher.try_send(ping()));
    assert!(!watcher.try_send(ping()));
}

#[test]
fn messages_arrive_in_the_order_they_were_sent() {
    let (mut watcher, mut rx) = Watcher::new(1, None, false, false);
    assert!(watcher.try_send(OutgoingMessage::Raw("{\"msg\":\"a\"}".to_string())));
    assert!(watcher.try_send(ping()));
    assert!(watcher.try_send(OutgoingMessage::Raw("{\"msg\":\"b\"}".to_string())));
    assert_eq!(rx.try_recv(), Ok(OutgoingMessage::Raw("{\"msg\":\"a\"}".to_string())));
    assert_eq!(rx.try_recv(), Ok(ping()));
    assert_eq!(rx.try_recv(), Ok(OutgoingMessage::Raw("{\"msg\":\"b\"}".to_string())));
    assert!(rx.try_recv().is_err());
}

#[test]
fn a_watcher_whose_reader_is_gone_is_reported_by_every_broadcast() {
    let mut session = alice();
    let (gone, rx) = Watcher::new(7, None, false, false);
    let (here, mut rx_here) = Watcher::new(8, None, false, false);
    session.add_watcher(gone);
    session.add_watcher(here);
    drop(rx);
    assert_eq!(session.broadcast(ping()), vec![7]);
    assert_eq!(session.broadcast(ping()), vec![7]);
    assert_eq!(rx_here.try_recv(), Ok(ping()));
    assert_eq!(rx_here.try_recv(), Ok(ping()));
    assert!(rx_here.try_recv().is_err());
}

#[test]
fn a_full_queue_holds_nobody_else_up() {
    let mut session = alice();
    let (slow, _rx_slow) = Watcher::new(1, None, false, false);
    let (quick, mut rx_quick) = Watcher::new(2, None, false, false);
    session.add_watcher(slow);
    session.add_watcher(quick);
    for _ in 0..WATCHER_QUEUE_CAPACITY {
        assert!(session.broadcast(ping()).is_empty());
        assert_eq!(rx_quick.try_recv(), Ok(ping()));
    }
    assert_eq!(session.broadcast(ping()), vec![1]);
    assert_eq!(rx_quick.try_recv(), Ok(ping()));
}

#[test]
fn broadcast_reports_each_refusing_connection_once() {
    let mut session = alice();
    for id in 0..20 {
        let (watcher, _dropped) = Watcher::new(id, None, false, false);
        session.add_watcher(watcher);
    }
    let mut overflowed = session.broadcast(ping());
    overflowed.sort();
    assert_eq!(overflowed, (0..20).collect::<Vec<u64>>());
    assert_eq!(session.watcher_count(), 20);
}

#[test]
fn a_broadcast_without_watchers_reports_nobody() {
    assert!(alice().broadcast(ping()).is_empty());
}

#[test]
fn new_watchers_carry_what_they_were_given() {
    let (watcher, _rx) = Watcher::new(9, Some("bob".to_string()), false, true);
    assert_eq!(watcher.connection_id, 9);
    assert_eq!(watcher.username.as_deref(), Some("bob"));
    assert!(!watcher.is_player);
    assert!(watcher.is_admin);
    assert!(!watcher.chat_hidden);
}

#[test]
fn hidden_watchers_are_not_counted() {
    let mut session = alice();
    let (mut hidden, _rx1) = Watcher::new(1, None, false, false);
    hidden.chat_hidden = true;
    let (shown, _rx2) = Watcher::new(2, None, false, false);
    session.add_watcher(hidden);
    assert_eq!(session.watcher_count(), 0);
    session.add_watcher(shown);
    assert_eq!(session.watcher_count(), 1);
}

#[test]
fn watchers_leave_and_are_replaced() {
    let mut session = alice();
    let (first, mut rx_first) = Watcher::new(4, None, false, false);
    session.add_watcher(first);
    let (second, mut rx_second) = Watcher::new(4, None, false, false);
    session.add_watcher(second);
    assert_eq!(session.watcher_count(), 1);
    session.broadcast(ping());
    assert!(rx_first.try_recv().is_err());
    assert_eq!(rx_second.try_recv(), Ok(ping()));
    session.remove_watcher(5);
    assert_eq!(session.watcher_count(), 1);
    session.remove_watcher(4);
    assert_eq!(session.watcher_count(), 0);
    assert!(session.broadcast(ping()).is_empty());
}

#[test]
fn block_all_keeps_out_anonymous_visitors_and_spares_a_kicked_player() {
    let mut session = alice();
    session.kick_at("alice".to_string(), 10, 0);
    assert!(session.is_blocked_at(Some("alice"), 1));
    session.block("[all]".to_string());
    assert!(!session.is_blocked_at(Some("alice"), 1));
    assert!(session.is_blocked_at(None, 1));
}

#[test]
fn block_anon_concerns_only_anonymous_visitors() {
    let mut session = alice();
    assert!(!session.is_blocked(None));
    session.block("[anon]".to_string());
    assert!(session.is_blocked(None));
    assert!(!session.is_blocked(Some("bob")));
    session.unblock("[anon]");
    assert!(!session.is_blocked(None));
}

#[test]
fn a_name_is_blocked_until_it_is_unblocked() {
    let mut session = alice();
    session.block("bob".to_string());
    assert!(session.is_blocked(Some("bob")));
    assert!(!session.is_blocked(Some("carol")));
    assert!(!session.is_blocked(None));
    session.unblock("carol");
    assert!(session.is_blocked(Some("bob")));
    session.unblock("bob");
    assert!(!session.is_blocked(Some("bob")));
}

#[test]
fn a_kick_lasts_exactly_its_minutes() {
    let mut session = alice();
    let start: u128 = 5 * NANOS_PER_SEC;
    session.kick_at("bob".to_string(), 2, start);
    let end = start + 120_000_000_000;
    assert!(session.is_blocked_at(Some("bob"), start));
    assert!(session.is_blocked_at(Some("bob"), end - 1));
    assert!(!session.is_blocked_at(Some("carol"), start));
    assert!(!session.is_blocked_at(None, start));
    assert!(!session.is_blocked_at(Some("bob"), end));
    assert!(!session.is_blocked_at(Some("bob"), end + 1));
}

#[test]
fn an_expired_kick_is_forgotten() {
    let mut session = alice();
    session.kick_at("bob".to_string(), 1, 0);
    assert!(!session.is_blocked_at(Some("bob"), 60 * NANOS_PER_SEC));
    // the kick is gone, also for a clock that reads less
    assert!(!session.is_blocked_at(Some("bob"), 0));
}

#[test]
fn a_kick_is_not_forgotten_while_all_are_blocked() {
    let mut session = alice();
    session.kick_at("bob".to_string(), 1, 0);
    session.block("[all]".to_string());
    assert!(session.is_blocked_at(Some("bob"), 60 * NANOS_PER_SEC));
    session.unblock("[all]");
    assert!(session.is_blocked_at(Some("bob"), 1));
}

#[test]
fn a_block_outlasts_a_kick() {
    let mut session = alice();
    session.block("bob".to_string());
    session.kick_at("bob".to_string(), 1, 0);
    assert!(session.is_blocked_at(Some("bob"), 3600 * NANOS_PER_SEC));
}

#[test]
fn a_later_kick_replaces_an_earlier_one() {
    let mut session = alice();
    session.kick_at("bob".to_string(), 60, 0);
    session.kick_at("bob".to_string(), 0, 1);
    assert!(!session.is_blocked_at(Some("bob"), 2));
}

#[test]
fn kicks_count_from_the_moment_they_are_made() {
    let mut session = alice();
    session.kick("bob".to_string(), 1);
    assert!(session.is_blocked(Some("bob")));
}

#[test]
fn a_kick_that_lies_ahead_has_not_begun_to_run() {
    let kick = Kick { kicked_at: 100, interval_secs: 1 };
    assert!(kick.is_active_at(0));
    assert!(kick.is_active_at(100));
    assert!(kick.is_active_at(100 + NANOS_PER_SEC - 1));
    assert!(!kick.is_active_at(100 + NANOS_PER_SEC));
    let none = Kick { kicked_at: 100, interval_secs: 0 };
    assert!(!none.is_active_at(0));
}

#[test]
fn the_longest_kick_is_held() {
    let mut session = alice();
    session.kick_at("bob".to_string(), u64::MAX / 60, 0);
    assert!(session.is_blocked_at(Some("bob"), (u64::MAX as u128 - 60) * NANOS_PER_SEC));
}

#[test]
fn game_ids_count_up_and_start_over() {
    let mut next: GameId = FIRST_GAME_ID;
    assert_eq!(next_game_id(&mut next), 1);
    assert_eq!(next_game_id(&mut next), 2);
    let third = GameSession::new(&mut next, "a".to_string(), "b".to_string());
    assert_eq!(third.id, 3);
    assert_eq!(next, 4);
    let mut last: GameId = u64::MAX;
    assert_eq!(next_game_id(&mut last), u64::MAX);
    assert_eq!(last, 0);
}

#[test]
fn exit_info_is_what_was_set_last() {
    let mut session = alice();
    let blank = session.exit_info();
    assert!(blank.reason.is_none() && blank.message.is_none() && blank.dump_url.is_none());
    session.set_exit_info(ExitInfo {
        reason: Some("quit".to_string()),
        message: None,
        dump_url: Some("http://example.org/dump".to_string()),
    });
    let info = session.exit_info();
    assert_eq!(info.reason.as_deref(), Some("quit"));
    assert_eq!(info.message, None);
    assert_eq!(info.dump_url.as_deref(), Some("http://example.org/dump"));
}

#[test]
fn a_lobby_entry_shows_the_whole_session() {
    let mut session = session("carol", "dcss-web-0.32");
    let (watcher, _rx) = Watcher::new(1, None, false, false);
    session.add_watcher(watcher);
    session.set_where_info(WhereInfo {
        xl: Some("27".to_string()),
        char: Some("MiBe".to_string()),
        place: Some("Zot:5".to_string()),
        turn: Some("90000".to_string()),
        dur: Some("7200".to_string()),
        god: Some("Trog".to_string()),
        title: Some("Conqueror".to_string()),
    });
    session.set_last_milestone(Some("found the Orb".to_string()));
    assert_eq!(
        session.lobby_entry_idle_for(42),
        LobbyEntry {
            id: 1,
            username: "carol".to_string(),
            spectator_count: 1,
            idle_time: 42,
            game_id: "dcss-web-0.32".to_string(),
            xl: Some("27".to_string()),
            char: Some("MiBe".to_string()),
            place: Some("Zot:5".to_string()),
            turn: Some("90000".to_string()),
            dur: Some("7200".to_string()),
            god: Some("Trog".to_string()),
            title: Some("Conqueror".to_string()),
            milestone: Some("found the Orb".to_string()),
        }
    );
}

#[test]
fn a_new_session_shows_an_empty_lobby_line() {
    let entry = alice().lobby_entry();
    assert_eq!(entry.game_id, "dcss-web-trunk");
    assert_eq!(entry.spectator_count, 0);
    assert_eq!(entry.milestone, None);
    assert_eq!(entry.xl, None);
}

#[test]
fn idle_time_follows_the_clock() {
    let session = alice();
    let first = session.idle_time();
    let wait = std::time::Instant::now();
    while wait.elapsed().as_millis() < 2 {}
    let second = session.idle_time();
    assert!(second >= first + 2_000_000);
    assert!(session.lobby_entry().idle_time < 20);
}

#[test]
fn moderation_and_broadcasts_leave_the_lobby_line_alone() {
    let mut session = alice();
    let (watcher, _rx) = Watcher::new(1, None, false, false);
    session.add_watcher(watcher);
    session.set_last_milestone(Some("entered the Lair".to_string()));
    let before = session.lobby_entry_idle_for(3);
    let started_at = session.started_at;
    session.block("bob".to_string());
    session.unblock("carol");
    session.kick("dave".to_string(), 1);
    session.is_blocked(Some("dave"));
    session.set_exit_info(ExitInfo::default());
    session.broadcast(ping());
    assert_eq!(session.lobby_entry_idle_for(3), before);
    assert_eq!(session.started_at, started_at);
}

#[test]
fn broadcasts_are_read_in_the_order_they_were_made() {
    let mut session = alice();
    let (watcher, mut rx) = Watcher::new(1, None, false, false);
    session.add_watcher(watcher);
    assert!(session.broadcast(ServerMessage::GameStarted.into()).is_empty());
    assert!(session.broadcast(ping()).is_empty());
    assert_eq!(rx.try_recv(), Ok(ServerMessage::GameStarted.into()));
    assert_eq!(rx.try_recv(), Ok(ping()));
    assert!(rx.try_recv().is_err());
}

#[test]
fn two_watchers_have_queues_of_their_own() {
    let (mut w1, mut rx1) = Watcher::new(1, None, true, true);
    let (mut w2, mut rx2) = Watcher::new(1, None, true, true);
    assert!(!w1.chat_hidden && !w2.chat_hidden);
    for _ in 0..WATCHER_QUEUE_CAPACITY {
        assert!(w1.try_send(ping()));
    }
    assert!(!w1.try_send(ping()));
    assert!(rx2.try_recv().is_err());
    assert!(w2.try_send(ServerMessage::GameStarted.into()));
    assert_eq!(rx2.try_recv(), Ok(ServerMessage::GameStarted.into()));
    drop(rx2);
    assert!(!w2.try_send(ping()));
    assert_eq!(rx1.try_recv(), Ok(ping()));
    assert!(w1.try_send(ping()));
}

#[test]
fn a_full_queue_that_nobody_reads_is_reported_again() {
    let mut session = alice();
    let (watcher, _rx) = Watcher::new(1, None, false, false);
    session.add_watcher(watcher);
    for _ in 0..WATCHER_QUEUE_CAPACITY {
        assert!(session.broadcast(ping()).is_empty());
    }
    assert_eq!(session.broadcast(ping()), vec![1]);
    assert_eq!(session.broadcast(ping()), vec![1]);
    assert_eq!(session.watcher_count(), 1);
}
