use deathroll::game_server::{Command, GameServer};
use deathroll::player::{ChannelId, PlayerId};
use deathroll::protocol::{GameMessage, Outbound};

const MAGE: &str = "\u{1F9D9}\u{200D}\u{2642}\u{FE0F}";
const ZOMBIE: &str = "\u{1F9DF}";
const DIE: &str = "\u{1F3B2}";
const SKULL: &str = "\u{1F480}";
const CUP: &str = "\u{1F3C6}";

const ALICE: PlayerId = PlayerId(0xA11CE);
const BOB: PlayerId = PlayerId(0xB0B);
const CAROL: PlayerId = PlayerId(0xCA201);

fn room() -> String {
    "k3Fq9_xZ".to_string()
}

fn frames(out: &[Outbound]) -> Vec<(u64, String)> {
    out.iter().map(|o| (o.channel.0, o.message.encode())).collect()
}

fn status(text: String) -> String {
    GameMessage::Status(text).encode()
}

fn two_players(bound: u32) -> GameServer {
    let mut server = GameServer::new();
    server.connect(ChannelId(1), room(), ALICE, bound);
    server.connect(ChannelId(2), room(), BOB, 0);
    server
}

fn running(bound: u32) -> GameServer {
    let mut server = two_players(bound);
    server.resolve_turn(ALICE, &room(), 1);
    server
}

#[test]
fn new_server_is_empty() {
    let server = GameServer::new();
    assert!(server.room(&room()).is_none());
    assert!(server.members(&room()).is_empty());
    assert!(server.channels(ALICE).is_empty());
}

#[test]
fn first_connect_opens_the_room() {
    let mut server = GameServer::new();
    let out = server.connect(ChannelId(1), room(), ALICE, 100);
    assert_eq!(
        frames(&out),
        vec![(1, "\"P1Join\"".to_string()), (1, "{\"StartRoll\":\"100\"}".to_string())]
    );
    let state = server.room(&room()).unwrap();
    assert_eq!(state.player_one(), ALICE);
    assert_eq!(state.player_two(), None);
    assert_eq!(state.turn_holder(), ALICE);
    assert_eq!(state.starting_player(), ALICE);
    assert_eq!(state.current_bound(), 100);
    assert_eq!(state.initial_bound(), 100);
    assert!(!state.started());
    assert!(!state.over());
    assert_eq!(server.members(&room()), vec![ALICE]);
    assert_eq!(server.channels(ALICE), vec![ChannelId(1)]);
}

#[test]
fn connect_without_recorded_bound_finds_no_game() {
    let mut server = GameServer::new();
    let out = server.connect(ChannelId(1), room(), ALICE, 0);
    assert_eq!(frames(&out), vec![(1, "\"NoGameFound\"".to_string())]);
    assert!(server.room(&room()).is_none());
    assert_eq!(server.members(&room()), vec![ALICE]);
    assert_eq!(server.channels(ALICE), vec![ChannelId(1)]);
}

#[test]
fn second_player_joins() {
    let mut server = GameServer::new();
    server.connect(ChannelId(1), room(), ALICE, 100);
    let out = server.connect(ChannelId(2), room(), BOB, 55);
    assert_eq!(
        frames(&out),
        vec![(2, "\"P2Join\"".to_string()), (2, "{\"StartRoll\":\"100\"}".to_string())]
    );
    let state = server.room(&room()).unwrap();
    assert_eq!(state.player_two(), Some(BOB));
    assert_eq!(state.initial_bound(), 100);
    assert_eq!(server.members(&room()), vec![ALICE, BOB]);
}

#[test]
fn lone_roller_is_reminded_and_nothing_happens() {
    let mut server = GameServer::new();
    server.connect(ChannelId(1), room(), ALICE, 100);
    let out = server.new_turn(ALICE, room());
    assert_eq!(
        frames(&out),
        vec![(1, status(format!("{MAGE} {DIE} waiting for {ZOMBIE} to join")))]
    );
    let state = server.room(&room()).unwrap();
    assert_eq!(state.current_bound(), 100);
    assert!(!state.started());
    assert!(!state.over());
    assert!(state.feed().is_empty());
    assert_eq!(state.score_p1() + state.score_p2(), 0);
}

#[test]
fn turn_for_unknown_room_is_ignored() {
    let mut server = GameServer::new();
    server.connect(ChannelId(1), room(), ALICE, 0);
    let out = server.new_turn(ALICE, room());
    assert!(out.is_empty());
    let out = server.resolve_turn(ALICE, &"other".to_string(), 3);
    assert!(out.is_empty());
    assert!(server.room(&room()).is_none());
}

#[test]
fn forced_rolls_reach_every_tab_and_the_room() {
    let mut server = running(10);
    server.connect(ChannelId(3), room(), BOB, 0);
    let out = server.resolve_turn(ALICE, &room(), 7);
    let feed = format!("{{\"GameScore\":{{\"client_feed\":[\"{MAGE} 7 {DIE} (1-10)\"]}}}}");
    assert_eq!(
        frames(&out),
        vec![
            (1, status(format!("{MAGE} {DIE} 7"))),
            (2, status(format!("{ZOMBIE} {DIE} It's your roll!"))),
            (3, status(format!("{ZOMBIE} {DIE} It's your roll!"))),
            (1, feed.clone()),
            (2, feed.clone()),
            (3, feed.clone()),
        ]
    );
    let out = server.resolve_turn(BOB, &room(), 3);
    assert_eq!(out.len(), 6);
    assert_eq!(out[0].channel, ChannelId(2));
    assert_eq!(out[1].channel, ChannelId(3));
    assert_eq!(out[2].channel, ChannelId(1));
    let out = server.resolve_turn(ALICE, &room(), 1);
    let feed = format!(
        "{{\"GameScore\":{{\"client_feed\":[\"{MAGE} 7 {DIE} (1-10)\",\"{ZOMBIE} 3 {DIE} (1-7)\",\"{MAGE} 1 {SKULL} (1-3) {MAGE} {CUP} 0 {ZOMBIE} {CUP} 1\"]}}}}"
    );
    assert_eq!(
        frames(&out),
        vec![
            (1, format!("{{\"GameOver\":\"{MAGE} {SKULL}\"}}")),
            (2, format!("{{\"GameOver\":\"{ZOMBIE} {CUP}\"}}")),
            (3, format!("{{\"GameOver\":\"{ZOMBIE} {CUP}\"}}")),
            (1, feed.clone()),
            (2, feed.clone()),
            (3, feed.clone()),
        ]
    );
    let state = server.room(&room()).unwrap();
    assert!(state.over());
    assert_eq!(state.score_p1(), 0);
    assert_eq!(state.score_p2(), 1);
    assert_eq!(state.feed().len(), 3);
}

#[test]
fn spectator_watches_and_cannot_roll() {
    let mut server = running(10);
    server.resolve_turn(ALICE, &room(), 7);
    let out = server.connect(ChannelId(9), room(), CAROL, 0);
    assert_eq!(
        frames(&out),
        vec![
            (9, "\"Spectate\"".to_string()),
            (9, format!("{{\"GameScore\":{{\"client_feed\":[\"{MAGE} 7 {DIE} (1-10)\"]}}}}")),
            (9, "{\"StartRoll\":\"10\"}".to_string()),
        ]
    );
    assert_eq!(server.members(&room()), vec![ALICE, BOB, CAROL]);
    let out = server.new_turn(CAROL, room());
    assert_eq!(frames(&out), vec![(9, "\"Spectate\"".to_string())]);
    let state = server.room(&room()).unwrap();
    assert_eq!(state.current_bound(), 7);
    assert_eq!(state.turn_holder(), BOB);
    assert_eq!(state.player_two(), Some(BOB));
    assert_eq!(state.feed().len(), 1);
    let out = server.resolve_turn(BOB, &room(), 2);
    assert_eq!(out.len(), 5);
    assert_eq!(out[4].channel, ChannelId(9));
    assert!(matches!(out[4].message, GameMessage::GameScore(_)));
}

#[test]
fn reconnect_keeps_turn_bound_and_scores() {
    let mut server = running(10);
    server.resolve_turn(ALICE, &room(), 7);
    server.disconnect(BOB);
    assert!(server.channels(BOB).is_empty());
    assert_eq!(server.members(&room()), vec![ALICE]);
    let out = server.connect(ChannelId(5), room(), BOB, 0);
    assert_eq!(
        frames(&out),
        vec![
            (5, "\"Reconnect\"".to_string()),
            (5, status(format!("{ZOMBIE} {DIE}"))),
            (5, format!("{{\"GameScore\":{{\"client_feed\":[\"{MAGE} 7 {DIE} (1-10)\"]}}}}")),
            (5, "{\"StartRoll\":\"10\"}".to_string()),
        ]
    );
    let state = server.room(&room()).unwrap();
    assert_eq!(state.turn_holder(), BOB);
    assert_eq!(state.current_bound(), 7);
    assert_eq!(state.score_p1(), 0);
    assert_eq!(state.score_p2(), 0);
    assert_eq!(state.player_two(), Some(BOB));
    assert_eq!(server.members(&room()), vec![ALICE, BOB]);
}

#[test]
fn duplicate_connect_adds_a_tab_but_no_member_and_no_seat() {
    let mut server = two_players(10);
    server.connect(ChannelId(7), room(), ALICE, 10);
    server.connect(ChannelId(8), room(), BOB, 10);
    assert_eq!(server.members(&room()), vec![ALICE, BOB]);
    assert_eq!(server.channels(ALICE), vec![ChannelId(1), ChannelId(7)]);
    assert_eq!(server.channels(BOB), vec![ChannelId(2), ChannelId(8)]);
    let state = server.room(&room()).unwrap();
    assert_eq!(state.player_one(), ALICE);
    assert_eq!(state.player_two(), Some(BOB));
}

#[test]
fn message_to_offline_player_is_dropped() {
    let mut server = running(10);
    server.disconnect(BOB);
    let out = server.resolve_turn(ALICE, &room(), 4);
    assert_eq!(out.len(), 2);
    assert_eq!(out[0].channel, ChannelId(1));
    assert_eq!(out[1].channel, ChannelId(1));
    let state = server.room(&room()).unwrap();
    assert_eq!(state.turn_holder(), BOB);
    assert_eq!(state.current_bound(), 4);
    assert!(server.send_status_message(BOB, &GameMessage::Pong).is_empty());
}

#[test]
fn disconnect_leaves_every_room_of_the_player() {
    let mut server = two_players(10);
    server.connect(ChannelId(3), "second".to_string(), BOB, 20);
    server.connect(ChannelId(4), "second".to_string(), CAROL, 0);
    assert_eq!(server.members(&"second".to_string()), vec![BOB, CAROL]);
    let out = server.handle(Command::Disconnect { player_id: BOB });
    assert!(out.is_empty());
    assert_eq!(server.members(&room()), vec![ALICE]);
    assert_eq!(server.members(&"second".to_string()), vec![CAROL]);
    assert!(server.channels(BOB).is_empty());
    assert_eq!(server.room(&"second".to_string()).unwrap().player_one(), BOB);
    assert_eq!(server.room(&room()).unwrap().player_two(), Some(BOB));
    server.disconnect(BOB);
    assert_eq!(server.members(&room()), vec![ALICE]);
}

#[test]
fn rooms_do_not_touch_each_other() {
    let mut server = running(10);
    server.connect(ChannelId(11), "second".to_string(), CAROL, 50);
    server.resolve_turn(ALICE, &room(), 5);
    let second = server.room(&"second".to_string()).unwrap();
    assert_eq!(second.current_bound(), 50);
    assert_eq!(second.player_one(), CAROL);
    assert_eq!(server.room(&room()).unwrap().current_bound(), 5);
    assert!(server.room(&"k3Fq9".to_string()).is_none());
}

#[test]
fn rematch_tells_the_room_and_both_seats() {
    let mut server = running(10);
    server.resolve_turn(ALICE, &room(), 1);
    let out = server.new_turn(BOB, room());
    let feed = "{\"GameScore\":{\"client_feed\":[\"New Game \u{2694}\u{FE0F} 10\"]}}".to_string();
    assert_eq!(
        frames(&out),
        vec![
            (1, feed.clone()),
            (2, feed.clone()),
            (2, status(format!("{ZOMBIE} {DIE} roll to start"))),
            (1, status(format!("{MAGE} {DIE} waiting for {ZOMBIE} to roll"))),
        ]
    );
    let state = server.room(&room()).unwrap();
    assert_eq!(state.starting_player(), BOB);
    assert_eq!(state.turn_holder(), BOB);
    assert_eq!(state.current_bound(), 10);
    assert!(!state.over());
    assert!(!state.started());
    assert_eq!(state.score_p2(), 1);
}

#[test]
fn drawn_rolls_stay_within_the_bound() {
    for _ in 0..200 {
        let mut server = running(6);
        let mut bound = 6;
        let mut holder = ALICE;
        let mut turns = 0;
        loop {
            turns += 1;
            assert!(turns <= 1000, "the round does not end");
            let out = server.handle(Command::Turn { player_id: holder, game_id: room() });
            let state = server.room(&room()).unwrap();
            assert!(1 <= state.current_bound() && state.current_bound() <= bound);
            assert_eq!(out.len(), 4);
            if state.over() {
                assert_eq!(state.current_bound(), 1);
                assert_eq!(state.score_p1() + state.score_p2(), 1);
                assert_eq!(state.turn_holder(), holder);
                break;
            }
            assert!(state.current_bound() >= 2);
            bound = state.current_bound();
            assert_ne!(state.turn_holder(), holder);
            holder = state.turn_holder();
        }
    }
}

#[test]
fn die_shows_every_face() {
    let mut seen = [false; 3];
    for _ in 0..400 {
        let mut server = running(3);
        server.new_turn(ALICE, room());
        let bound = server.room(&room()).unwrap().current_bound();
        seen[(bound - 1) as usize] = true;
    }
    assert_eq!(seen, [true, true, true]);
}

#[test]
fn bound_one_always_ends_the_round() {
    let mut server = running(1);
    server.new_turn(ALICE, room());
    let state = server.room(&room()).unwrap();
    assert!(state.over());
    assert_eq!(state.score_p2(), 1);
}

#[test]
fn handle_connect_is_connect() {
    let mut server = GameServer::new();
    let out = server.handle(Command::Connect {
        channel: ChannelId(1),
        game_id: room(),
        player_id: ALICE,
        start_roll: 42,
    });
    assert_eq!(out.len(), 2);
    assert_eq!(server.room(&room()).unwrap().current_bound(), 42);
}

#[test]
fn update_game_feed_reaches_every_member() {
    let mut server = running(10);
    server.resolve_turn(ALICE, &room(), 7);
    let out = server.update_game_feed(&room());
    let feed = format!("{{\"GameScore\":{{\"client_feed\":[\"{MAGE} 7 {DIE} (1-10)\"]}}}}");
    assert_eq!(frames(&out), vec![(1, feed.clone()), (2, feed)]);
    assert!(server.update_game_feed(&"nowhere".to_string()).is_empty());
}
