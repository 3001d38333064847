use deathroll::player::{PlayerId, Seat};
use deathroll::protocol::{GameMessage, Notice};
use deathroll::room::{GameState, TurnKind};

const MAGE: &str = "\u{1F9D9}\u{200D}\u{2642}\u{FE0F}";
const ZOMBIE: &str = "\u{1F9DF}";
const DIE: &str = "\u{1F3B2}";
const SKULL: &str = "\u{1F480}";
const CUP: &str = "\u{1F3C6}";

const FIRST: PlayerId = PlayerId(1);
const SECOND: PlayerId = PlayerId(2);
const THIRD: PlayerId = PlayerId(3);

fn full_room(bound: u32) -> GameState {
    let mut room = GameState::open(FIRST, bound).unwrap();
    room.connect(SECOND);
    room
}

fn running_room(bound: u32) -> GameState {
    let mut room = full_room(bound);
    room.turn(FIRST, 1);
    room
}

fn to(notice: &Notice) -> PlayerId {
    match notice {
        Notice::To(player, _) => *player,
        Notice::Feed => panic!("a notice to the whole room"),
    }
}

fn status(notice: &Notice) -> String {
    match notice {
        Notice::To(_, GameMessage::Status(text)) => text.clone(),
        other => panic!("no status: {:?}", other),
    }
}

fn start_game(notice: &Notice) -> String {
    match notice {
        Notice::To(_, GameMessage::StartGame(text)) => text.clone(),
        other => panic!("no start: {:?}", other),
    }
}

fn game_over(notice: &Notice) -> String {
    match notice {
        Notice::To(_, GameMessage::GameOver(text)) => text.clone(),
        other => panic!("no game over: {:?}", other),
    }
}

fn own_feed(notice: &Notice) -> Vec<String> {
    match notice {
        Notice::To(_, GameMessage::GameScore(score)) => score.client_feed.clone(),
        other => panic!("no feed for a player: {:?}", other),
    }
}

fn start_roll(notice: &Notice) -> String {
    match notice {
        Notice::To(_, GameMessage::StartRoll(text)) => text.clone(),
        other => panic!("no start roll: {:?}", other),
    }
}

#[test]
fn no_room_with_bound_zero() {
    assert!(GameState::open(FIRST, 0).is_none());
}

#[test]
fn opened_room_waits_for_an_opponent() {
    let room = GameState::open(FIRST, 100).unwrap();
    assert_eq!(room.current_bound(), 100);
    assert_eq!(room.initial_bound(), 100);
    assert_eq!(room.player_one(), FIRST);
    assert_eq!(room.player_two(), None);
    assert_eq!(room.turn_holder(), FIRST);
    assert_eq!(room.starting_player(), FIRST);
    assert!(!room.started());
    assert!(!room.over());
    assert_eq!(room.score_p1(), 0);
    assert_eq!(room.score_p2(), 0);
    assert!(room.feed().is_empty());
}

#[test]
fn welcome_shows_seat_and_bound() {
    let list = GameState::welcome(FIRST, 100);
    assert_eq!(list.len(), 2);
    assert!(matches!(list[0], Notice::To(FIRST, GameMessage::P1Join)));
    assert_eq!(start_roll(&list[1]), "100");
    assert_eq!(to(&list[1]), FIRST);
}

#[test]
fn second_identity_takes_the_second_seat() {
    let mut room = GameState::open(FIRST, 100).unwrap();
    let list = room.connect(SECOND);
    assert_eq!(room.player_two(), Some(SECOND));
    assert_eq!(room.seat_of(SECOND), Some(Seat::Two));
    assert!(!room.started());
    assert_eq!(room.turn_holder(), FIRST);
    assert_eq!(list.len(), 2);
    assert!(matches!(list[0], Notice::To(SECOND, GameMessage::P2Join)));
    assert_eq!(start_roll(&list[1]), "100");
}

#[test]
fn roll_before_opponent_joins_is_ignored() {
    let mut room = GameState::open(FIRST, 100).unwrap();
    assert_eq!(room.turn_kind(FIRST), TurnKind::NoOpponent);
    let list = room.turn(FIRST, 1);
    assert_eq!(room.current_bound(), 100);
    assert!(1 <= room.current_bound() && room.current_bound() <= 100);
    assert!(!room.started());
    assert!(!room.over());
    assert_eq!(room.score_p1(), 0);
    assert_eq!(room.score_p2(), 0);
    assert!(room.feed().is_empty());
    assert_eq!(list.len(), 1);
    assert_eq!(to(&list[0]), FIRST);
    assert_eq!(status(&list[0]), format!("{MAGE} {DIE} waiting for {ZOMBIE} to join"));
}

#[test]
fn opener_begins_the_round() {
    let mut room = full_room(10);
    assert_eq!(room.turn_kind(FIRST), TurnKind::Opening);
    let list = room.turn(FIRST, 5);
    assert!(room.started());
    assert_eq!(room.current_bound(), 10);
    assert_eq!(room.turn_holder(), FIRST);
    assert!(room.feed().is_empty());
    assert_eq!(list.len(), 2);
    assert_eq!(to(&list[0]), SECOND);
    assert_eq!(start_game(&list[0]), format!("{ZOMBIE} {DIE} waiting for {MAGE} to roll"));
    assert_eq!(to(&list[1]), FIRST);
    assert_eq!(start_game(&list[1]), format!("{MAGE} {DIE} roll to start"));
}

#[test]
fn other_seat_is_told_to_wait_before_the_first_roll() {
    let mut room = full_room(10);
    assert_eq!(room.turn_kind(SECOND), TurnKind::Waiting);
    let list = room.turn(SECOND, 5);
    assert!(!room.started());
    assert_eq!(room.current_bound(), 10);
    assert_eq!(list.len(), 2);
    assert_eq!(to(&list[0]), SECOND);
    assert_eq!(start_game(&list[0]), format!("{ZOMBIE} {DIE} waiting for {MAGE} to roll"));
    assert_eq!(to(&list[1]), FIRST);
    assert_eq!(start_game(&list[1]), format!("{MAGE} {DIE} roll to start"));
}

#[test]
fn roll_above_one_shrinks_bound_and_passes_turn() {
    let mut room = running_room(10);
    assert_eq!(room.turn_kind(FIRST), TurnKind::Roll);
    let list = room.turn(FIRST, 7);
    assert_eq!(room.current_bound(), 7);
    assert_eq!(room.turn_holder(), SECOND);
    assert!(!room.over());
    assert_eq!(room.feed().clone(), vec![format!("{MAGE} 7 {DIE} (1-10)")]);
    assert_eq!(list.len(), 3);
    assert_eq!(to(&list[0]), FIRST);
    assert_eq!(status(&list[0]), format!("{MAGE} {DIE} 7"));
    assert_eq!(to(&list[1]), SECOND);
    assert_eq!(status(&list[1]), format!("{ZOMBIE} {DIE} It's your roll!"));
    assert!(matches!(list[2], Notice::Feed));
}

#[test]
fn forced_rolls_seven_three_one() {
    let mut room = running_room(10);
    room.turn(FIRST, 7);
    assert_eq!(room.turn_holder(), SECOND);
    room.turn(SECOND, 3);
    assert_eq!(room.turn_holder(), FIRST);
    assert_eq!(room.current_bound(), 3);
    let list = room.turn(FIRST, 1);
    assert!(room.over());
    assert_eq!(room.current_bound(), 1);
    assert_eq!(room.score_p1(), 0);
    assert_eq!(room.score_p2(), 1);
    let feed = room.feed().clone();
    assert_eq!(feed.len(), 3);
    assert_eq!(feed[0], format!("{MAGE} 7 {DIE} (1-10)"));
    assert_eq!(feed[1], format!("{ZOMBIE} 3 {DIE} (1-7)"));
    assert_eq!(feed[2], format!("{MAGE} 1 {SKULL} (1-3) {MAGE} {CUP} 0 {ZOMBIE} {CUP} 1"));
    assert_eq!(list.len(), 3);
    assert_eq!(to(&list[0]), FIRST);
    assert_eq!(game_over(&list[0]), format!("{MAGE} {SKULL}"));
    assert_eq!(to(&list[1]), SECOND);
    assert_eq!(game_over(&list[1]), format!("{ZOMBIE} {CUP}"));
    assert!(matches!(list[2], Notice::Feed));
}

#[test]
fn second_seat_rolling_one_scores_for_the_first() {
    let mut room = running_room(10);
    room.turn(FIRST, 4);
    let list = room.turn(SECOND, 1);
    assert!(room.over());
    assert_eq!(room.score_p1(), 1);
    assert_eq!(room.score_p2(), 0);
    assert_eq!(
        room.feed()[1],
        format!("{ZOMBIE} 1 {SKULL} (1-4) {MAGE} {CUP} 1 {ZOMBIE} {CUP} 0")
    );
    assert_eq!(to(&list[0]), SECOND);
    assert_eq!(game_over(&list[0]), format!("{ZOMBIE} {SKULL}"));
    assert_eq!(to(&list[1]), FIRST);
    assert_eq!(game_over(&list[1]), format!("{MAGE} {CUP}"));
}

#[test]
fn out_of_turn_request_changes_nothing() {
    let mut room = running_room(10);
    room.turn(FIRST, 7);
    assert_eq!(room.turn_kind(FIRST), TurnKind::OutOfTurn);
    let list = room.turn(FIRST, 2);
    assert_eq!(room.current_bound(), 7);
    assert_eq!(room.turn_holder(), SECOND);
    assert_eq!(room.feed().len(), 1);
    assert_eq!(list.len(), 1);
    assert_eq!(to(&list[0]), FIRST);
    assert_eq!(status(&list[0]), format!("{MAGE} {DIE} waiting for {ZOMBIE} to roll"));
}

#[test]
fn rematch_alternates_the_opener() {
    let mut room = running_room(10);
    room.turn(FIRST, 1);
    assert!(room.over());
    assert_eq!(room.starting_player(), FIRST);
    assert_eq!(room.turn_kind(FIRST), TurnKind::Rematch);
    let list = room.turn(FIRST, 9);
    assert_eq!(room.starting_player(), SECOND);
    assert_eq!(room.turn_holder(), SECOND);
    assert_eq!(room.current_bound(), 10);
    assert_eq!(room.initial_bound(), 10);
    assert!(!room.started());
    assert!(!room.over());
    assert_eq!(room.score_p1(), 0);
    assert_eq!(room.score_p2(), 1);
    assert_eq!(room.feed().clone(), vec!["New Game \u{2694}\u{FE0F} 10".to_string()]);
    assert_eq!(list.len(), 3);
    assert!(matches!(list[0], Notice::Feed));
    assert_eq!(to(&list[1]), SECOND);
    assert_eq!(status(&list[1]), format!("{ZOMBIE} {DIE} roll to start"));
    assert_eq!(to(&list[2]), FIRST);
    assert_eq!(status(&list[2]), format!("{MAGE} {DIE} waiting for {ZOMBIE} to roll"));
}

#[test]
fn second_rematch_returns_to_the_first_opener() {
    let mut room = running_room(10);
    room.turn(FIRST, 1);
    room.turn(SECOND, 1);
    assert_eq!(room.starting_player(), SECOND);
    let list = room.turn(SECOND, 1);
    assert!(room.started());
    assert_eq!(start_game(&list[0]), format!("{MAGE} {DIE} waiting for {ZOMBIE} to roll"));
    assert_eq!(to(&list[0]), FIRST);
    assert_eq!(start_game(&list[1]), format!("{ZOMBIE} {DIE} roll to start"));
    assert_eq!(to(&list[1]), SECOND);
    room.turn(SECOND, 1);
    assert!(room.over());
    assert_eq!(room.score_p1(), 1);
    assert_eq!(room.score_p2(), 1);
    room.turn(FIRST, 1);
    assert_eq!(room.starting_player(), FIRST);
    assert_eq!(room.turn_holder(), FIRST);
    assert_eq!(room.current_bound(), 10);
}

#[test]
fn scores_count_the_completed_rounds() {
    let mut room = running_room(6);
    let mut completed: u32 = 0;
    let mut last_p1 = 0;
    let mut last_p2 = 0;
    for round in 0..5 {
        let holder = room.turn_holder();
        if round % 2 == 0 {
            room.turn(holder, 3);
            let next = room.turn_holder();
            room.turn(next, 1);
        } else {
            room.turn(holder, 1);
        }
        completed += 1;
        assert!(room.over());
        assert!(room.score_p1() >= last_p1);
        assert!(room.score_p2() >= last_p2);
        last_p1 = room.score_p1();
        last_p2 = room.score_p2();
        assert_eq!(room.score_p1() + room.score_p2(), completed);
        room.turn(FIRST, 1);
        assert_eq!(room.score_p1() + room.score_p2(), completed);
        let opener = room.starting_player();
        room.turn(opener, 1);
        assert!(room.started());
    }
    assert_eq!(completed, 5);
}

#[test]
fn reconnect_changes_nothing() {
    let mut room = running_room(10);
    room.turn(FIRST, 7);
    let list = room.connect(SECOND);
    assert_eq!(room.turn_holder(), SECOND);
    assert_eq!(room.current_bound(), 7);
    assert_eq!(room.score_p1(), 0);
    assert_eq!(room.score_p2(), 0);
    assert_eq!(room.player_one(), FIRST);
    assert_eq!(room.player_two(), Some(SECOND));
    assert!(room.started());
    assert_eq!(list.len(), 4);
    assert!(matches!(list[0], Notice::To(SECOND, GameMessage::Reconnect)));
    assert_eq!(status(&list[1]), format!("{ZOMBIE} {DIE}"));
    assert_eq!(own_feed(&list[2]), vec![format!("{MAGE} 7 {DIE} (1-10)")]);
    assert_eq!(start_roll(&list[3]), "10");
    let list = room.connect(FIRST);
    assert!(matches!(list[0], Notice::To(FIRST, GameMessage::Reconnect)));
    assert_eq!(status(&list[1]), format!("{MAGE} {DIE}"));
    assert_eq!(room.turn_holder(), SECOND);
}

#[test]
fn first_player_connecting_again_keeps_the_second_seat_free() {
    let mut room = GameState::open(FIRST, 10).unwrap();
    room.connect(FIRST);
    assert_eq!(room.player_two(), None);
    assert_eq!(room.seat_of(FIRST), Some(Seat::One));
}

#[test]
fn third_identity_spectates() {
    let mut room = running_room(10);
    room.turn(FIRST, 7);
    let list = room.connect(THIRD);
    assert_eq!(room.seat_of(THIRD), None);
    assert_eq!(room.player_two(), Some(SECOND));
    assert_eq!(list.len(), 3);
    assert!(matches!(list[0], Notice::To(THIRD, GameMessage::Spectate)));
    assert_eq!(own_feed(&list[1]), vec![format!("{MAGE} 7 {DIE} (1-10)")]);
    assert_eq!(to(&list[1]), THIRD);
    assert_eq!(start_roll(&list[2]), "10");
    assert_eq!(room.turn_kind(THIRD), TurnKind::Spectator);
    let list = room.turn(THIRD, 1);
    assert_eq!(room.current_bound(), 7);
    assert_eq!(room.turn_holder(), SECOND);
    assert!(!room.over());
    assert_eq!(room.feed().len(), 1);
    assert_eq!(list.len(), 1);
    assert!(matches!(list[0], Notice::To(THIRD, GameMessage::Spectate)));
}

#[test]
fn spectator_cannot_start_the_next_round() {
    let mut room = running_room(10);
    room.turn(FIRST, 1);
    room.connect(THIRD);
    let list = room.turn(THIRD, 1);
    assert!(room.over());
    assert_eq!(room.starting_player(), FIRST);
    assert_eq!(list.len(), 1);
    assert!(matches!(list[0], Notice::To(THIRD, GameMessage::Spectate)));
}

#[test]
fn third_identity_spectates_a_full_room_before_the_first_roll() {
    let mut room = full_room(10);
    let list = room.connect(THIRD);
    assert_eq!(room.player_two(), Some(SECOND));
    assert!(matches!(list[0], Notice::To(THIRD, GameMessage::Spectate)));
}

#[test]
fn game_score_copies_the_feed() {
    let mut room = running_room(10);
    room.turn(FIRST, 7);
    match room.game_score() {
        GameMessage::GameScore(score) => assert_eq!(&score.client_feed, room.feed()),
        other => panic!("unexpected {:?}", other),
    }
}

#[test]
fn seat_other_swaps() {
    assert_eq!(Seat::One.other(), Seat::Two);
    assert_eq!(Seat::Two.other(), Seat::One);
}
