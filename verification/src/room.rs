//! One room: two seats, a shrinking bound, a transcript, and the rules that
//! move it from one roll to the next.
use vstd::prelude::*;

use crate::player::{PlayerId, Seat};
use crate::protocol::{copy_feed, lines, notices, GameMessage, GameScore, MessageView, Notice, NoticeView};
use crate::text::{
    death_line, death_line_text, decimal, decimal_text, defeat, defeat_text, new_game_line,
    new_game_line_text, no_opponent, no_opponent_text, roll_line, roll_line_text, roll_to_start,
    roll_to_start_text, rolled, rolled_text, seat_status, seat_status_text, victory, victory_text,
    waiting, waiting_text, your_roll, your_roll_text,
};

verus! {

/// What a request to roll amounts to, given who asks and where the room stands.
#[derive(Clone, Copy, Debug, PartialEq, Eq, Structural)]
pub enum TurnKind {
    /// The requester holds no seat.
    Spectator,
    /// The requester sits alone: nobody has taken the second seat yet.
    NoOpponent,
    /// Both seats are taken, no roll was made yet, and the opener asks: the
    /// round begins.
    Opening,
    /// Both seats are taken, no roll was made yet, and the other seat asks.
    Waiting,
    /// The round is over: the request starts the next one.
    Rematch,
    /// The round is running and it is the other seat's roll.
    OutOfTurn,
    /// The round is running and it is the requester's roll.
    Roll,
}

/// A win counter after one more win. It stops at the largest value it can hold.
pub open spec fn one_more(score: nat) -> nat {
    if score < u32::MAX {
        score + 1
    } else {
        score
    }
}

/// A room as plain data.
pub struct RoomView {
    /// The inclusive upper bound of the next roll.
    pub current_bound: nat,
    pub player_one: PlayerId,
    pub player_two: Option<PlayerId>,
    /// Whose roll is awaited.
    pub turn_holder: PlayerId,
    /// Whether the opener has asked for the round's first roll.
    pub started: bool,
    /// Whether a 1 was rolled in this round.
    pub over: bool,
    /// Who opens the current round.
    pub starting_player: PlayerId,
    /// The bound that the room was created with.
    pub initial_bound: nat,
    pub score_p1: nat,
    pub score_p2: nat,
    /// The transcript of the current round.
    pub feed: Seq<Seq<char>>,
}

impl RoomView {
    /// The seat that a player holds, if any.
    pub open spec fn seat_of(self, player: PlayerId) -> Option<Seat> {
        if player == self.player_one {
            Some(Seat::One)
        } else if self.player_two == Some(player) {
            Some(Seat::Two)
        } else {
            None
        }
    }

    /// Who holds a seat. The second seat has a holder only once it is taken.
    pub open spec fn holder(self, seat: Seat) -> PlayerId
        recommends
            seat == Seat::Two ==> self.player_two is Some,
    {
        match seat {
            Seat::One => self.player_one,
            Seat::Two => self.player_two.unwrap(),
        }
    }

    /// What every room satisfies at all times.
    pub open spec fn wf(self) -> bool {
        &&& 1 <= self.current_bound <= self.initial_bound <= u32::MAX
        &&& self.score_p1 <= u32::MAX
        &&& self.score_p2 <= u32::MAX
        &&& self.player_two != Some(self.player_one)
        &&& self.seat_of(self.turn_holder) is Some
        &&& self.seat_of(self.starting_player) is Some
        &&& self.started ==> self.player_two is Some
        &&& self.over ==> self.started && self.current_bound == 1
        &&& !self.started ==> self.turn_holder == self.starting_player && self.current_bound
            == self.initial_bound
    }

    /// The room that its first player opens with a given bound.
    pub open spec fn opened(player: PlayerId, bound: nat) -> RoomView {
        RoomView {
            current_bound: bound,
            player_one: player,
            player_two: None,
            turn_holder: player,
            started: false,
            over: false,
            starting_player: player,
            initial_bound: bound,
            score_p1: 0,
            score_p2: 0,
            feed: Seq::empty(),
        }
    }

    /// What the first player is told on opening the room.
    pub open spec fn welcome(player: PlayerId, bound: nat) -> Seq<NoticeView> {
        seq![
            NoticeView::To(player, MessageView::P1Join),
            NoticeView::To(player, MessageView::StartRoll(decimal_text(bound))),
        ]
    }

    /// Whether a newcomer gets the second seat: it is free and no round has begun.
    pub open spec fn has_free_seat(self) -> bool {
        !self.started && self.player_two is None
    }

    /// The room after a player connects. A newcomer takes the second seat if
    /// it is free; nothing else changes, and nothing at all for a player who
    /// holds a seat already or comes to watch.
    pub open spec fn after_connect(self, player: PlayerId) -> RoomView {
        if self.seat_of(player) is None && self.has_free_seat() {
            RoomView { player_two: Some(player), ..self }
        } else {
            self
        }
    }

    /// What a connecting player is told.
    pub open spec fn connect_notices(self, player: PlayerId) -> Seq<NoticeView> {
        match self.seat_of(player) {
            Some(seat) => seq![
                NoticeView::To(player, MessageView::Reconnect),
                NoticeView::To(player, MessageView::Status(seat_status_text(seat))),
                NoticeView::To(player, MessageView::GameScore(self.feed)),
                NoticeView::To(player, MessageView::StartRoll(decimal_text(self.initial_bound))),
            ],
            None => if self.has_free_seat() {
                seq![
                    NoticeView::To(player, MessageView::P2Join),
                    NoticeView::To(player, MessageView::StartRoll(decimal_text(self.current_bound))),
                ]
            } else {
                seq![
                    NoticeView::To(player, MessageView::Spectate),
                    NoticeView::To(player, MessageView::GameScore(self.feed)),
                    NoticeView::To(player, MessageView::StartRoll(decimal_text(self.initial_bound))),
                ]
            },
        }
    }

    /// What a request to roll amounts to.
    pub open spec fn turn_kind(self, player: PlayerId) -> TurnKind {
        if self.seat_of(player) is None {
            TurnKind::Spectator
        } else if self.player_two is None {
            TurnKind::NoOpponent
        } else if !self.started {
            if player == self.turn_holder {
                TurnKind::Opening
            } else {
                TurnKind::Waiting
            }
        } else if self.over {
            TurnKind::Rematch
        } else if player == self.turn_holder {
            TurnKind::Roll
        } else {
            TurnKind::OutOfTurn
        }
    }

    /// Whether `roll` is a number that the die can show when `player` asks
    /// to roll: between 1 and the bound where the request leads to a roll,
    /// and anything where it does not (the number is then not looked at).
    pub open spec fn can_show(self, player: PlayerId, roll: nat) -> bool {
        self.turn_kind(player) == TurnKind::Roll ==> 1 <= roll <= self.current_bound
    }

    /// The seat whose roll is awaited.
    pub open spec fn turn_seat(self) -> Seat {
        if self.turn_holder == self.player_one {
            Seat::One
        } else {
            Seat::Two
        }
    }

    /// The room once its opener has asked for the first roll.
    pub open spec fn begun(self) -> RoomView {
        RoomView { started: true, ..self }
    }

    /// The room after the turn holder rolled. A roll above 1 becomes the new
    /// bound and passes the turn; a 1 ends the round and counts as a win of
    /// the other seat.
    pub open spec fn rolled(self, roll: nat) -> RoomView {
        let seat = self.turn_seat();
        if roll != 1 {
            RoomView {
                current_bound: roll,
                turn_holder: self.holder(seat.spec_other()),
                feed: self.feed.push(roll_line_text(seat, roll, self.current_bound)),
                ..self
            }
        } else {
            let score_p1 = if seat == Seat::Two {
                one_more(self.score_p1)
            } else {
                self.score_p1
            };
            let score_p2 = if seat == Seat::One {
                one_more(self.score_p2)
            } else {
                self.score_p2
            };
            RoomView {
                current_bound: 1,
                over: true,
                score_p1,
                score_p2,
                feed: self.feed.push(death_line_text(seat, self.current_bound, score_p1, score_p2)),
                ..self
            }
        }
    }

    /// Who opens the next round: the participant who did not open this one.
    pub open spec fn next_opener(self) -> PlayerId {
        if self.starting_player == self.player_one {
            self.player_two.unwrap()
        } else {
            self.player_one
        }
    }

    /// The room at the start of the next round: seats, win counters and the
    /// initial bound stay, the other participant opens, and the transcript
    /// starts afresh.
    pub open spec fn rematch(self) -> RoomView {
        RoomView {
            current_bound: self.initial_bound,
            turn_holder: self.next_opener(),
            started: false,
            over: false,
            starting_player: self.next_opener(),
            feed: seq![new_game_line_text(self.initial_bound)],
            ..self
        }
    }

    /// The room after a request to roll, where `roll` is the number drawn
    /// if the request leads to a roll.
    pub open spec fn after_turn(self, player: PlayerId, roll: nat) -> RoomView {
        match self.turn_kind(player) {
            TurnKind::Opening => self.begun(),
            TurnKind::Rematch => self.rematch(),
            TurnKind::Roll => self.rolled(roll),
            _ => self,
        }
    }

    /// What the two participants are told before the first roll of a round.
    pub open spec fn start_notices(self) -> Seq<NoticeView> {
        let opener = self.turn_seat();
        seq![
            NoticeView::To(
                self.holder(opener.spec_other()),
                MessageView::StartGame(waiting_text(opener.spec_other())),
            ),
            NoticeView::To(self.holder(opener), MessageView::StartGame(roll_to_start_text(opener))),
        ]
    }

    /// What follows a roll: a word to the roller, a word to the opponent,
    /// and the new transcript to the whole room.
    pub open spec fn roll_notices(self, roll: nat) -> Seq<NoticeView> {
        let seat = self.turn_seat();
        let roller = self.holder(seat);
        let opponent = self.holder(seat.spec_other());
        if roll != 1 {
            seq![
                NoticeView::To(roller, MessageView::Status(rolled_text(seat, roll))),
                NoticeView::To(opponent, MessageView::Status(your_roll_text(seat.spec_other()))),
                NoticeView::Feed,
            ]
        } else {
            seq![
                NoticeView::To(roller, MessageView::GameOver(defeat_text(seat))),
                NoticeView::To(opponent, MessageView::GameOver(victory_text(seat.spec_other()))),
                NoticeView::Feed,
            ]
        }
    }

    /// What follows the start of the next round: the fresh transcript to the
    /// whole room, then each participant's new role.
    pub open spec fn rematch_notices(self) -> Seq<NoticeView> {
        let next = self.rematch();
        let opener = next.turn_seat();
        seq![
            NoticeView::Feed,
            NoticeView::To(next.holder(opener), MessageView::Status(roll_to_start_text(opener))),
            NoticeView::To(
                next.holder(opener.spec_other()),
                MessageView::Status(waiting_text(opener.spec_other())),
            ),
        ]
    }

    /// What a request to roll makes the room say.
    pub open spec fn turn_notices(self, player: PlayerId, roll: nat) -> Seq<NoticeView> {
        match self.turn_kind(player) {
            TurnKind::Spectator => seq![NoticeView::To(player, MessageView::Spectate)],
            TurnKind::NoOpponent => seq![
                NoticeView::To(player, MessageView::Status(no_opponent_text())),
            ],
            TurnKind::Opening => self.start_notices(),
            TurnKind::Waiting => self.start_notices(),
            TurnKind::Rematch => self.rematch_notices(),
            TurnKind::OutOfTurn => seq![
                NoticeView::To(
                    player,
                    MessageView::Status(waiting_text(self.turn_seat().spec_other())),
                ),
            ],
            TurnKind::Roll => self.roll_notices(roll),
        }
    }
}

/// One room of the game.
#[derive(Debug)]
pub struct GameState {
    current_bound: u32,
    player_one: PlayerId,
    player_two: Option<PlayerId>,
    turn_holder: PlayerId,
    started: bool,
    over: bool,
    starting_player: PlayerId,
    initial_bound: u32,
    score_p1: u32,
    score_p2: u32,
    feed: Vec<String>,
}

impl View for GameState {
    type V = RoomView;

    closed spec fn view(&self) -> RoomView {
        RoomView {
            current_bound: self.current_bound as nat,
            player_one: self.player_one,
            player_two: self.player_two,
            turn_holder: self.turn_holder,
            started: self.started,
            over: self.over,
            starting_player: self.starting_player,
            initial_bound: self.initial_bound as nat,
            score_p1: self.score_p1 as nat,
            score_p2: self.score_p2 as nat,
            feed: lines(self.feed@),
        }
    }
}

impl GameState {
    /// Opens a room for its first player. A room cannot be opened with the
    /// bound 0: no roll could be made in it.
    pub fn open(player: PlayerId, bound: u32) -> (room: Option<GameState>)
        ensures
            bound == 0 ==> room is None,
            bound >= 1 ==> room is Some && room.unwrap()@ == RoomView::opened(player, bound as nat)
                && room.unwrap()@.wf(),
    {
        if bound == 0 {
            None
        } else {
            let room = GameState {
                current_bound: bound,
                player_one: player,
                player_two: None,
                turn_holder: player,
                started: false,
                over: false,
                starting_player: player,
                initial_bound: bound,
                score_p1: 0,
                score_p2: 0,
                feed: Vec::new(),
            };
            assert(room@.feed =~= Seq::empty());
            Some(room)
        }
    }

    /// What the first player is told on opening a room.
    pub fn welcome(player: PlayerId, bound: u32) -> (list: Vec<Notice>)
        ensures
            notices(list@) == RoomView::welcome(player, bound as nat),
    {
        let mut list: Vec<Notice> = Vec::new();
        list.push(Notice::To(player, GameMessage::P1Join));
        list.push(Notice::To(player, GameMessage::StartRoll(decimal(bound))));
        assert(notices(list@) =~= RoomView::welcome(player, bound as nat));
        list
    }

    /// The inclusive upper bound of the next roll.
    pub fn current_bound(&self) -> (bound: u32)
        ensures
            bound == self@.current_bound,
    {
        self.current_bound
    }

    /// The bound that the room was created with.
    pub fn initial_bound(&self) -> (bound: u32)
        ensures
            bound == self@.initial_bound,
    {
        self.initial_bound
    }

    /// The holder of the first seat.
    pub fn player_one(&self) -> (player: PlayerId)
        ensures
            player == self@.player_one,
    {
        self.player_one
    }

    /// The holder of the second seat, once it is taken.
    pub fn player_two(&self) -> (player: Option<PlayerId>)
        ensures
            player == self@.player_two,
    {
        self.player_two
    }

    /// Whose roll is awaited.
    pub fn turn_holder(&self) -> (player: PlayerId)
        ensures
            player == self@.turn_holder,
    {
        self.turn_holder
    }

    /// Who opens the current round.
    pub fn starting_player(&self) -> (player: PlayerId)
        ensures
            player == self@.starting_player,
    {
        self.starting_player
    }

    /// Whether the opener has asked for the round's first roll.
    pub fn started(&self) -> (started: bool)
        ensures
            started == self@.started,
    {
        self.started
    }

    /// Whether a 1 was rolled in this round.
    pub fn over(&self) -> (over: bool)
        ensures
            over == self@.over,
    {
        self.over
    }

    /// The rounds that the first seat has won.
    pub fn score_p1(&self) -> (score: u32)
        ensures
            score == self@.score_p1,
    {
        self.score_p1
    }

    /// The rounds that the second seat has won.
    pub fn score_p2(&self) -> (score: u32)
        ensures
            score == self@.score_p2,
    {
        self.score_p2
    }

    /// The transcript of the current round.
    pub fn feed(&self) -> (feed: &Vec<String>)
        ensures
            lines(feed@) == self@.feed,
    {
        &self.feed
    }

    /// The transcript of the current round, as it is sent to the clients.
    pub fn game_score(&self) -> (message: GameMessage)
        ensures
            message@ == MessageView::GameScore(self@.feed),
    {
        GameMessage::GameScore(GameScore { client_feed: copy_feed(&self.feed) })
    }

    /// The seat that a player holds, if any.
    pub fn seat_of(&self, player: PlayerId) -> (seat: Option<Seat>)
        ensures
            seat == self@.seat_of(player),
    {
        if player == self.player_one {
            Some(Seat::One)
        } else {
            match self.player_two {
                Some(two) => if two == player {
                    Some(Seat::Two)
                } else {
                    None
                },
                None => None,
            }
        }
    }

    /// What a request to roll from this player amounts to.
    pub fn turn_kind(&self, player: PlayerId) -> (kind: TurnKind)
        ensures
            kind == self@.turn_kind(player),
    {
        if self.seat_of(player).is_none() {
            TurnKind::Spectator
        } else if self.player_two.is_none() {
            TurnKind::NoOpponent
        } else if !self.started {
            if player == self.turn_holder {
                TurnKind::Opening
            } else {
                TurnKind::Waiting
            }
        } else if self.over {
            TurnKind::Rematch
        } else if player == self.turn_holder {
            TurnKind::Roll
        } else {
            TurnKind::OutOfTurn
        }
    }

    fn turn_seat(&self) -> (seat: Seat)
        ensures
            seat == self@.turn_seat(),
    {
        if self.turn_holder == self.player_one {
            Seat::One
        } else {
            Seat::Two
        }
    }

    fn holder(&self, seat: Seat) -> (player: PlayerId)
        requires
            seat == Seat::Two ==> self@.player_two is Some,
        ensures
            player == self@.holder(seat),
    {
        match seat {
            Seat::One => self.player_one,
            Seat::Two => match self.player_two {
                Some(two) => two,
                None => self.player_one,
            },
        }
    }

    /// Admits a connecting player: to the second seat if it is free, back to
    /// their own seat if they hold one, and to the stands otherwise. Returns
    /// what the player is to be told.
    pub fn connect(&mut self, player: PlayerId) -> (list: Vec<Notice>)
        requires
            old(self)@.wf(),
        ensures
            final(self)@ == old(self)@.after_connect(player),
            notices(list@) == old(self)@.connect_notices(player),
            final(self)@.wf(),
    {
        let mut list: Vec<Notice> = Vec::new();
        match self.seat_of(player) {
            Some(seat) => {
                list.push(Notice::To(player, GameMessage::Reconnect));
                list.push(Notice::To(player, GameMessage::Status(seat_status(seat))));
                list.push(Notice::To(player, self.game_score()));
                list.push(Notice::To(player, GameMessage::StartRoll(decimal(self.initial_bound))));
            },
            None => {
                if !self.started && self.player_two.is_none() {
                    list.push(Notice::To(player, GameMessage::P2Join));
                    list.push(
                        Notice::To(player, GameMessage::StartRoll(decimal(self.current_bound))),
                    );
                    self.player_two = Some(player);
                } else {
                    list.push(Notice::To(player, GameMessage::Spectate));
                    list.push(Notice::To(player, self.game_score()));
                    list.push(
                        Notice::To(player, GameMessage::StartRoll(decimal(self.initial_bound))),
                    );
                }
            },
        }
        assert(notices(list@) =~= old(self)@.connect_notices(player));
        list
    }

    fn start_notices(&self) -> (list: Vec<Notice>)
        requires
            self@.player_two is Some,
        ensures
            notices(list@) == self@.start_notices(),
    {
        let opener = self.turn_seat();
        let mut list: Vec<Notice> = Vec::new();
        list.push(
            Notice::To(self.holder(opener.other()), GameMessage::StartGame(waiting(opener.other()))),
        );
        list.push(Notice::To(self.holder(opener), GameMessage::StartGame(roll_to_start(opener))));
        assert(notices(list@) =~= self@.start_notices());
        list
    }

    fn rematch(&mut self) -> (list: Vec<Notice>)
        requires
            old(self)@.wf(),
            old(self)@.over,
        ensures
            final(self)@ == old(self)@.rematch(),
            notices(list@) == old(self)@.rematch_notices(),
            final(self)@.wf(),
    {
        let opener = if self.starting_player == self.player_one {
            self.holder(Seat::Two)
        } else {
            self.player_one
        };
        let mut feed: Vec<String> = Vec::new();
        feed.push(new_game_line(self.initial_bound));
        self.current_bound = self.initial_bound;
        self.turn_holder = opener;
        self.started = false;
        self.over = false;
        self.starting_player = opener;
        self.feed = feed;
        assert(self@.feed =~= seq![new_game_line_text(self@.initial_bound)]);
        let seat = self.turn_seat();
        let mut list: Vec<Notice> = Vec::new();
        list.push(Notice::Feed);
        list.push(Notice::To(self.holder(seat), GameMessage::Status(roll_to_start(seat))));
        list.push(
            Notice::To(self.holder(seat.other()), GameMessage::Status(waiting(seat.other()))),
        );
        assert(notices(list@) =~= old(self)@.rematch_notices());
        list
    }

    fn roll(&mut self, roll: u32) -> (list: Vec<Notice>)
        requires
            old(self)@.wf(),
            old(self)@.started,
            !old(self)@.over,
            1 <= roll <= old(self)@.current_bound,
        ensures
            final(self)@ == old(self)@.rolled(roll as nat),
            notices(list@) == old(self)@.roll_notices(roll as nat),
            final(self)@.wf(),
    {
        let seat = self.turn_seat();
        let roller = self.holder(seat);
        let opponent = self.holder(seat.other());
        let bound = self.current_bound;
        let mut list: Vec<Notice> = Vec::new();
        if roll != 1 {
            self.feed.push(roll_line(seat, roll, bound));
            self.current_bound = roll;
            self.turn_holder = opponent;
            assert(self@.feed =~= old(self)@.rolled(roll as nat).feed);
            list.push(Notice::To(roller, GameMessage::Status(rolled(seat, roll))));
            list.push(Notice::To(opponent, GameMessage::Status(your_roll(seat.other()))));
            list.push(Notice::Feed);
        } else {
            match seat {
                Seat::One => {
                    if self.score_p2 < u32::MAX {
                        self.score_p2 = self.score_p2 + 1;
                    }
                },
                Seat::Two => {
                    if self.score_p1 < u32::MAX {
                        self.score_p1 = self.score_p1 + 1;
                    }
                },
            }
            self.feed.push(death_line(seat, bound, self.score_p1, self.score_p2));
            self.current_bound = 1;
            self.over = true;
            assert(self@.feed =~= old(self)@.rolled(roll as nat).feed);
            list.push(Notice::To(roller, GameMessage::GameOver(defeat(seat))));
            list.push(Notice::To(opponent, GameMessage::GameOver(victory(seat.other()))));
            list.push(Notice::Feed);
        }
        assert(notices(list@) =~= old(self)@.roll_notices(roll as nat));
        list
    }

    /// Answers a request to roll. `roll` is the number drawn for it; it
    /// counts only where the request is the turn holder's in a running round.
    pub fn turn(&mut self, player: PlayerId, roll: u32) -> (list: Vec<Notice>)
        requires
            old(self)@.wf(),
            old(self)@.can_show(player, roll as nat),
        ensures
            final(self)@ == old(self)@.after_turn(player, roll as nat),
            notices(list@) == old(self)@.turn_notices(player, roll as nat),
            final(self)@.wf(),
    {
        match self.turn_kind(player) {
            TurnKind::Spectator => {
                let mut list: Vec<Notice> = Vec::new();
                list.push(Notice::To(player, GameMessage::Spectate));
                assert(notices(list@) =~= old(self)@.turn_notices(player, roll as nat));
                list
            },
            TurnKind::NoOpponent => {
                let mut list: Vec<Notice> = Vec::new();
                list.push(Notice::To(player, GameMessage::Status(no_opponent())));
                assert(notices(list@) =~= old(self)@.turn_notices(player, roll as nat));
                list
            },
            TurnKind::Opening => {
                let list = self.start_notices();
                self.started = true;
                list
            },
            TurnKind::Waiting => self.start_notices(),
            TurnKind::Rematch => self.rematch(),
            TurnKind::OutOfTurn => {
                let mut list: Vec<Notice> = Vec::new();
                list.push(
                    Notice::To(player, GameMessage::Status(waiting(self.turn_seat().other()))),
                );
                assert(notices(list@) =~= old(self)@.turn_notices(player, roll as nat));
                list
            },
            TurnKind::Roll => self.roll(roll),
        }
    }
}

} // verus!
