//! A game against the computer: the player and the computer take turns, each
//! roll a second after the other, until one of them rolls a 1.
use vstd::prelude::*;
use vstd::string::StringExecFns;

use crate::dice::roll_die;
use crate::number::parse_trimmed;
use crate::client::address::bound_or_one;
use crate::protocol::lines;
use crate::text::{decimal, decimal_text};

verus! {

/// What can happen to a game against the computer.
#[derive(Debug)]
pub enum Msg {
    /// The player asks for a roll.
    Roll,
    /// The player asks to play again, with the bound in the page's address.
    Reset(u32),
    /// The computer's roll is due.
    ComputerInitialized(()),
    /// The player's roll is due.
    PlayerRoll(()),
    /// The player's roll was shown, and the computer asks for its own.
    PlayerResult(()),
    /// The player typed a bound.
    Input(String),
    /// The player starts a game with the bound that was typed.
    Start,
    DoNothing,
    /// The player opens or closes the rules.
    ShowRules,
}

/// An event as plain data.
pub enum MsgView {
    Roll,
    Reset(u32),
    ComputerInitialized,
    PlayerRoll,
    PlayerResult,
    Input(Seq<char>),
    Start,
    DoNothing,
    ShowRules,
}

impl View for Msg {
    type V = MsgView;

    open spec fn view(&self) -> MsgView {
        match self {
            Msg::Roll => MsgView::Roll,
            Msg::Reset(bound) => MsgView::Reset(*bound),
            Msg::ComputerInitialized(_) => MsgView::ComputerInitialized,
            Msg::PlayerRoll(_) => MsgView::PlayerRoll,
            Msg::PlayerResult(_) => MsgView::PlayerResult,
            Msg::Input(text) => MsgView::Input(text@),
            Msg::Start => MsgView::Start,
            Msg::DoNothing => MsgView::DoNothing,
            Msg::ShowRules => MsgView::ShowRules,
        }
    }
}

/// What is to follow an event.
#[derive(Debug)]
pub enum FollowUp {
    Nothing,
    /// This event, one second later.
    After(Msg),
    /// This event, at once.
    AtOnce(Msg),
}

/// What is to follow, as plain data.
pub enum FollowUpView {
    Nothing,
    After(MsgView),
    AtOnce(MsgView),
}

impl View for FollowUp {
    type V = FollowUpView;

    open spec fn view(&self) -> FollowUpView {
        match self {
            FollowUp::Nothing => FollowUpView::Nothing,
            FollowUp::After(msg) => FollowUpView::After(msg@),
            FollowUp::AtOnce(msg) => FollowUpView::AtOnce(msg@),
        }
    }
}

/// What the page does after an event, besides drawing itself anew.
#[derive(Debug)]
pub struct Update {
    /// Whether the feed is scrolled to its end.
    pub scroll: bool,
    pub next: FollowUp,
}

/// An update as plain data.
pub struct UpdateView {
    pub scroll: bool,
    pub next: FollowUpView,
}

impl View for Update {
    type V = UpdateView;

    open spec fn view(&self) -> UpdateView {
        UpdateView { scroll: self.scroll, next: self.next@ }
    }
}

/// The line with which the player asks for a roll.
pub open spec fn player_asks_text(bound: nat) -> Seq<char> {
    "\u{1F9D9}\u{200D}\u{2642}\u{FE0F} /roll "@ + " 1-"@ + decimal_text(bound)
}

/// The line with which the computer asks for a roll.
pub open spec fn computer_asks_text(bound: nat) -> Seq<char> {
    "\u{1F916} /roll "@ + " 1-"@ + decimal_text(bound)
}

/// How a roll's line ends: with skulls once the game is over, and with a
/// die before.
pub open spec fn end_text(game_over: bool) -> Seq<char> {
    if game_over {
        ") \u{1F480}\u{1F480}\u{1F480}\u{1F480}\u{1F480}\u{1F480}"@
    } else {
        ") \u{1F3B2}"@
    }
}

/// The line of a roll: who rolled, what, and out of which bound.
pub open spec fn roll_text(who: Seq<char>, roll: nat, bound: nat, game_over: bool) -> Seq<char> {
    who + decimal_text(roll) + " (1-"@ + decimal_text(bound) + end_text(game_over)
}

/// The last line of a game that the player lost.
pub open spec fn defeat_text() -> Seq<char> {
    "\u{1F9D9}\u{200D}\u{2642}\u{FE0F} \u{1F480}\u{1F480}\u{1F480}\u{1F480}\u{1F480}\u{1F480} DEFEAT!!!"@
}

/// The last line of a game that the player won.
pub open spec fn victory_text() -> Seq<char> {
    "\u{1F9D9}\u{200D}\u{2642}\u{FE0F} \u{1F3C6}\u{1F3C6}\u{1F3C6}\u{1F3C6}\u{1F3C6}\u{1F3C6} VICTORY!!!"@
}

/// A game against the computer as plain data.
pub struct PveView {
    /// The inclusive upper bound of the next roll.
    pub roll_amount: u32,
    pub player_turn: bool,
    pub game_over: bool,
    /// The bound of the game, followed by every roll in turn.
    pub display_roll: Seq<u32>,
    pub player_rolling: bool,
    pub player_result: bool,
    /// Whether no roll was asked for yet.
    pub game_start: bool,
    pub computer_result: bool,
    pub feed: Seq<Seq<char>>,
    /// The bound that was typed or read from the address.
    pub num_input: u32,
    pub rules: bool,
}

impl PveView {
    /// The list of rolls ends with the current bound.
    pub open spec fn wf(self) -> bool {
        self.display_roll.len() >= 1 && self.display_roll.last() == self.roll_amount
    }

    /// A new game with a given bound.
    pub open spec fn created(num_input: u32) -> PveView {
        PveView {
            roll_amount: num_input,
            player_turn: true,
            game_over: false,
            display_roll: seq![num_input],
            player_rolling: false,
            player_result: false,
            game_start: true,
            computer_result: false,
            feed: Seq::empty(),
            num_input,
            rules: false,
        }
    }

    /// Whether an event leads to a roll: a roll is due and the bound leaves
    /// a number to roll.
    pub open spec fn rolls(self, msg: MsgView) -> bool {
        (msg is PlayerRoll || msg is ComputerInitialized) && self.roll_amount >= 1
    }

    /// The game after the player's roll.
    pub open spec fn player_rolled(self, roll: u32) -> PveView {
        if roll == 1 {
            PveView {
                computer_result: false,
                roll_amount: roll,
                display_roll: self.display_roll.push(roll),
                player_rolling: false,
                game_over: true,
                feed: self.feed.push(
                    roll_text(
                        " \u{1F9D9}\u{200D}\u{2642}\u{FE0F} rolled "@,
                        roll as nat,
                        self.display_roll.last() as nat,
                        true,
                    ),
                ).push(defeat_text()),
                ..self
            }
        } else {
            PveView {
                computer_result: false,
                roll_amount: roll,
                display_roll: self.display_roll.push(roll),
                player_rolling: false,
                player_result: true,
                feed: self.feed.push(
                    roll_text(
                        " \u{1F9D9}\u{200D}\u{2642}\u{FE0F} rolls "@,
                        roll as nat,
                        self.display_roll.last() as nat,
                        self.game_over,
                    ),
                ),
                ..self
            }
        }
    }

    /// The game after the computer's roll.
    pub open spec fn computer_rolled(self, roll: u32) -> PveView {
        if roll == 1 {
            PveView {
                computer_result: true,
                roll_amount: roll,
                display_roll: self.display_roll.push(roll),
                game_over: true,
                player_turn: true,
                feed: self.feed.push(
                    roll_text(
                        " \u{1F916} rolls "@,
                        roll as nat,
                        self.display_roll.last() as nat,
                        true,
                    ),
                ).push(victory_text()),
                ..self
            }
        } else {
            PveView {
                computer_result: true,
                roll_amount: roll,
                display_roll: self.display_roll.push(roll),
                player_turn: true,
                feed: self.feed.push(
                    roll_text(
                        " \u{1F916} rolls "@,
                        roll as nat,
                        self.display_roll.last() as nat,
                        self.game_over,
                    ),
                ),
                ..self
            }
        }
    }

    /// The game after an event, `roll` being the number drawn if the event
    /// leads to a roll. A roll that is due with the bound 0 is dropped.
    pub open spec fn after(self, msg: MsgView, roll: u32) -> PveView {
        match msg {
            MsgView::Roll => PveView {
                game_start: false,
                player_turn: false,
                feed: self.feed.push(player_asks_text(self.roll_amount as nat)),
                ..self
            },
            MsgView::Reset(bound) => PveView {
                roll_amount: bound,
                display_roll: seq![bound],
                game_over: false,
                player_turn: true,
                game_start: true,
                computer_result: false,
                feed: Seq::empty(),
                num_input: bound,
                ..self
            },
            MsgView::ComputerInitialized => if self.roll_amount >= 1 {
                self.computer_rolled(roll)
            } else {
                self
            },
            MsgView::PlayerRoll => if self.roll_amount >= 1 {
                self.player_rolled(roll)
            } else {
                self
            },
            MsgView::PlayerResult => PveView {
                feed: self.feed.push(computer_asks_text(self.roll_amount as nat)),
                player_result: false,
                ..self
            },
            MsgView::Input(text) => PveView { num_input: bound_or_one(text), ..self },
            MsgView::Start => if self.num_input != 1 {
                PveView {
                    display_roll: seq![self.num_input],
                    roll_amount: self.num_input,
                    ..self
                }
            } else {
                self
            },
            MsgView::DoNothing => self,
            MsgView::ShowRules => PveView { rules: !self.rules, ..self },
        }
    }

    /// What the page does after an event.
    pub open spec fn update(self, msg: MsgView, roll: u32) -> UpdateView {
        match msg {
            MsgView::Roll => UpdateView { scroll: true, next: FollowUpView::After(MsgView::PlayerRoll) },
            MsgView::ComputerInitialized => UpdateView {
                scroll: self.roll_amount >= 1,
                next: FollowUpView::Nothing,
            },
            MsgView::PlayerRoll => UpdateView {
                scroll: self.roll_amount >= 1,
                next: if self.roll_amount >= 1 && roll != 1 {
                    FollowUpView::After(MsgView::PlayerResult)
                } else {
                    FollowUpView::Nothing
                },
            },
            MsgView::PlayerResult => UpdateView {
                scroll: true,
                next: FollowUpView::After(MsgView::ComputerInitialized),
            },
            MsgView::Start => UpdateView {
                scroll: false,
                next: if self.num_input != 1 {
                    FollowUpView::AtOnce(MsgView::Roll)
                } else {
                    FollowUpView::Nothing
                },
            },
            _ => UpdateView { scroll: false, next: FollowUpView::Nothing },
        }
    }

    /// Whether the page offers the button that asks for the next roll. After
    /// the first roll was asked for, it does so on the player's turn in a game
    /// that is not over; before, the button that starts the game stands in
    /// its place.
    pub open spec fn offers_roll(self) -> bool {
        if self.game_start {
            !(self.player_turn && !self.game_over)
        } else {
            self.player_turn && !self.game_over
        }
    }
}

/// A game against the computer.
#[derive(Debug)]
pub struct PvEComponent {
    roll_amount: u32,
    player_turn: bool,
    game_over: bool,
    display_roll: Vec<u32>,
    player_rolling: bool,
    player_result: bool,
    game_start: bool,
    computer_result: bool,
    feed: Vec<String>,
    num_input: u32,
    rules: bool,
}

impl View for PvEComponent {
    type V = PveView;

    closed spec fn view(&self) -> PveView {
        PveView {
            roll_amount: self.roll_amount,
            player_turn: self.player_turn,
            game_over: self.game_over,
            display_roll: self.display_roll@,
            player_rolling: self.player_rolling,
            player_result: self.player_result,
            game_start: self.game_start,
            computer_result: self.computer_result,
            feed: lines(self.feed@),
            num_input: self.num_input,
            rules: self.rules,
        }
    }
}

impl PvEComponent {
    /// A new game with the bound that the page's address names.
    pub fn create(num_input: u32) -> (game: PvEComponent)
        ensures
            game@ == PveView::created(num_input),
            game@.wf(),
    {
        let mut display_roll: Vec<u32> = Vec::new();
        display_roll.push(num_input);
        let game = PvEComponent {
            roll_amount: num_input,
            player_turn: true,
            game_over: false,
            display_roll,
            player_rolling: false,
            player_result: false,
            game_start: true,
            computer_result: false,
            feed: Vec::new(),
            num_input,
            rules: false,
        };
        assert(game@.feed =~= Seq::empty());
        assert(game@.display_roll =~= seq![num_input]);
        game
    }

    /// The transcript.
    pub fn feed(&self) -> (feed: &Vec<String>)
        ensures
            lines(feed@) == self@.feed,
    {
        &self.feed
    }

    /// The bound that was typed or read from the address.
    pub fn num_input(&self) -> (bound: u32)
        ensures
            bound == self@.num_input,
    {
        self.num_input
    }

    /// The inclusive upper bound of the next roll.
    pub fn roll_amount(&self) -> (bound: u32)
        ensures
            bound == self@.roll_amount,
    {
        self.roll_amount
    }

    /// Whether the rules are open.
    pub fn rules(&self) -> (open: bool)
        ensures
            open == self@.rules,
    {
        self.rules
    }

    /// Whether the game is over.
    pub fn game_over(&self) -> (over: bool)
        ensures
            over == self@.game_over,
    {
        self.game_over
    }

    /// Whether no roll was asked for yet.
    pub fn game_start(&self) -> (fresh: bool)
        ensures
            fresh == self@.game_start,
    {
        self.game_start
    }

    /// Whether it is the player's turn.
    pub fn player_turn(&self) -> (mine: bool)
        ensures
            mine == self@.player_turn,
    {
        self.player_turn
    }

    /// Whether the page offers the button that asks for the next roll.
    pub fn offers_roll(&self) -> (shown: bool)
        ensures
            shown == self@.offers_roll(),
    {
        if !self.player_turn && !self.game_over && !self.game_start {
            false
        } else if !self.player_turn && self.game_over && !self.game_start {
            false
        } else if self.player_turn && self.game_over && !self.game_start {
            false
        } else if self.player_turn && !self.game_over && self.game_start {
            false
        } else {
            true
        }
    }

    /// How a roll's line ends.
    pub fn add_end(&self) -> (end: String)
        ensures
            end@ == end_text(self@.game_over),
    {
        if self.game_over {
            String::from_str(") \u{1F480}\u{1F480}\u{1F480}\u{1F480}\u{1F480}\u{1F480}")
        } else {
            String::from_str(") \u{1F3B2}")
        }
    }

    /// The line of the last roll: who rolled, the number, and the bound it
    /// was rolled out of, which is the entry before the last in the list of
    /// rolls.
    pub fn add_to_feed(&self, slash_roll: String) -> (line: String)
        requires
            self@.display_roll.len() >= 2,
        ensures
            line@ == roll_text(
                slash_roll@,
                self@.roll_amount as nat,
                self@.display_roll[self@.display_roll.len() - 2] as nat,
                self@.game_over,
            ),
    {
        let prev_turn = self.display_roll[self.display_roll.len() - 2];
        let end = self.add_end();
        let mut line = slash_roll;
        line.append(decimal(self.roll_amount).as_str());
        line.append(" (1-");
        line.append(decimal(prev_turn).as_str());
        line.append(end.as_str());
        line
    }

    fn player_rolled(&mut self, roll: u32) -> (next: FollowUp)
        requires
            old(self)@.wf(),
        ensures
            final(self)@ == old(self)@.player_rolled(roll),
            final(self)@.wf(),
            next@ == if roll != 1 {
                FollowUpView::After(MsgView::PlayerResult)
            } else {
                FollowUpView::Nothing
            },
    {
        self.computer_result = false;
        self.roll_amount = roll;
        self.display_roll.push(roll);
        self.player_rolling = false;
        if self.roll_amount == 1 {
            self.game_over = true;
            let line = self.add_to_feed(
                String::from_str(" \u{1F9D9}\u{200D}\u{2642}\u{FE0F} rolled "),
            );
            self.feed.push(line);
            self.feed.push(
                String::from_str(
                    "\u{1F9D9}\u{200D}\u{2642}\u{FE0F} \u{1F480}\u{1F480}\u{1F480}\u{1F480}\u{1F480}\u{1F480} DEFEAT!!!",
                ),
            );
            assert(self@.feed =~= old(self)@.player_rolled(roll).feed);
            FollowUp::Nothing
        } else {
            self.player_result = true;
            let line = self.add_to_feed(
                String::from_str(" \u{1F9D9}\u{200D}\u{2642}\u{FE0F} rolls "),
            );
            self.feed.push(line);
            assert(self@.feed =~= old(self)@.player_rolled(roll).feed);
            FollowUp::After(Msg::PlayerResult(()))
        }
    }

    fn computer_rolled(&mut self, roll: u32)
        requires
            old(self)@.wf(),
        ensures
            final(self)@ == old(self)@.computer_rolled(roll),
            final(self)@.wf(),
    {
        self.computer_result = true;
        self.roll_amount = roll;
        self.display_roll.push(roll);
        if self.roll_amount == 1 {
            self.game_over = true;
            self.player_turn = true;
            let line = self.add_to_feed(String::from_str(" \u{1F916} rolls "));
            self.feed.push(line);
            self.feed.push(
                String::from_str(
                    "\u{1F9D9}\u{200D}\u{2642}\u{FE0F} \u{1F3C6}\u{1F3C6}\u{1F3C6}\u{1F3C6}\u{1F3C6}\u{1F3C6} VICTORY!!!",
                ),
            );
        } else {
            let line = self.add_to_feed(String::from_str(" \u{1F916} rolls "));
            self.feed.push(line);
        }
        self.player_turn = true;
        assert(self@.feed =~= old(self)@.computer_rolled(roll).feed);
    }

    /// Takes an event for which the die showed `roll`. The number counts
    /// only where the event leads to a roll.
    pub fn update_with(&mut self, msg: Msg, roll: u32) -> (update: Update)
        requires
            old(self)@.wf(),
        ensures
            final(self)@ == old(self)@.after(msg@, roll),
            update@ == old(self)@.update(msg@, roll),
            final(self)@.wf(),
    {
        match msg {
            Msg::Roll => {
                self.game_start = false;
                self.player_turn = false;
                let mut line = String::from_str("\u{1F9D9}\u{200D}\u{2642}\u{FE0F} /roll ");
                line.append(" 1-");
                line.append(decimal(self.roll_amount).as_str());
                self.feed.push(line);
                assert(self@.feed =~= old(self)@.after(msg@, roll).feed);
                Update { scroll: true, next: FollowUp::After(Msg::PlayerRoll(())) }
            },
            Msg::Reset(num_input) => {
                self.roll_amount = num_input;
                self.display_roll.clear();
                self.game_over = false;
                self.player_turn = true;
                self.display_roll.push(num_input);
                self.game_start = true;
                self.computer_result = false;
                self.feed.clear();
                self.num_input = num_input;
                assert(self@.feed =~= Seq::empty());
                assert(self@.display_roll =~= seq![num_input]);
                Update { scroll: false, next: FollowUp::Nothing }
            },
            Msg::ComputerInitialized(_) => {
                if self.roll_amount >= 1 {
                    self.computer_rolled(roll);
                    Update { scroll: true, next: FollowUp::Nothing }
                } else {
                    Update { scroll: false, next: FollowUp::Nothing }
                }
            },
            Msg::PlayerRoll(_) => {
                if self.roll_amount >= 1 {
                    let next = self.player_rolled(roll);
                    Update { scroll: true, next }
                } else {
                    Update { scroll: false, next: FollowUp::Nothing }
                }
            },
            Msg::PlayerResult(_) => {
                let mut line = String::from_str("\u{1F916} /roll ");
                line.append(" 1-");
                line.append(decimal(self.roll_amount).as_str());
                self.feed.push(line);
                self.player_result = false;
                assert(self@.feed =~= old(self)@.after(msg@, roll).feed);
                Update { scroll: true, next: FollowUp::After(Msg::ComputerInitialized(())) }
            },
            Msg::Input(input) => {
                self.num_input = match parse_trimmed(input.as_str()) {
                    Some(bound) => bound,
                    None => 1,
                };
                Update { scroll: false, next: FollowUp::Nothing }
            },
            Msg::Start => {
                if self.num_input != 1 {
                    self.display_roll.clear();
                    self.display_roll.push(self.num_input);
                    self.roll_amount = self.num_input;
                    assert(self@.display_roll =~= seq![self@.num_input]);
                    Update { scroll: false, next: FollowUp::AtOnce(Msg::Roll) }
                } else {
                    Update { scroll: false, next: FollowUp::Nothing }
                }
            },
            Msg::DoNothing => Update { scroll: false, next: FollowUp::Nothing },
            Msg::ShowRules => {
                self.rules = !self.rules;
                Update { scroll: false, next: FollowUp::Nothing }
            },
        }
    }

    /// Takes an event. Where it leads to a roll, a number between 1 and the
    /// bound is drawn for it.
    pub fn update(&mut self, msg: Msg) -> (update: Update)
        requires
            old(self)@.wf(),
        ensures
            final(self)@.wf(),
            exists|roll: u32|
                {
                    &&& old(self)@.rolls(msg@) ==> 1 <= roll <= old(self)@.roll_amount
                    &&& final(self)@ == #[trigger] old(self)@.after(msg@, roll)
                    &&& update@ == old(self)@.update(msg@, roll)
                },
    {
        let roll = match msg {
            Msg::ComputerInitialized(_) | Msg::PlayerRoll(_) => if self.roll_amount >= 1 {
                roll_die(self.roll_amount)
            } else {
                1
            },
            _ => 1,
        };
        self.update_with(msg, roll)
    }
}

} // verus!
