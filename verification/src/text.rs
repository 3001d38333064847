//! The words of the game: decimal numbers, the two players' icons, and every
//! line that the coordinator writes into a feed or a status.
use vstd::prelude::*;
use vstd::string::StringExecFns;

use crate::player::Seat;

verus! {

/// The character of one decimal digit.
pub open spec fn digit_char(d: nat) -> char
    recommends
        d < 10,
{
    if d == 0 {
        '0'
    } else if d == 1 {
        '1'
    } else if d == 2 {
        '2'
    } else if d == 3 {
        '3'
    } else if d == 4 {
        '4'
    } else if d == 5 {
        '5'
    } else if d == 6 {
        '6'
    } else if d == 7 {
        '7'
    } else if d == 8 {
        '8'
    } else {
        '9'
    }
}

/// A number written in base ten, without sign or leading zeros.
pub open spec fn decimal_text(n: nat) -> Seq<char>
    decreases n,
{
    if n < 10 {
        seq![digit_char(n)]
    } else {
        decimal_text(n / 10).push(digit_char(n % 10))
    }
}

fn digit_str(d: u32) -> (s: &'static str)
    requires
        d < 10,
    ensures
        s@ == seq![digit_char(d as nat)],
{
    proof {
        reveal_strlit("0");
        reveal_strlit("1");
        reveal_strlit("2");
        reveal_strlit("3");
        reveal_strlit("4");
        reveal_strlit("5");
        reveal_strlit("6");
        reveal_strlit("7");
        reveal_strlit("8");
        reveal_strlit("9");
    }
    let s = if d == 0 {
        "0"
    } else if d == 1 {
        "1"
    } else if d == 2 {
        "2"
    } else if d == 3 {
        "3"
    } else if d == 4 {
        "4"
    } else if d == 5 {
        "5"
    } else if d == 6 {
        "6"
    } else if d == 7 {
        "7"
    } else if d == 8 {
        "8"
    } else {
        "9"
    };
    assert(s@ =~= seq![digit_char(d as nat)]);
    s
}

/// Writes a number in base ten.
pub fn decimal(n: u32) -> (s: String)
    ensures
        s@ == decimal_text(n as nat),
    decreases n,
{
    if n < 10 {
        String::from_str(digit_str(n))
    } else {
        let mut s = decimal(n / 10);
        s.append(digit_str(n % 10));
        assert(s@ =~= decimal_text(n as nat));
        s
    }
}

/// The icon under which a seat's holder appears in every line: a mage for
/// the first seat, a zombie for the second.
pub open spec fn icon_text(seat: Seat) -> Seq<char> {
    match seat {
        Seat::One => "\u{1F9D9}\u{200D}\u{2642}\u{FE0F}"@,
        Seat::Two => "\u{1F9DF}"@,
    }
}

/// The icon of a seat.
pub fn icon(seat: Seat) -> (s: &'static str)
    ensures
        s@ == icon_text(seat),
{
    match seat {
        Seat::One => "\u{1F9D9}\u{200D}\u{2642}\u{FE0F}",
        Seat::Two => "\u{1F9DF}",
    }
}

/// The feed entry of a roll that did not end the round: who rolled, what,
/// and out of which bound.
pub open spec fn roll_line_text(seat: Seat, roll: nat, bound: nat) -> Seq<char> {
    icon_text(seat) + " "@ + decimal_text(roll) + " \u{1F3B2} (1-"@ + decimal_text(bound) + ")"@
}

/// The feed entry of a roll that did not end the round.
pub fn roll_line(seat: Seat, roll: u32, bound: u32) -> (line: String)
    ensures
        line@ == roll_line_text(seat, roll as nat, bound as nat),
{
    let mut line = String::from_str(icon(seat));
    line.append(" ");
    line.append(decimal(roll).as_str());
    line.append(" \u{1F3B2} (1-");
    line.append(decimal(bound).as_str());
    line.append(")");
    line
}

/// The feed entry that closes a round: who rolled the 1, out of which
/// bound, and both win counters as they stand after the round.
pub open spec fn death_line_text(seat: Seat, bound: nat, score_one: nat, score_two: nat) -> Seq<
    char,
> {
    icon_text(seat) + " 1 \u{1F480} (1-"@ + decimal_text(bound) + ") "@ + icon_text(Seat::One)
        + " \u{1F3C6} "@ + decimal_text(score_one) + " "@ + icon_text(Seat::Two) + " \u{1F3C6} "@
        + decimal_text(score_two)
}

/// The feed entry that closes a round.
pub fn death_line(seat: Seat, bound: u32, score_one: u32, score_two: u32) -> (line: String)
    ensures
        line@ == death_line_text(seat, bound as nat, score_one as nat, score_two as nat),
{
    let mut line = String::from_str(icon(seat));
    line.append(" 1 \u{1F480} (1-");
    line.append(decimal(bound).as_str());
    line.append(") ");
    line.append(icon(Seat::One));
    line.append(" \u{1F3C6} ");
    line.append(decimal(score_one).as_str());
    line.append(" ");
    line.append(icon(Seat::Two));
    line.append(" \u{1F3C6} ");
    line.append(decimal(score_two).as_str());
    line
}

/// The feed entry that opens every round after the first.
pub open spec fn new_game_line_text(bound: nat) -> Seq<char> {
    "New Game \u{2694}\u{FE0F} "@ + decimal_text(bound)
}

/// The feed entry that opens every round after the first.
pub fn new_game_line(bound: u32) -> (line: String)
    ensures
        line@ == new_game_line_text(bound as nat),
{
    let mut line = String::from_str("New Game \u{2694}\u{FE0F} ");
    line.append(decimal(bound).as_str());
    line
}

/// What the roller is told after a roll: the number.
pub open spec fn rolled_text(seat: Seat, roll: nat) -> Seq<char> {
    icon_text(seat) + " \u{1F3B2} "@ + decimal_text(roll)
}

/// What the roller is told after a roll.
pub fn rolled(seat: Seat, roll: u32) -> (line: String)
    ensures
        line@ == rolled_text(seat, roll as nat),
{
    let mut line = String::from_str(icon(seat));
    line.append(" \u{1F3B2} ");
    line.append(decimal(roll).as_str());
    line
}

/// What the holder of `seat` is told when the turn passes to them.
pub open spec fn your_roll_text(seat: Seat) -> Seq<char> {
    icon_text(seat) + " \u{1F3B2} It's your roll!"@
}

/// What the holder of `seat` is told when the turn passes to them.
pub fn your_roll(seat: Seat) -> (line: String)
    ensures
        line@ == your_roll_text(seat),
{
    let mut line = String::from_str(icon(seat));
    line.append(" \u{1F3B2} It's your roll!");
    line
}

/// The game-over line of the loser.
pub open spec fn defeat_text(seat: Seat) -> Seq<char> {
    icon_text(seat) + " \u{1F480}"@
}

/// The game-over line of the loser.
pub fn defeat(seat: Seat) -> (line: String)
    ensures
        line@ == defeat_text(seat),
{
    let mut line = String::from_str(icon(seat));
    line.append(" \u{1F480}");
    line
}

/// The game-over line of the winner.
pub open spec fn victory_text(seat: Seat) -> Seq<char> {
    icon_text(seat) + " \u{1F3C6}"@
}

/// The game-over line of the winner.
pub fn victory(seat: Seat) -> (line: String)
    ensures
        line@ == victory_text(seat),
{
    let mut line = String::from_str(icon(seat));
    line.append(" \u{1F3C6}");
    line
}

/// What the opener of a round is told before its first roll.
pub open spec fn roll_to_start_text(seat: Seat) -> Seq<char> {
    icon_text(seat) + " \u{1F3B2} roll to start"@
}

/// What the opener of a round is told before its first roll.
pub fn roll_to_start(seat: Seat) -> (line: String)
    ensures
        line@ == roll_to_start_text(seat),
{
    let mut line = String::from_str(icon(seat));
    line.append(" \u{1F3B2} roll to start");
    line
}

/// What the holder of `seat` is told while the roll is the other seat's.
pub open spec fn waiting_text(seat: Seat) -> Seq<char> {
    icon_text(seat) + " \u{1F3B2} waiting for "@ + icon_text(seat.spec_other()) + " to roll"@
}

/// What the holder of `seat` is told while the roll is the other seat's.
pub fn waiting(seat: Seat) -> (line: String)
    ensures
        line@ == waiting_text(seat),
{
    let mut line = String::from_str(icon(seat));
    line.append(" \u{1F3B2} waiting for ");
    line.append(icon(seat.other()));
    line.append(" to roll");
    line
}

/// What a returning participant is shown first: their own icon and the die.
pub open spec fn seat_status_text(seat: Seat) -> Seq<char> {
    icon_text(seat) + " \u{1F3B2}"@
}

/// What a returning participant is shown first.
pub fn seat_status(seat: Seat) -> (line: String)
    ensures
        line@ == seat_status_text(seat),
{
    let mut line = String::from_str(icon(seat));
    line.append(" \u{1F3B2}");
    line
}

/// What the first player is told when asking to roll in a room that nobody
/// has joined yet.
pub open spec fn no_opponent_text() -> Seq<char> {
    icon_text(Seat::One) + " \u{1F3B2} waiting for "@ + icon_text(Seat::Two) + " to join"@
}

/// What the first player is told when asking to roll in a room that nobody
/// has joined yet.
pub fn no_opponent() -> (line: String)
    ensures
        line@ == no_opponent_text(),
{
    let mut line = String::from_str(icon(Seat::One));
    line.append(" \u{1F3B2} waiting for ");
    line.append(icon(Seat::Two));
    line.append(" to join");
    line
}

} // verus!
