//! What holds of every room and of the coordinator, whatever is asked of them.
use vstd::prelude::*;

use crate::game_server::ServerView;
use crate::membership::{
    lemma_joined_distinct, lemma_without_contains, lemma_without_distinct, members_of,
};
use crate::player::{ChannelId, PlayerId};
use crate::protocol::{MessageView, NoticeView, OutboundView};
use crate::room::{RoomView, TurnKind};
use crate::sessions::{channels_of, to_player};
use crate::text::new_game_line_text;

verus! {

/// A room that is in order stays in order: the bound is at least 1, the turn
/// holder and the opener hold seats, the seats are held by different
/// players, and no round runs in a room with an empty seat.
pub proof fn law_room_stays_in_order(room: RoomView, player: PlayerId, roll: nat)
    requires
        room.wf(),
        room.can_show(player, roll),
    ensures
        room.after_connect(player).wf(),
        room.after_turn(player, roll).wf(),
{
}

/// A freshly opened room is in order.
pub proof fn law_opened_room_in_order(player: PlayerId, bound: nat)
    requires
        1 <= bound <= u32::MAX,
    ensures
        RoomView::opened(player, bound).wf(),
{
}

/// While a round runs, exactly one of the two seats holds the turn.
pub proof fn law_one_seat_holds_the_turn(room: RoomView)
    requires
        room.wf(),
        room.started,
        !room.over,
    ensures
        room.player_two is Some,
        (room.turn_holder == room.player_one) != (room.turn_holder == room.player_two.unwrap()),
{
}

/// Within a round the bound never grows: nothing but the start of the next
/// round raises it, and after a roll it is the number rolled.
pub proof fn law_bound_never_grows_within_round(room: RoomView, player: PlayerId, roll: nat)
    requires
        room.wf(),
        room.can_show(player, roll),
    ensures
        room.after_connect(player).current_bound == room.current_bound,
        room.turn_kind(player) != TurnKind::Rematch ==> room.after_turn(player, roll).current_bound
            <= room.current_bound,
        room.turn_kind(player) == TurnKind::Roll ==> room.after_turn(player, roll).current_bound
            == roll,
{
}

/// A roll above 1 passes the turn to the other participant and leaves the
/// round running; a roll of 1 ends the round.
pub proof fn law_roll_passes_turn_or_ends_round(room: RoomView, player: PlayerId, roll: nat)
    requires
        room.wf(),
        room.turn_kind(player) == TurnKind::Roll,
        1 <= roll <= room.current_bound,
    ensures
        roll != 1 ==> {
            let next = room.after_turn(player, roll);
            &&& !next.over
            &&& next.turn_holder != room.turn_holder
            &&& next.seat_of(next.turn_holder) == Some(room.turn_seat().spec_other())
        },
        roll == 1 ==> room.after_turn(player, roll).over,
{
}

/// Once a round is over, no request to roll changes the bound but the one
/// that starts the next round: a participant's request is that start, and
/// anybody else's changes nothing.
pub proof fn law_over_until_rematch(room: RoomView, player: PlayerId, roll: nat)
    requires
        room.wf(),
        room.over,
    ensures
        room.seat_of(player) is Some ==> room.after_turn(player, roll) == room.rematch(),
        room.seat_of(player) is None ==> room.after_turn(player, roll) == room,
        room.after_connect(player) == room,
{
}

/// The next round is opened by the participant who did not open the one
/// before, and starts from the bound that the room was created with.
pub proof fn law_rematch_alternates_opener(room: RoomView)
    requires
        room.wf(),
        room.over,
    ensures
        room.rematch().starting_player != room.starting_player,
        room.rematch().seat_of(room.rematch().starting_player) is Some,
        room.rematch().turn_holder == room.rematch().starting_player,
        room.rematch().current_bound == room.rematch().initial_bound,
        room.rematch().initial_bound == room.initial_bound,
        room.rematch().score_p1 == room.score_p1,
        room.rematch().score_p2 == room.score_p2,
        !room.rematch().over,
{
}

/// Within a round the transcript only grows: what was written stays, and
/// connecting writes nothing. The next round starts with a transcript of
/// its own, which holds the line that announces it and nothing else.
pub proof fn law_feed_grows_within_round(room: RoomView, player: PlayerId, roll: nat)
    requires
        room.wf(),
        room.can_show(player, roll),
    ensures
        room.after_connect(player).feed == room.feed,
        room.turn_kind(player) != TurnKind::Rematch ==> room.feed.is_prefix_of(
            room.after_turn(player, roll).feed,
        ),
        room.turn_kind(player) == TurnKind::Roll ==> room.after_turn(player, roll).feed.len()
            == room.feed.len() + 1,
        room.turn_kind(player) == TurnKind::Rematch ==> room.after_turn(player, roll).feed
            == seq![new_game_line_text(room.initial_bound)],
{
    let next = room.after_turn(player, roll);
    if room.turn_kind(player) != TurnKind::Rematch {
        assert(room.feed =~= next.feed.subrange(0, room.feed.len() as int));
    }
}

/// The number drawn is looked at only when the request leads to a roll:
/// every other request has the same outcome whatever the number.
pub proof fn law_only_rolls_look_at_the_die(
    room: RoomView,
    player: PlayerId,
    one: nat,
    other: nat,
)
    requires
        room.turn_kind(player) != TurnKind::Roll,
    ensures
        room.after_turn(player, one) == room.after_turn(player, other),
        room.turn_notices(player, one) == room.turn_notices(player, other),
{
}

/// The win counters never go down.
pub proof fn law_scores_never_drop(room: RoomView, player: PlayerId, roll: nat)
    requires
        room.wf(),
        room.can_show(player, roll),
    ensures
        room.after_connect(player).score_p1 == room.score_p1,
        room.after_connect(player).score_p2 == room.score_p2,
        room.after_turn(player, roll).score_p1 >= room.score_p1,
        room.after_turn(player, roll).score_p2 >= room.score_p2,
{
}

/// Something that happens to a room.
pub enum RoomEvent {
    /// A player connects.
    Connect(PlayerId),
    /// A player asks to roll, and the die shows the given number.
    Turn(PlayerId, nat),
}

/// The room after one event.
pub open spec fn after_event(room: RoomView, event: RoomEvent) -> RoomView {
    match event {
        RoomEvent::Connect(player) => room.after_connect(player),
        RoomEvent::Turn(player, roll) => room.after_turn(player, roll),
    }
}

/// The room after a history of events.
pub open spec fn after_events(room: RoomView, events: Seq<RoomEvent>) -> RoomView
    decreases events.len(),
{
    if events.len() == 0 {
        room
    } else {
        after_event(after_events(room, events.drop_last()), events.last())
    }
}

/// Whether an event is a roll of 1, which completes a round.
pub open spec fn completes_round(room: RoomView, event: RoomEvent) -> bool {
    match event {
        RoomEvent::Connect(_) => false,
        RoomEvent::Turn(player, roll) => room.turn_kind(player) == TurnKind::Roll && roll == 1,
    }
}

/// The number of rounds that a history completes.
pub open spec fn rounds_completed(room: RoomView, events: Seq<RoomEvent>) -> nat
    decreases events.len(),
{
    if events.len() == 0 {
        0
    } else {
        let before = after_events(room, events.drop_last());
        rounds_completed(room, events.drop_last()) + if completes_round(before, events.last()) {
            1nat
        } else {
            0nat
        }
    }
}

/// Whether every roll of a history shows a number that the die can show.
pub open spec fn die_shows_all(room: RoomView, events: Seq<RoomEvent>) -> bool
    decreases events.len(),
{
    if events.len() == 0 {
        true
    } else {
        let before = after_events(room, events.drop_last());
        &&& die_shows_all(room, events.drop_last())
        &&& match events.last() {
            RoomEvent::Connect(_) => true,
            RoomEvent::Turn(player, roll) => before.can_show(player, roll),
        }
    }
}

/// The two win counters together count the rounds that were completed, as
/// long as that number fits a counter: each round that a history completes
/// adds one win, and nothing else adds or takes any.
pub proof fn law_scores_count_completed_rounds(room: RoomView, events: Seq<RoomEvent>)
    requires
        room.wf(),
        die_shows_all(room, events),
        room.score_p1 + room.score_p2 + rounds_completed(room, events) <= u32::MAX,
    ensures
        after_events(room, events).wf(),
        after_events(room, events).score_p1 + after_events(room, events).score_p2 == room.score_p1
            + room.score_p2 + rounds_completed(room, events),
    decreases events.len(),
{
    if events.len() > 0 {
        law_scores_count_completed_rounds(room, events.drop_last());
    }
}

/// A coordinator that is in order stays so when a connection is opened:
/// the member is listed once, and the room that admits or is opened for the
/// player is in order.
pub proof fn law_connect_keeps_order(
    server: ServerView,
    channel: ChannelId,
    room: Seq<char>,
    player: PlayerId,
    bound: nat,
)
    requires
        server.wf(),
        bound <= u32::MAX,
    ensures
        server.connected(channel, room, player, bound).wf(),
{
    lemma_joined_distinct(members_of(server.players, room), player);
}

/// A coordinator that is in order stays so when a player is disconnected.
pub proof fn law_disconnect_keeps_order(server: ServerView, player: PlayerId)
    requires
        server.wf(),
    ensures
        server.disconnected(player).wf(),
{
    let gone = server.disconnected(player);
    assert forall|id: Seq<char>| #[trigger]
        gone.players.contains_key(id) implies gone.players[id].no_duplicates() by {
        assert(server.players.contains_key(id));
        lemma_without_distinct(server.players[id], player);
    }
}

/// A coordinator that is in order stays so after a request to roll.
pub proof fn law_turn_keeps_order(server: ServerView, player: PlayerId, room: Seq<char>, roll: nat)
    requires
        server.wf(),
        server.can_show(player, room, roll),
    ensures
        server.turned(player, room, roll).wf(),
{
}

/// Something that is asked of the coordinator.
pub enum ServerEvent {
    /// A connection is opened, with the bound that was recorded for the room.
    Connect { channel: ChannelId, room: Seq<char>, player: PlayerId, bound: nat },
    /// A player's connections are closed.
    Disconnect { player: PlayerId },
    /// A player asks to roll, and the die shows the given number.
    Turn { player: PlayerId, room: Seq<char>, roll: nat },
}

/// Whether an event can come about: a recorded bound fits 32 bits, and the
/// die shows a number that it can show.
pub open spec fn can_happen(server: ServerView, event: ServerEvent) -> bool {
    match event {
        ServerEvent::Connect { bound, .. } => bound <= u32::MAX,
        ServerEvent::Disconnect { .. } => true,
        ServerEvent::Turn { player, room, roll } => server.can_show(player, room, roll),
    }
}

/// The coordinator after one event.
pub open spec fn server_after(server: ServerView, event: ServerEvent) -> ServerView {
    match event {
        ServerEvent::Connect { channel, room, player, bound } => server.connected(
            channel,
            room,
            player,
            bound,
        ),
        ServerEvent::Disconnect { player } => server.disconnected(player),
        ServerEvent::Turn { player, room, roll } => server.turned(player, room, roll),
    }
}

/// The coordinator after a history of events, from its first command on.
pub open spec fn server_after_all(events: Seq<ServerEvent>) -> ServerView
    decreases events.len(),
{
    if events.len() == 0 {
        ServerView::empty()
    } else {
        server_after(server_after_all(events.drop_last()), events.last())
    }
}

/// Whether every event of a history can come about when its turn comes.
pub open spec fn can_all_happen(events: Seq<ServerEvent>) -> bool
    decreases events.len(),
{
    if events.len() == 0 {
        true
    } else {
        &&& can_all_happen(events.drop_last())
        &&& can_happen(server_after_all(events.drop_last()), events.last())
    }
}

/// Whatever the coordinator has been asked, every room it holds is in
/// order and no room lists a member twice.
pub proof fn law_every_reachable_state_in_order(events: Seq<ServerEvent>)
    requires
        can_all_happen(events),
    ensures
        server_after_all(events).wf(),
    decreases events.len(),
{
    if events.len() > 0 {
        let before = server_after_all(events.drop_last());
        law_every_reachable_state_in_order(events.drop_last());
        match events.last() {
            ServerEvent::Connect { channel, room, player, bound } => {
                law_connect_keeps_order(before, channel, room, player, bound);
            },
            ServerEvent::Disconnect { player } => {
                law_disconnect_keeps_order(before, player);
            },
            ServerEvent::Turn { player, room, roll } => {
                law_turn_keeps_order(before, player, room, roll);
            },
        }
    }
}

/// A player who holds a seat and connects again finds the room as it was:
/// turn holder, bound, counters and all. Whoever connects, only the second
/// seat can change.
pub proof fn law_reconnect_changes_nothing(room: RoomView, player: PlayerId)
    requires
        room.wf(),
    ensures
        room.seat_of(player) is Some ==> room.after_connect(player) == room,
        room.after_connect(player).turn_holder == room.turn_holder,
        room.after_connect(player).current_bound == room.current_bound,
        room.after_connect(player).score_p1 == room.score_p1,
        room.after_connect(player).score_p2 == room.score_p2,
{
}

/// At the coordinator, a connection from a player who holds a seat in the
/// room leaves every room as it was.
pub proof fn law_reconnect_keeps_rooms(
    server: ServerView,
    channel: ChannelId,
    room: Seq<char>,
    player: PlayerId,
    bound: nat,
)
    requires
        server.wf(),
        server.game_rooms.contains_key(room),
        server.game_rooms[room].seat_of(player) is Some,
    ensures
        server.connected(channel, room, player, bound).game_rooms == server.game_rooms,
{
    assert(server.connected(channel, room, player, bound).game_rooms =~= server.game_rooms);
}

/// Connecting twice is as good as connecting once, but for the second
/// connection itself: the player is listed once among the room's members,
/// and the seats are as the first connection left them.
pub proof fn law_connect_is_idempotent(
    server: ServerView,
    first: ChannelId,
    second: ChannelId,
    room: Seq<char>,
    player: PlayerId,
    bound: nat,
)
    requires
        server.wf(),
        bound <= u32::MAX,
    ensures
        ({
            let once = server.connected(first, room, player, bound);
            let twice = once.connected(second, room, player, bound);
            &&& once.wf()
            &&& members_of(once.players, room).contains(player)
            &&& twice.players == once.players
            &&& twice.game_rooms == once.game_rooms
        }),
{
    let once = server.connected(first, room, player, bound);
    let twice = once.connected(second, room, player, bound);
    law_connect_keeps_order(server, first, room, player, bound);
    lemma_joined_distinct(members_of(server.players, room), player);
    assert(twice.players =~= once.players);
    assert(twice.game_rooms =~= once.game_rooms);
}

/// A connection from a player who is a member of the room already leaves
/// the membership as it is.
pub proof fn law_member_is_listed_once(
    server: ServerView,
    channel: ChannelId,
    room: Seq<char>,
    player: PlayerId,
    bound: nat,
)
    requires
        server.wf(),
        members_of(server.players, room).contains(player),
    ensures
        server.connected(channel, room, player, bound).players == server.players,
{
    let next = server.connected(channel, room, player, bound);
    assert(next.players =~= server.players);
}

/// A request to roll from somebody without a seat changes nothing and is
/// answered to that player alone.
pub proof fn law_spectators_cannot_roll(room: RoomView, player: PlayerId, roll: nat)
    requires
        room.seat_of(player) is None,
    ensures
        room.after_turn(player, roll) == room,
        room.turn_notices(player, roll) == seq![NoticeView::To(player, MessageView::Spectate)],
{
}

/// A request to roll in a room with an empty seat changes nothing: there is
/// nobody to roll against.
pub proof fn law_no_roll_without_opponent(room: RoomView, player: PlayerId, roll: nat)
    requires
        room.wf(),
        room.player_two is None,
    ensures
        room.after_turn(player, roll) == room,
{
}

/// What a request to roll does to one room, it does to that room alone.
pub proof fn law_rooms_are_independent(
    server: ServerView,
    player: PlayerId,
    room: Seq<char>,
    roll: nat,
    other: Seq<char>,
)
    requires
        other != room,
    ensures
        server.turned(player, room, roll).game_rooms.contains_key(other)
            == server.game_rooms.contains_key(other),
        server.game_rooms.contains_key(other) ==> server.turned(player, room, roll).game_rooms[other]
            == server.game_rooms[other],
        server.turned(player, room, roll).sessions == server.sessions,
        server.turned(player, room, roll).players == server.players,
{
}

/// A player who is offline is written nothing, and a player who is online
/// is written once on each open connection.
pub proof fn law_one_copy_per_connection(
    sessions: Map<PlayerId, Seq<ChannelId>>,
    player: PlayerId,
    message: MessageView,
)
    ensures
        !sessions.contains_key(player) ==> to_player(sessions, player, message).len() == 0,
        to_player(sessions, player, message).len() == channels_of(sessions, player).len(),
        forall|i: int|
            0 <= i < channels_of(sessions, player).len() ==> #[trigger] to_player(
                sessions,
                player,
                message,
            )[i] == (OutboundView { channel: channels_of(sessions, player)[i], message }),
{
}

/// A disconnection leaves every room's state as it was, so that the player
/// finds their seat again. The player is offline afterwards and a member of
/// no room, and everybody else is a member of the rooms they were in.
pub proof fn law_disconnect_keeps_rooms(
    server: ServerView,
    player: PlayerId,
    room: Seq<char>,
    other: PlayerId,
)
    ensures
        server.disconnected(player).game_rooms == server.game_rooms,
        !server.disconnected(player).sessions.contains_key(player),
        !members_of(server.disconnected(player).players, room).contains(player),
        other != player ==> members_of(server.disconnected(player).players, room).contains(other)
            == members_of(server.players, room).contains(other),
        other != player ==> channels_of(server.disconnected(player).sessions, other)
            == channels_of(server.sessions, other),
{
    if server.players.contains_key(room) {
        lemma_without_contains(server.players[room], player, player);
        lemma_without_contains(server.players[room], player, other);
    }
}

} // verus!
