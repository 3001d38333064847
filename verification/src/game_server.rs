//! The coordinator: the single owner of every session, membership and room.
//! It takes one command at a time and answers with the notifications to be
//! written, each addressed to one connection.
use vstd::prelude::*;

use crate::dice::roll_die;
use crate::membership::{joined, members_of, no_member_twice, to_room, without, RoomMembership};
use crate::player::{ChannelId, GameId, PlayerId};
use crate::protocol::{
    deliveries, notices, GameMessage, MessageView, Notice, NoticeView, Outbound, OutboundView,
};
use crate::room::{GameState, RoomView, TurnKind};
use crate::rooms::{all_rooms_wf, RoomStore};
use crate::sessions::{channels_of, to_player, SessionRegistry};

verus! {

/// What can be asked of the coordinator.
#[derive(Debug)]
pub enum Command {
    /// A connection was opened: `channel` is its handle, `start_roll` the
    /// bound that was recorded for the room, 0 where none was.
    Connect { channel: ChannelId, game_id: GameId, player_id: PlayerId, start_roll: u32 },
    /// A player's connection was closed.
    Disconnect { player_id: PlayerId },
    /// A player wants to roll.
    Turn { player_id: PlayerId, game_id: GameId },
}

/// A command as plain data.
pub enum CommandView {
    Connect { channel: ChannelId, game_id: Seq<char>, player_id: PlayerId, start_roll: u32 },
    Disconnect { player_id: PlayerId },
    Turn { player_id: PlayerId, game_id: Seq<char> },
}

impl View for Command {
    type V = CommandView;

    open spec fn view(&self) -> CommandView {
        match self {
            Command::Connect { channel, game_id, player_id, start_roll } => CommandView::Connect {
                channel: *channel,
                game_id: game_id@,
                player_id: *player_id,
                start_roll: *start_roll,
            },
            Command::Disconnect { player_id } => CommandView::Disconnect { player_id: *player_id },
            Command::Turn { player_id, game_id } => CommandView::Turn {
                player_id: *player_id,
                game_id: game_id@,
            },
        }
    }
}

/// Everything the coordinator owns, as plain data.
pub struct ServerView {
    /// The connections that each online player has open.
    pub sessions: Map<PlayerId, Seq<ChannelId>>,
    /// The members of each room.
    pub players: Map<Seq<char>, Seq<PlayerId>>,
    /// The state of each room.
    pub game_rooms: Map<Seq<char>, RoomView>,
}

impl ServerView {
    /// What holds of the coordinator at all times: no room lists a member
    /// twice, and every room is in order.
    pub open spec fn wf(self) -> bool {
        no_member_twice(self.players) && all_rooms_wf(self.game_rooms)
    }

    /// A coordinator that has seen no command yet.
    pub open spec fn empty() -> ServerView {
        ServerView { sessions: Map::empty(), players: Map::empty(), game_rooms: Map::empty() }
    }

    /// The transcript of a room, addressed to every member of the room;
    /// nothing for a room that nobody opened.
    pub open spec fn feed_out(self, room: Seq<char>) -> Seq<OutboundView> {
        if self.game_rooms.contains_key(room) {
            to_room(
                self.sessions,
                self.players,
                room,
                MessageView::GameScore(self.game_rooms[room].feed),
            )
        } else {
            Seq::empty()
        }
    }

    /// The addressed copies of one notice from a room.
    pub open spec fn deliver_one(self, room: Seq<char>, notice: NoticeView) -> Seq<OutboundView> {
        match notice {
            NoticeView::To(player, message) => to_player(self.sessions, player, message),
            NoticeView::Feed => self.feed_out(room),
        }
    }

    /// The addressed copies of a room's notices, in the order of the notices.
    pub open spec fn deliver(self, room: Seq<char>, list: Seq<NoticeView>) -> Seq<OutboundView>
        decreases list.len(),
    {
        if list.len() == 0 {
            Seq::empty()
        } else {
            self.deliver(room, list.drop_last()) + self.deliver_one(room, list.last())
        }
    }

    /// The coordinator after a connection was opened: the connection is
    /// registered, the player is a member of the room, and the room admits
    /// the player, or is opened for them if it did not exist and a bound was
    /// recorded for it.
    pub open spec fn connected(
        self,
        channel: ChannelId,
        room: Seq<char>,
        player: PlayerId,
        bound: nat,
    ) -> ServerView {
        ServerView {
            sessions: self.sessions.insert(
                player,
                channels_of(self.sessions, player).push(channel),
            ),
            players: self.players.insert(room, joined(members_of(self.players, room), player)),
            game_rooms: if self.game_rooms.contains_key(room) {
                self.game_rooms.insert(room, self.game_rooms[room].after_connect(player))
            } else if bound >= 1 {
                self.game_rooms.insert(room, RoomView::opened(player, bound))
            } else {
                self.game_rooms
            },
        }
    }

    /// What the room says when a connection is opened.
    pub open spec fn connect_notices(self, room: Seq<char>, player: PlayerId, bound: nat) -> Seq<
        NoticeView,
    > {
        if self.game_rooms.contains_key(room) {
            self.game_rooms[room].connect_notices(player)
        } else if bound >= 1 {
            RoomView::welcome(player, bound)
        } else {
            seq![NoticeView::To(player, MessageView::NoGameFound)]
        }
    }

    /// What is written when a connection is opened. The new connection is
    /// among those that are written to.
    pub open spec fn connect_out(
        self,
        channel: ChannelId,
        room: Seq<char>,
        player: PlayerId,
        bound: nat,
    ) -> Seq<OutboundView> {
        self.connected(channel, room, player, bound).deliver(
            room,
            self.connect_notices(room, player, bound),
        )
    }

    /// The coordinator after a player's connection was closed: the player
    /// has no connection left and is a member of no room. The rooms' states
    /// stay as they are.
    pub open spec fn disconnected(self, player: PlayerId) -> ServerView {
        ServerView {
            sessions: self.sessions.remove(player),
            players: self.players.map_values(|list: Seq<PlayerId>| without(list, player)),
            game_rooms: self.game_rooms,
        }
    }

    /// Whether `roll` is a number that the die can show for a request to
    /// roll. Where the request leads to no roll, the number is not looked at.
    pub open spec fn can_show(self, player: PlayerId, room: Seq<char>, roll: nat) -> bool {
        self.game_rooms.contains_key(room) ==> self.game_rooms[room].can_show(player, roll)
    }

    /// The coordinator after a request to roll, `roll` being the number drawn.
    pub open spec fn turned(self, player: PlayerId, room: Seq<char>, roll: nat) -> ServerView {
        if self.game_rooms.contains_key(room) {
            ServerView {
                game_rooms: self.game_rooms.insert(
                    room,
                    self.game_rooms[room].after_turn(player, roll),
                ),
                ..self
            }
        } else {
            self
        }
    }

    /// What is written after a request to roll. A request for a room that
    /// nobody opened is ignored.
    pub open spec fn turn_out(self, player: PlayerId, room: Seq<char>, roll: nat) -> Seq<
        OutboundView,
    > {
        if self.game_rooms.contains_key(room) {
            self.turned(player, room, roll).deliver(
                room,
                self.game_rooms[room].turn_notices(player, roll),
            )
        } else {
            Seq::empty()
        }
    }
}

/// The coordinator.
#[derive(Debug)]
pub struct GameServer {
    sessions: SessionRegistry,
    players: RoomMembership,
    game_rooms: RoomStore,
}

impl View for GameServer {
    type V = ServerView;

    closed spec fn view(&self) -> ServerView {
        ServerView {
            sessions: self.sessions@,
            players: self.players@,
            game_rooms: self.game_rooms@,
        }
    }
}

impl GameServer {
    /// The three stores are in order.
    pub closed spec fn stores_wf(&self) -> bool {
        self.sessions.wf() && self.players.wf() && self.game_rooms.wf()
    }

    /// What holds of the coordinator between any two commands.
    pub open spec fn wf(&self) -> bool {
        self.stores_wf() && self@.wf()
    }

    /// A coordinator without sessions, members or rooms.
    pub fn new() -> (server: GameServer)
        ensures
            server.wf(),
            server@ == ServerView::empty(),
    {
        GameServer {
            sessions: SessionRegistry::new(),
            players: RoomMembership::new(),
            game_rooms: RoomStore::new(),
        }
    }

    /// The state of a room, if the room was opened.
    pub fn room(&self, game_id: &GameId) -> (room: Option<&GameState>)
        requires
            self.wf(),
        ensures
            match room {
                Some(state) => self@.game_rooms.contains_key(game_id@) && state@
                    == self@.game_rooms[game_id@],
                None => !self@.game_rooms.contains_key(game_id@),
            },
    {
        self.game_rooms.get(game_id)
    }

    /// The members of a room, in the order in which they came.
    pub fn members(&self, game_id: &GameId) -> (list: Vec<PlayerId>)
        requires
            self.wf(),
        ensures
            list@ == members_of(self@.players, game_id@),
    {
        self.players.members(game_id)
    }

    /// The connections that a player has open, oldest first.
    pub fn channels(&self, player_id: PlayerId) -> (list: Vec<ChannelId>)
        requires
            self.wf(),
        ensures
            list@ == channels_of(self@.sessions, player_id),
    {
        self.sessions.channels(player_id)
    }

    /// Addresses one message to one player: a copy for each connection that
    /// the player has open, none if the player is offline.
    pub fn send_status_message(&self, player_id: PlayerId, msg: &GameMessage) -> (out: Vec<
        Outbound,
    >)
        requires
            self.wf(),
        ensures
            deliveries(out@) == to_player(self@.sessions, player_id, msg@),
    {
        let mut out: Vec<Outbound> = Vec::new();
        self.sessions.send_to(player_id, msg, &mut out);
        assert(deliveries(out@) =~= to_player(self@.sessions, player_id, msg@));
        out
    }

    /// Addresses the transcript of a room to every member of the room. Nothing
    /// is written for a room that nobody opened.
    pub fn update_game_feed(&self, game_id: &GameId) -> (out: Vec<Outbound>)
        requires
            self.wf(),
        ensures
            deliveries(out@) == self@.feed_out(game_id@),
    {
        let mut out: Vec<Outbound> = Vec::new();
        match self.game_rooms.get(game_id) {
            Some(room) => {
                let message = room.game_score();
                self.players.broadcast(&self.sessions, game_id, &message, &mut out);
                assert(deliveries(out@) =~= to_room(
                    self@.sessions,
                    self@.players,
                    game_id@,
                    message@,
                ));
            },
            None => {
                assert(deliveries(out@) =~= Seq::empty());
            },
        }
        out
    }

    /// Addresses the notices of a room, one after the other.
    fn deliver(&self, game_id: &GameId, list: &Vec<Notice>) -> (out: Vec<Outbound>)
        requires
            self.wf(),
        ensures
            deliveries(out@) == self@.deliver(game_id@, notices(list@)),
    {
        let mut out: Vec<Outbound> = Vec::new();
        let mut i: usize = 0;
        assert(deliveries(out@) =~= Seq::empty());
        assert(notices(list@).take(0) =~= Seq::empty());
        while i < list.len()
            invariant
                self.wf(),
                i <= list.len(),
                deliveries(out@) == self@.deliver(game_id@, notices(list@).take(i as int)),
            decreases list.len() - i,
        {
            let ghost sent = deliveries(out@);
            let mut more = match &list[i] {
                Notice::To(player, message) => self.send_status_message(*player, message),
                Notice::Feed => self.update_game_feed(game_id),
            };
            let ghost added = deliveries(more@);
            out.append(&mut more);
            i = i + 1;
            proof {
                let upto = notices(list@).take(i as int);
                assert(upto.drop_last() =~= notices(list@).take(i - 1));
                assert(upto.last() == list@[i - 1]@);
                assert(deliveries(out@) =~= sent + added);
            }
        }
        assert(notices(list@).take(i as int) =~= notices(list@));
        out
    }

    /// Opens a connection: registers it under the player, makes the player a
    /// member of the room, and lets the room admit the player. A room that
    /// does not exist yet is opened with `start_roll` as its bound and the
    /// player in its first seat; with no bound recorded (`start_roll` is 0)
    /// the player is told that there is no such game, and no room is opened.
    pub fn connect(
        &mut self,
        channel: ChannelId,
        game_id: GameId,
        player_id: PlayerId,
        start_roll: u32,
    ) -> (out: Vec<Outbound>)
        requires
            old(self).wf(),
        ensures
            final(self).wf(),
            final(self)@ == old(self)@.connected(channel, game_id@, player_id, start_roll as nat),
            deliveries(out@) == old(self)@.connect_out(
                channel,
                game_id@,
                player_id,
                start_roll as nat,
            ),
    {
        self.sessions.register(player_id, channel);
        self.players.add(&game_id, player_id);
        let list = match self.game_rooms.connect(&game_id, player_id) {
            Some(list) => list,
            None => match GameState::open(player_id, start_roll) {
                Some(room) => {
                    self.game_rooms.insert(&game_id, room);
                    GameState::welcome(player_id, start_roll)
                },
                None => {
                    let mut list: Vec<Notice> = Vec::new();
                    list.push(Notice::To(player_id, GameMessage::NoGameFound));
                    assert(notices(list@) =~= seq![
                        NoticeView::To(player_id, MessageView::NoGameFound),
                    ]);
                    list
                },
            },
        };
        self.deliver(&game_id, &list)
    }

    /// Closes a player's connections: the player is offline and a member of
    /// no room. The rooms' states stay, so that the player can come back.
    pub fn disconnect(&mut self, player_id: PlayerId)
        requires
            old(self).wf(),
        ensures
            final(self).wf(),
            final(self)@ == old(self)@.disconnected(player_id),
    {
        self.sessions.deregister(player_id);
        self.players.remove(player_id);
    }

    /// Answers a request to roll for which the die showed `roll`. The number
    /// counts only where the request is the turn holder's in a running round.
    pub fn resolve_turn(&mut self, player_id: PlayerId, game_id: &GameId, roll: u32) -> (out: Vec<
        Outbound,
    >)
        requires
            old(self).wf(),
            old(self)@.can_show(player_id, game_id@, roll as nat),
        ensures
            final(self).wf(),
            final(self)@ == old(self)@.turned(player_id, game_id@, roll as nat),
            deliveries(out@) == old(self)@.turn_out(player_id, game_id@, roll as nat),
    {
        match self.game_rooms.turn(game_id, player_id, roll) {
            Some(list) => self.deliver(game_id, &list),
            None => {
                let out: Vec<Outbound> = Vec::new();
                assert(deliveries(out@) =~= Seq::empty());
                out
            },
        }
    }

    /// Answers a request to roll. Where the request is the turn holder's in
    /// a running round, a number between 1 and the room's bound is drawn and
    /// the roll is resolved with it; every other request is answered without
    /// a draw.
    pub fn new_turn(&mut self, player_id: PlayerId, game_id: GameId) -> (out: Vec<Outbound>)
        requires
            old(self).wf(),
        ensures
            final(self).wf(),
            exists|roll: nat|
                {
                    &&& #[trigger] old(self)@.can_show(player_id, game_id@, roll)
                    &&& final(self)@ == old(self)@.turned(player_id, game_id@, roll)
                    &&& deliveries(out@) == old(self)@.turn_out(player_id, game_id@, roll)
                },
    {
        let roll = match self.game_rooms.get(&game_id) {
            Some(room) => match room.turn_kind(player_id) {
                TurnKind::Roll => roll_die(room.current_bound()),
                _ => 1,
            },
            None => 1,
        };
        assert(old(self)@.can_show(player_id, game_id@, roll as nat));
        self.resolve_turn(player_id, &game_id, roll)
    }

    /// Processes one command and returns what is to be written.
    pub fn handle(&mut self, command: Command) -> (out: Vec<Outbound>)
        requires
            old(self).wf(),
        ensures
            final(self).wf(),
            match command {
                Command::Connect { channel, game_id, player_id, start_roll } => {
                    &&& final(self)@ == old(self)@.connected(
                        channel,
                        game_id@,
                        player_id,
                        start_roll as nat,
                    )
                    &&& deliveries(out@) == old(self)@.connect_out(
                        channel,
                        game_id@,
                        player_id,
                        start_roll as nat,
                    )
                },
                Command::Disconnect { player_id } => {
                    &&& final(self)@ == old(self)@.disconnected(player_id)
                    &&& out@.len() == 0
                },
                Command::Turn { player_id, game_id } => exists|roll: nat|
                    {
                        &&& #[trigger] old(self)@.can_show(player_id, game_id@, roll)
                        &&& final(self)@ == old(self)@.turned(player_id, game_id@, roll)
                        &&& deliveries(out@) == old(self)@.turn_out(player_id, game_id@, roll)
                    },
            },
    {
        match command {
            Command::Connect { channel, game_id, player_id, start_roll } => self.connect(
                channel,
                game_id,
                player_id,
                start_roll,
            ),
            Command::Disconnect { player_id } => {
                self.disconnect(player_id);
                Vec::new()
            },
            Command::Turn { player_id, game_id } => self.new_turn(player_id, game_id),
        }
    }
}

} // verus!
