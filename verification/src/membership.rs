//! The room membership index: who is associated with each room, seated or
//! watching, in the order in which they came.
use vstd::prelude::*;

use crate::assoc::{
    as_map, distinct_keys, has_key, key_at, lemma_empty, lemma_entry, lemma_map_values, lemma_push,
    lemma_update,
};
use crate::player::{GameId, PlayerId};
use crate::protocol::{deliveries, GameMessage, MessageView, Outbound, OutboundView};
use crate::sessions::{to_player, SessionRegistry};

verus! {

/// The members of a room, in the order in which they came; none for a room
/// that nobody has connected to.
pub open spec fn members_of(
    members: Map<Seq<char>, Seq<PlayerId>>,
    room: Seq<char>,
) -> Seq<PlayerId> {
    if members.contains_key(room) {
        members[room]
    } else {
        Seq::empty()
    }
}

/// A member list after a player came: a newcomer stands last, and a player
/// who is a member already is not listed again.
pub open spec fn joined(list: Seq<PlayerId>, player: PlayerId) -> Seq<PlayerId> {
    if list.contains(player) {
        list
    } else {
        list.push(player)
    }
}

/// A member list after a player left: the others, in their order.
pub open spec fn without(list: Seq<PlayerId>, player: PlayerId) -> Seq<PlayerId>
    decreases list.len(),
{
    if list.len() == 0 {
        list
    } else if list.last() == player {
        without(list.drop_last(), player)
    } else {
        without(list.drop_last(), player).push(list.last())
    }
}

/// No room lists a player twice.
pub open spec fn no_member_twice(members: Map<Seq<char>, Seq<PlayerId>>) -> bool {
    forall|room: Seq<char>| #[trigger] members.contains_key(room) ==> members[room].no_duplicates()
}

/// One message to each player of a list, in the list's order.
pub open spec fn to_players(
    sessions: Map<PlayerId, Seq<crate::player::ChannelId>>,
    players: Seq<PlayerId>,
    message: MessageView,
) -> Seq<OutboundView>
    decreases players.len(),
{
    if players.len() == 0 {
        Seq::empty()
    } else {
        to_players(sessions, players.drop_last(), message) + to_player(
            sessions,
            players.last(),
            message,
        )
    }
}

/// One message to every member of a room.
pub open spec fn to_room(
    sessions: Map<PlayerId, Seq<crate::player::ChannelId>>,
    members: Map<Seq<char>, Seq<PlayerId>>,
    room: Seq<char>,
    message: MessageView,
) -> Seq<OutboundView> {
    to_players(sessions, members_of(members, room), message)
}

/// A list without repetitions stays so when a player comes.
pub proof fn lemma_joined_distinct(list: Seq<PlayerId>, player: PlayerId)
    requires
        list.no_duplicates(),
    ensures
        joined(list, player).no_duplicates(),
        joined(list, player).contains(player),
{
    let after = joined(list, player);
    if !list.contains(player) {
        assert(after[list.len() as int] == player);
        assert forall|i: int, j: int|
            0 <= i < after.len() && 0 <= j < after.len() && i != j implies after[i] != after[j] by {
            if i == list.len() {
                assert(list.contains(list[j]));
            } else if j == list.len() {
                assert(list.contains(list[i]));
            }
        }
    }
}

/// Who is left after a player went: exactly the others.
pub proof fn lemma_without_contains(list: Seq<PlayerId>, player: PlayerId, other: PlayerId)
    ensures
        without(list, player).contains(other) <==> list.contains(other) && other != player,
    decreases list.len(),
{
    let left = without(list, player);
    if list.len() > 0 {
        let rest = list.drop_last();
        let last = list.last();
        let kept = without(rest, player);
        lemma_without_contains(rest, player, other);
        if list.contains(other) {
            let i = choose|i: int| 0 <= i < list.len() && list[i] == other;
            if i < rest.len() {
                assert(rest[i] == other);
            }
        }
        if rest.contains(other) {
            let i = choose|i: int| 0 <= i < rest.len() && rest[i] == other;
            assert(list[i] == other);
        }
        if other == last {
            assert(list[list.len() - 1] == other);
        }
        if last != player {
            assert(left == kept.push(last));
            if left.contains(other) {
                let i = choose|i: int| 0 <= i < left.len() && left[i] == other;
                if i < kept.len() {
                    assert(kept[i] == other);
                }
            }
            if kept.contains(other) {
                let i = choose|i: int| 0 <= i < kept.len() && kept[i] == other;
                assert(left[i] == other);
            }
            if other == last {
                assert(left[left.len() - 1] == other);
            }
        }
    }
}

/// A list without repetitions stays so when a player leaves.
pub proof fn lemma_without_distinct(list: Seq<PlayerId>, player: PlayerId)
    requires
        list.no_duplicates(),
    ensures
        without(list, player).no_duplicates(),
    decreases list.len(),
{
    let left = without(list, player);
    if list.len() > 0 {
        let rest = list.drop_last();
        let last = list.last();
        let kept = without(rest, player);
        assert(rest.no_duplicates());
        lemma_without_distinct(rest, player);
        if last != player {
            assert(left == kept.push(last));
            lemma_without_contains(rest, player, last);
            assert(!rest.contains(last)) by {
                if rest.contains(last) {
                    let i = choose|i: int| 0 <= i < rest.len() && rest[i] == last;
                    assert(list[i] == list[list.len() - 1]);
                }
            }
            assert forall|i: int, j: int|
                0 <= i < left.len() && 0 <= j < left.len() && i != j implies left[i] != left[j] by {
                if i == kept.len() {
                    assert(kept.contains(kept[j]));
                } else if j == kept.len() {
                    assert(kept.contains(kept[i]));
                }
            }
        }
    }
}

/// The members of one room.
#[derive(Debug)]
pub struct RoomMembers {
    room: GameId,
    players: Vec<PlayerId>,
}

/// Maps each room to the players associated with it, participants and
/// spectators alike.
#[derive(Debug)]
pub struct RoomMembership {
    entries: Vec<RoomMembers>,
}

impl View for RoomMembership {
    type V = Map<Seq<char>, Seq<PlayerId>>;

    closed spec fn view(&self) -> Map<Seq<char>, Seq<PlayerId>> {
        as_map(self.pairs())
    }
}

impl RoomMembership {
    closed spec fn pairs(&self) -> Seq<(Seq<char>, Seq<PlayerId>)> {
        Seq::new(self.entries@.len(), |i: int| (self.entries@[i].room@, self.entries@[i].players@))
    }

    /// No room is listed twice.
    pub closed spec fn distinct_rooms(&self) -> bool {
        distinct_keys(self.pairs())
    }

    /// No room is listed twice, and no room lists a player twice.
    pub open spec fn wf(&self) -> bool {
        self.distinct_rooms() && no_member_twice(self@)
    }

    /// An index without rooms.
    pub fn new() -> (index: RoomMembership)
        ensures
            index.wf(),
            index@ == Map::<Seq<char>, Seq<PlayerId>>::empty(),
    {
        let index = RoomMembership { entries: Vec::new() };
        proof {
            lemma_empty::<Seq<char>, Seq<PlayerId>>();
            assert(index.pairs() =~= Seq::empty());
        }
        index
    }

    fn position(&self, room: &GameId) -> (place: Option<usize>)
        requires
            self.distinct_rooms(),
        ensures
            match place {
                Some(at) => key_at(self.pairs(), room@, at as int) && self@.contains_key(room@)
                    && self@[room@] == self.entries@[at as int].players@,
                None => !self@.contains_key(room@),
            },
    {
        let mut i: usize = 0;
        while i < self.entries.len()
            invariant
                self.distinct_rooms(),
                i <= self.entries.len(),
                forall|j: int| 0 <= j < i ==> !key_at(self.pairs(), room@, j),
            decreases self.entries.len() - i,
        {
            if self.entries[i].room == *room {
                proof {
                    lemma_entry(self.pairs(), i as int);
                }
                return Some(i);
            }
            i = i + 1;
        }
        assert(!has_key(self.pairs(), room@));
        None
    }

    /// Associates a player with a room. A player who is a member already is
    /// not listed again.
    pub fn add(&mut self, room: &GameId, player: PlayerId)
        requires
            old(self).wf(),
        ensures
            final(self).wf(),
            final(self)@ == old(self)@.insert(room@, joined(members_of(old(self)@, room@), player)),
    {
        match self.position(room) {
            Some(at) => {
                let mut i: usize = 0;
                let mut found = false;
                while i < self.entries[at].players.len()
                    invariant
                        at < self.entries.len(),
                        i <= self.entries[at as int].players.len(),
                        found == self.entries[at as int].players@.take(i as int).contains(player),
                    decreases self.entries[at as int].players.len() - i,
                {
                    let ghost list = self.entries[at as int].players@;
                    if self.entries[at].players[i] == player {
                        found = true;
                    }
                    i = i + 1;
                    proof {
                        let before = list.take(i - 1);
                        let now = list.take(i as int);
                        assert(now =~= before.push(list[i - 1]));
                        if before.contains(player) {
                            let k = choose|k: int| 0 <= k < before.len() && before[k] == player;
                            assert(now[k] == player);
                        }
                        if list[i - 1] == player {
                            assert(now[i - 1] == player);
                        }
                    }
                }
                assert(self.entries[at as int].players@.take(i as int)
                    =~= self.entries[at as int].players@);
                if !found {
                    self.entries[at].players.push(player);
                }
                proof {
                    let list = joined(members_of(old(self)@, room@), player);
                    lemma_update(old(self).pairs(), at as int, list);
                    assert(self.pairs() =~= old(self).pairs().update(at as int, (room@, list)));
                    lemma_joined_distinct(old(self)@[room@], player);
                    assert(no_member_twice(self@));
                }
            },
            None => {
                let mut players: Vec<PlayerId> = Vec::new();
                players.push(player);
                self.entries.push(RoomMembers { room: room.clone(), players });
                proof {
                    lemma_push(old(self).pairs(), room@, seq![player]);
                    assert(joined(members_of(old(self)@, room@), player) =~= seq![player]);
                    assert(self.pairs() =~= old(self).pairs().push((room@, seq![player])));
                    assert(no_member_twice(self@));
                }
            },
        }
    }

    /// Takes a player out of every room.
    pub fn remove(&mut self, player: PlayerId)
        requires
            old(self).wf(),
        ensures
            final(self).wf(),
            final(self)@ == old(self)@.map_values(|list: Seq<PlayerId>| without(list, player)),
    {
        let ghost rule = |list: Seq<PlayerId>| without(list, player);
        let mut at: usize = 0;
        while at < self.entries.len()
            invariant
                at <= self.entries.len(),
                self.entries.len() == old(self).entries.len(),
                forall|i: int|
                    0 <= i < at ==> #[trigger] self.pairs()[i] == (
                        old(self).pairs()[i].0,
                        rule(old(self).pairs()[i].1),
                    ),
                forall|i: int|
                    at <= i < self.entries.len() ==> #[trigger] self.entries[i] == old(
                        self,
                    ).entries[i],
                rule == |list: Seq<PlayerId>| without(list, player),
            decreases self.entries.len() - at,
        {
            let ghost list = self.entries[at as int].players@;
            let mut kept: Vec<PlayerId> = Vec::new();
            let mut i: usize = 0;
            while i < self.entries[at].players.len()
                invariant
                    at < self.entries.len(),
                    list == self.entries[at as int].players@,
                    i <= list.len(),
                    kept@ == without(list.take(i as int), player),
                decreases list.len() - i,
            {
                let member = self.entries[at].players[i];
                if member != player {
                    kept.push(member);
                }
                i = i + 1;
                proof {
                    assert(list.take(i as int).drop_last() =~= list.take(i - 1));
                }
            }
            assert(list.take(i as int) =~= list);
            let ghost before = self.pairs();
            self.entries[at].players = kept;
            at = at + 1;
            proof {
                assert forall|i: int| 0 <= i < at implies #[trigger] self.pairs()[i] == (
                    old(self).pairs()[i].0,
                    rule(old(self).pairs()[i].1),
                ) by {
                    if i < at - 1 {
                        assert(self.pairs()[i] == before[i]);
                    }
                }
            }
        }
        proof {
            lemma_map_values(old(self).pairs(), self.pairs(), rule);
            assert forall|room: Seq<char>| #[trigger]
                self@.contains_key(room) implies self@[room].no_duplicates() by {
                assert(old(self)@.contains_key(room));
                lemma_without_distinct(old(self)@[room], player);
            }
        }
    }

    /// The members of a room, in the order in which they came.
    pub fn members(&self, room: &GameId) -> (list: Vec<PlayerId>)
        requires
            self.wf(),
        ensures
            list@ == members_of(self@, room@),
    {
        let mut list: Vec<PlayerId> = Vec::new();
        match self.position(room) {
            Some(at) => {
                let players = &self.entries[at].players;
                let mut i: usize = 0;
                while i < players.len()
                    invariant
                        i <= players.len(),
                        list@ == players@.take(i as int),
                    decreases players.len() - i,
                {
                    list.push(players[i]);
                    i = i + 1;
                    assert(list@ =~= players@.take(i as int));
                }
                assert(players@.take(i as int) =~= players@);
            },
            None => {},
        }
        list
    }

    /// Addresses a message to every member of a room: appends to `out`, for
    /// each member in turn, one copy for each connection that the member has
    /// open.
    pub fn broadcast(
        &self,
        sessions: &SessionRegistry,
        room: &GameId,
        message: &GameMessage,
        out: &mut Vec<Outbound>,
    )
        requires
            self.wf(),
            sessions.wf(),
        ensures
            deliveries(final(out)@) == deliveries(old(out)@) + to_room(
                sessions@,
                self@,
                room@,
                message@,
            ),
    {
        match self.position(room) {
            Some(at) => {
                let players = &self.entries[at].players;
                let mut i: usize = 0;
                assert(to_players(sessions@, players@.take(0), message@) =~= Seq::empty());
                assert(deliveries(out@) =~= deliveries(old(out)@) + Seq::empty());
                while i < players.len()
                    invariant
                        sessions.wf(),
                        i <= players.len(),
                        deliveries(out@) == deliveries(old(out)@) + to_players(
                            sessions@,
                            players@.take(i as int),
                            message@,
                        ),
                    decreases players.len() - i,
                {
                    let ghost sent = to_players(sessions@, players@.take(i as int), message@);
                    sessions.send_to(players[i], message, out);
                    i = i + 1;
                    proof {
                        assert(players@.take(i as int).drop_last() =~= players@.take(i - 1));
                        assert(deliveries(out@) =~= deliveries(old(out)@) + (sent + to_player(
                            sessions@,
                            players@[i - 1],
                            message@,
                        )));
                    }
                }
                assert(players@.take(i as int) =~= players@);
            },
            None => {
                assert(deliveries(out@) =~= deliveries(old(out)@) + to_room(
                    sessions@,
                    self@,
                    room@,
                    message@,
                ));
            },
        }
    }
}

} // verus!
