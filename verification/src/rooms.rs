//! The room state store: the state of every room that somebody has opened.
use vstd::prelude::*;

use crate::assoc::{
    as_map, distinct_keys, has_key, key_at, lemma_empty, lemma_entry, lemma_push, lemma_update,
};
use crate::player::{GameId, PlayerId};
use crate::protocol::{notices, Notice};
use crate::room::{GameState, RoomView, TurnKind};

verus! {

/// Every room is in order.
pub open spec fn all_rooms_wf(rooms: Map<Seq<char>, RoomView>) -> bool {
    forall|id: Seq<char>| #[trigger] rooms.contains_key(id) ==> rooms[id].wf()
}

/// A room under its identity.
#[derive(Debug)]
pub struct Room {
    id: GameId,
    state: GameState,
}

/// Maps each room identity to the state of its room. A room stays for good
/// once it is opened.
#[derive(Debug)]
pub struct RoomStore {
    entries: Vec<Room>,
}

impl View for RoomStore {
    type V = Map<Seq<char>, RoomView>;

    closed spec fn view(&self) -> Map<Seq<char>, RoomView> {
        as_map(self.pairs())
    }
}

impl RoomStore {
    closed spec fn pairs(&self) -> Seq<(Seq<char>, RoomView)> {
        Seq::new(self.entries@.len(), |i: int| (self.entries@[i].id@, self.entries@[i].state@))
    }

    /// No identity is listed twice.
    pub closed spec fn distinct_ids(&self) -> bool {
        distinct_keys(self.pairs())
    }

    /// No identity is listed twice, and every room is in order.
    pub open spec fn wf(&self) -> bool {
        self.distinct_ids() && all_rooms_wf(self@)
    }

    /// A store without rooms.
    pub fn new() -> (store: RoomStore)
        ensures
            store.wf(),
            store@ == Map::<Seq<char>, RoomView>::empty(),
    {
        let store = RoomStore { entries: Vec::new() };
        proof {
            lemma_empty::<Seq<char>, RoomView>();
            assert(store.pairs() =~= Seq::empty());
        }
        store
    }

    fn position(&self, id: &GameId) -> (place: Option<usize>)
        requires
            self.distinct_ids(),
        ensures
            match place {
                Some(at) => key_at(self.pairs(), id@, at as int) && self@.contains_key(id@)
                    && self@[id@] == self.entries@[at as int].state@,
                None => !self@.contains_key(id@),
            },
    {
        let mut i: usize = 0;
        while i < self.entries.len()
            invariant
                self.distinct_ids(),
                i <= self.entries.len(),
                forall|j: int| 0 <= j < i ==> !key_at(self.pairs(), id@, j),
            decreases self.entries.len() - i,
        {
            if self.entries[i].id == *id {
                proof {
                    lemma_entry(self.pairs(), i as int);
                }
                return Some(i);
            }
            i = i + 1;
        }
        assert(!has_key(self.pairs(), id@));
        None
    }

    /// The room under an identity, if one was opened.
    pub fn get(&self, id: &GameId) -> (room: Option<&GameState>)
        requires
            self.wf(),
        ensures
            match room {
                Some(state) => self@.contains_key(id@) && state@ == self@[id@],
                None => !self@.contains_key(id@),
            },
    {
        match self.position(id) {
            Some(at) => Some(&self.entries[at].state),
            None => None,
        }
    }

    /// Puts a new room under an identity that has none yet. Where the
    /// identity has a room already, nothing changes and the answer is `false`.
    pub fn insert(&mut self, id: &GameId, state: GameState) -> (done: bool)
        requires
            old(self).wf(),
            state@.wf(),
        ensures
            final(self).wf(),
            done == !old(self)@.contains_key(id@),
            done ==> final(self)@ == old(self)@.insert(id@, state@),
            !done ==> final(self)@ == old(self)@,
    {
        match self.position(id) {
            Some(_) => false,
            None => {
                let ghost room = state@;
                self.entries.push(Room { id: id.clone(), state });
                proof {
                    lemma_push(old(self).pairs(), id@, room);
                    assert(self.pairs() =~= old(self).pairs().push((id@, room)));
                }
                true
            },
        }
    }

    /// Admits a connecting player to the room under an identity, and says
    /// what the player is to be told. `None` where no such room was opened.
    pub fn connect(&mut self, id: &GameId, player: PlayerId) -> (told: Option<Vec<Notice>>)
        requires
            old(self).wf(),
        ensures
            final(self).wf(),
            match told {
                Some(list) => {
                    &&& old(self)@.contains_key(id@)
                    &&& final(self)@ == old(self)@.insert(
                        id@,
                        old(self)@[id@].after_connect(player),
                    )
                    &&& notices(list@) == old(self)@[id@].connect_notices(player)
                },
                None => !old(self)@.contains_key(id@) && final(self)@ == old(self)@,
            },
    {
        match self.position(id) {
            Some(at) => {
                assert(old(self)@[id@].wf());
                let list = self.entries[at].state.connect(player);
                proof {
                    let room = old(self)@[id@].after_connect(player);
                    lemma_update(old(self).pairs(), at as int, room);
                    assert(self.pairs() =~= old(self).pairs().update(at as int, (id@, room)));
                }
                Some(list)
            },
            None => None,
        }
    }

    /// What a request to roll from this player amounts to in the room under
    /// an identity. `None` where no such room was opened.
    pub fn turn_kind(&self, id: &GameId, player: PlayerId) -> (kind: Option<TurnKind>)
        requires
            self.wf(),
        ensures
            match kind {
                Some(kind) => self@.contains_key(id@) && kind == self@[id@].turn_kind(player),
                None => !self@.contains_key(id@),
            },
    {
        match self.position(id) {
            Some(at) => Some(self.entries[at].state.turn_kind(player)),
            None => None,
        }
    }

    /// Answers a request to roll in the room under an identity, `roll` being
    /// the number drawn for it, and says what is to be told to whom. `None`
    /// where no such room was opened.
    pub fn turn(&mut self, id: &GameId, player: PlayerId, roll: u32) -> (told: Option<Vec<Notice>>)
        requires
            old(self).wf(),
            old(self)@.contains_key(id@) ==> old(self)@[id@].can_show(player, roll as nat),
        ensures
            final(self).wf(),
            match told {
                Some(list) => {
                    &&& old(self)@.contains_key(id@)
                    &&& final(self)@ == old(self)@.insert(
                        id@,
                        old(self)@[id@].after_turn(player, roll as nat),
                    )
                    &&& notices(list@) == old(self)@[id@].turn_notices(player, roll as nat)
                },
                None => !old(self)@.contains_key(id@) && final(self)@ == old(self)@,
            },
    {
        match self.position(id) {
            Some(at) => {
                assert(old(self)@[id@].wf());
                let list = self.entries[at].state.turn(player, roll);
                proof {
                    let room = old(self)@[id@].after_turn(player, roll as nat);
                    lemma_update(old(self).pairs(), at as int, room);
                    assert(self.pairs() =~= old(self).pairs().update(at as int, (id@, room)));
                }
                Some(list)
            },
            None => None,
        }
    }
}

} // verus!
