//! The starting bounds that were asked for, by room, as the boundary
//! received them: the text of a request's body, not yet read as a number.
use vstd::prelude::*;

use crate::assoc::{
    as_map, distinct_keys, has_key, key_at, lemma_empty, lemma_entry, lemma_push, lemma_update,
};
use crate::number::{parse_trimmed, parsed_u32, trimmed};
use crate::player::GameId;

verus! {

/// The bound that a recorded text asks for: the number it stands for once
/// the white space around it is dropped, and 0 if it stands for none.
pub open spec fn bound_of_text(text: Seq<char>) -> u32 {
    match parsed_u32(trimmed(text)) {
        Some(bound) => bound,
        None => 0,
    }
}

/// The bound that was recorded for a room, 0 where none was.
pub open spec fn recorded_bound(table: Map<Seq<char>, Seq<char>>, id: Seq<char>) -> u32 {
    if table.contains_key(id) {
        bound_of_text(table[id])
    } else {
        0
    }
}

/// What was recorded for one room.
#[derive(Debug)]
pub struct Recorded {
    id: GameId,
    text: String,
}

/// The starting bounds that were asked for, by room.
#[derive(Debug)]
pub struct StartRoll {
    start_roll: Vec<Recorded>,
}

impl View for StartRoll {
    type V = Map<Seq<char>, Seq<char>>;

    closed spec fn view(&self) -> Map<Seq<char>, Seq<char>> {
        as_map(self.pairs())
    }
}

impl Default for StartRoll {
    fn default() -> (table: StartRoll)
        ensures
            table.wf(),
            table@ == Map::<Seq<char>, Seq<char>>::empty(),
    {
        StartRoll::new()
    }
}

impl StartRoll {
    closed spec fn pairs(&self) -> Seq<(Seq<char>, Seq<char>)> {
        Seq::new(
            self.start_roll@.len(),
            |i: int| (self.start_roll@[i].id@, self.start_roll@[i].text@),
        )
    }

    /// No room is listed twice.
    pub closed spec fn wf(&self) -> bool {
        distinct_keys(self.pairs())
    }

    /// A table with nothing recorded.
    pub fn new() -> (table: StartRoll)
        ensures
            table.wf(),
            table@ == Map::<Seq<char>, Seq<char>>::empty(),
    {
        let table = StartRoll { start_roll: Vec::new() };
        proof {
            lemma_empty::<Seq<char>, Seq<char>>();
            assert(table.pairs() =~= Seq::empty());
        }
        table
    }

    fn position(&self, id: &GameId) -> (place: Option<usize>)
        requires
            self.wf(),
        ensures
            match place {
                Some(at) => key_at(self.pairs(), id@, at as int) && self@.contains_key(id@)
                    && self@[id@] == self.start_roll@[at as int].text@,
                None => !self@.contains_key(id@),
            },
    {
        let mut i: usize = 0;
        while i < self.start_roll.len()
            invariant
                self.wf(),
                i <= self.start_roll.len(),
                forall|j: int| 0 <= j < i ==> !key_at(self.pairs(), id@, j),
            decreases self.start_roll.len() - i,
        {
            if self.start_roll[i].id == *id {
                proof {
                    lemma_entry(self.pairs(), i as int);
                }
                return Some(i);
            }
            i = i + 1;
        }
        assert(!has_key(self.pairs(), id@));
        None
    }

    /// Records the text that asks for a room's starting bound. What was
    /// recorded for the room before is replaced.
    pub fn insert(&mut self, id: GameId, start_roll: String)
        requires
            old(self).wf(),
        ensures
            final(self).wf(),
            final(self)@ == old(self)@.insert(id@, start_roll@),
    {
        match self.position(&id) {
            Some(at) => {
                let ghost text = start_roll@;
                self.start_roll[at].text = start_roll;
                proof {
                    lemma_update(old(self).pairs(), at as int, text);
                    assert(self.pairs() =~= old(self).pairs().update(at as int, (id@, text)));
                }
            },
            None => {
                let ghost text = start_roll@;
                self.start_roll.push(Recorded { id, text: start_roll });
                proof {
                    lemma_push(old(self).pairs(), id@, text);
                    assert(self.pairs() =~= old(self).pairs().push((id@, text)));
                }
            },
        }
    }

    /// The text that was recorded for a room, if any.
    pub fn get(&self, id: &GameId) -> (text: Option<&String>)
        requires
            self.wf(),
        ensures
            match text {
                Some(text) => self@.contains_key(id@) && text@ == self@[id@],
                None => !self@.contains_key(id@),
            },
    {
        match self.position(id) {
            Some(at) => Some(&self.start_roll[at].text),
            None => None,
        }
    }

    /// The bound to open a room with: the number that the recorded text
    /// stands for, and 0 where nothing was recorded or the text is no number.
    pub fn bound_for(&self, id: &GameId) -> (bound: u32)
        requires
            self.wf(),
        ensures
            bound == recorded_bound(self@, id@),
    {
        match self.get(id) {
            Some(text) => match parse_trimmed(text.as_str()) {
                Some(bound) => bound,
                None => 0,
            },
            None => 0,
        }
    }
}

} // verus!
