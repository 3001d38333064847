//! The session registry: which connections each player has open.
use vstd::prelude::*;

use crate::assoc::{
    as_map, distinct_keys, has_key, key_at, lemma_empty, lemma_entry, lemma_push, lemma_remove,
    lemma_update,
};
use crate::player::{ChannelId, PlayerId};
use crate::protocol::{deliveries, GameMessage, MessageView, Outbound, OutboundView};

verus! {

/// The connections that a player has open, oldest first; none for a player
/// who is offline.
pub open spec fn channels_of(
    sessions: Map<PlayerId, Seq<ChannelId>>,
    player: PlayerId,
) -> Seq<ChannelId> {
    if sessions.contains_key(player) {
        sessions[player]
    } else {
        Seq::empty()
    }
}

/// One message on each of a list of connections.
pub open spec fn on_channels(channels: Seq<ChannelId>, message: MessageView) -> Seq<OutboundView> {
    Seq::new(channels.len(), |i: int| OutboundView { channel: channels[i], message })
}

/// One message to one player: a copy for each connection that the player
/// has open, and nothing for a player who is offline.
pub open spec fn to_player(
    sessions: Map<PlayerId, Seq<ChannelId>>,
    player: PlayerId,
    message: MessageView,
) -> Seq<OutboundView> {
    on_channels(channels_of(sessions, player), message)
}

/// The connections of one player.
#[derive(Debug)]
pub struct Session {
    player: PlayerId,
    channels: Vec<ChannelId>,
}

/// Maps each player who is online to the connections they have open. A
/// player may have several, one per open tab, and a message to the player
/// reaches them all.
#[derive(Debug)]
pub struct SessionRegistry {
    entries: Vec<Session>,
}

impl View for SessionRegistry {
    type V = Map<PlayerId, Seq<ChannelId>>;

    closed spec fn view(&self) -> Map<PlayerId, Seq<ChannelId>> {
        as_map(self.pairs())
    }
}

impl SessionRegistry {
    closed spec fn pairs(&self) -> Seq<(PlayerId, Seq<ChannelId>)> {
        Seq::new(self.entries@.len(), |i: int| (self.entries@[i].player, self.entries@[i].channels@))
    }

    /// No player is listed twice.
    pub closed spec fn wf(&self) -> bool {
        distinct_keys(self.pairs())
    }

    /// A registry with nobody online.
    pub fn new() -> (registry: SessionRegistry)
        ensures
            registry.wf(),
            registry@ == Map::<PlayerId, Seq<ChannelId>>::empty(),
    {
        let registry = SessionRegistry { entries: Vec::new() };
        proof {
            lemma_empty::<PlayerId, Seq<ChannelId>>();
            assert(registry.pairs() =~= Seq::empty());
        }
        registry
    }

    fn position(&self, player: PlayerId) -> (place: Option<usize>)
        requires
            self.wf(),
        ensures
            match place {
                Some(at) => key_at(self.pairs(), player, at as int) && self@.contains_key(player)
                    && self@[player] == self.entries@[at as int].channels@,
                None => !self@.contains_key(player),
            },
    {
        let mut i: usize = 0;
        while i < self.entries.len()
            invariant
                self.wf(),
                i <= self.entries.len(),
                forall|j: int| 0 <= j < i ==> !key_at(self.pairs(), player, j),
            decreases self.entries.len() - i,
        {
            if self.entries[i].player == player {
                proof {
                    lemma_entry(self.pairs(), i as int);
                }
                return Some(i);
            }
            i = i + 1;
        }
        assert(!has_key(self.pairs(), player));
        None
    }

    /// Adds a connection for a player, after those the player has already.
    pub fn register(&mut self, player: PlayerId, channel: ChannelId)
        requires
            old(self).wf(),
        ensures
            final(self).wf(),
            final(self)@ == old(self)@.insert(player, channels_of(old(self)@, player).push(channel)),
    {
        match self.position(player) {
            Some(at) => {
                self.entries[at].channels.push(channel);
                proof {
                    lemma_update(
                        old(self).pairs(),
                        at as int,
                        channels_of(old(self)@, player).push(channel),
                    );
                    assert(self.pairs() =~= old(self).pairs().update(
                        at as int,
                        (player, channels_of(old(self)@, player).push(channel)),
                    ));
                }
            },
            None => {
                let mut channels: Vec<ChannelId> = Vec::new();
                channels.push(channel);
                self.entries.push(Session { player, channels });
                proof {
                    lemma_push(old(self).pairs(), player, seq![channel]);
                    assert(channels_of(old(self)@, player).push(channel) =~= seq![channel]);
                    assert(self.pairs() =~= old(self).pairs().push((player, seq![channel])));
                }
            },
        }
    }

    /// Forgets every connection of a player. Says whether there was any.
    pub fn deregister(&mut self, player: PlayerId) -> (was_online: bool)
        requires
            old(self).wf(),
        ensures
            final(self).wf(),
            final(self)@ == old(self)@.remove(player),
            was_online == old(self)@.contains_key(player),
    {
        match self.position(player) {
            Some(at) => {
                self.entries.remove(at);
                proof {
                    lemma_remove(old(self).pairs(), at as int);
                    assert(self.pairs() =~= old(self).pairs().remove(at as int));
                }
                true
            },
            None => {
                assert(old(self)@.remove(player) =~= old(self)@);
                false
            },
        }
    }

    /// Whether a player has a connection open.
    pub fn is_online(&self, player: PlayerId) -> (online: bool)
        requires
            self.wf(),
        ensures
            online == self@.contains_key(player),
    {
        self.position(player).is_some()
    }

    /// The connections that a player has open, oldest first.
    pub fn channels(&self, player: PlayerId) -> (list: Vec<ChannelId>)
        requires
            self.wf(),
        ensures
            list@ == channels_of(self@, player),
    {
        let mut list: Vec<ChannelId> = Vec::new();
        match self.position(player) {
            Some(at) => {
                let channels = &self.entries[at].channels;
                let mut i: usize = 0;
                while i < channels.len()
                    invariant
                        i <= channels.len(),
                        list@ == channels@.take(i as int),
                    decreases channels.len() - i,
                {
                    list.push(channels[i]);
                    i = i + 1;
                    assert(list@ =~= channels@.take(i as int));
                }
                assert(channels@.take(i as int) =~= channels@);
            },
            None => {},
        }
        list
    }

    /// Addresses a message to a player: appends to `out` one copy for each
    /// connection that the player has open, oldest connection first. A
    /// message to a player who is offline is dropped.
    pub fn send_to(&self, player: PlayerId, message: &GameMessage, out: &mut Vec<Outbound>)
        requires
            self.wf(),
        ensures
            deliveries(final(out)@) == deliveries(old(out)@) + to_player(self@, player, message@),
    {
        match self.position(player) {
            Some(at) => {
                let channels = &self.entries[at].channels;
                let mut i: usize = 0;
                while i < channels.len()
                    invariant
                        i <= channels.len(),
                        channels@ == channels_of(self@, player),
                        deliveries(out@) == deliveries(old(out)@) + on_channels(
                            channels@.take(i as int),
                            message@,
                        ),
                    decreases channels.len() - i,
                {
                    let ghost before = deliveries(out@);
                    let ghost sent = on_channels(channels@.take(i as int), message@);
                    let ghost next = OutboundView { channel: channels@[i as int], message: message@ };
                    out.push(Outbound { channel: channels[i], message: message.clone() });
                    i = i + 1;
                    assert(deliveries(out@) =~= before.push(next));
                    assert(on_channels(channels@.take(i as int), message@) =~= sent.push(next));
                    assert(before.push(next) =~= deliveries(old(out)@) + sent.push(next));
                }
                assert(channels@.take(i as int) =~= channels@);
            },
            None => {
                assert(deliveries(out@) =~= deliveries(old(out)@) + to_player(
                    self@,
                    player,
                    message@,
                ));
            },
        }
    }
}

} // verus!
