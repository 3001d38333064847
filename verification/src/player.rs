//! Identities: players, their connections, and the two seats of a room.
use vstd::prelude::*;

verus! {

/// The durable identity of a player, the 128 bits of the token that the
/// boundary issued once and sees again on every reconnect.
#[derive(Clone, Copy, Debug, PartialEq, Eq, Structural, Hash)]
pub struct PlayerId(pub u128);

/// The handle of one outbound connection (one open tab or socket). The
/// boundary issues a fresh handle per connection and keeps the socket behind it.
#[derive(Clone, Copy, Debug, PartialEq, Eq, Structural, Hash)]
pub struct ChannelId(pub u64);

/// A room identity: the short random string in the invite link.
pub type GameId = String;

/// One text frame.
pub type Msg = String;

/// One of the two seats of a room.
#[derive(Clone, Copy, Debug, PartialEq, Eq, Structural)]
pub enum Seat {
    One,
    Two,
}

impl Seat {
    /// The seat across the table.
    pub open spec fn spec_other(self) -> Seat {
        match self {
            Seat::One => Seat::Two,
            Seat::Two => Seat::One,
        }
    }

    /// The seat across the table.
    #[verifier::when_used_as_spec(spec_other)]
    pub fn other(self) -> (seat: Seat)
        ensures
            seat == self.spec_other(),
    {
        match self {
            Seat::One => Seat::Two,
            Seat::Two => Seat::One,
        }
    }
}

} // verus!
