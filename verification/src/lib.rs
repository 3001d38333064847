//! Deathroll: two players take turns rolling a die whose upper bound is the
//! previous roll; whoever rolls 1 loses the round.
//!
//! The crate holds the rules of the game and the coordinator that owns every
//! room: who is admitted, whose turn it is, what each roll does, and which
//! notification goes to which connection. Nothing here touches a socket; the
//! coordinator hands back the frames to be written and the caller writes them.
//!
//! - [`room`] is one room and its rules; [`rooms`], [`sessions`] and
//!   [`membership`] are the three stores that the coordinator in
//!   [`game_server`] owns.
//! - [`protocol`] names the notifications, [`text`] words them, and [`wire`]
//!   writes them as JSON.
//! - [`websockets`] decides what becomes of a client's frame, and
//!   [`start_roll`] keeps the bounds that rooms were asked to start with.
//! - [`client`] is the other side: the pages' states and what events make of
//!   them.
//! - [`laws`] states what holds of all of this, whatever happens.
pub mod assoc;
pub mod client;
mod dice;
pub mod game_server;
pub mod laws;
pub mod membership;
pub mod number;
pub mod player;
pub mod protocol;
pub mod room;
pub mod rooms;
pub mod sessions;
pub mod start_roll;
pub mod text;
pub mod websockets;
pub mod wire;
