//! The client's side of the game: what a page keeps in mind between two
//! events, and what each event makes of it. Nothing here draws a page or
//! opens a socket; each step takes an event and says what is to be done.
pub mod address;
pub mod cpu;
pub mod feed_bus;
pub mod homepage;
pub mod multiplayer;
pub mod routes;
pub mod websockets;
