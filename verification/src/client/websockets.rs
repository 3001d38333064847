//! The client's socket: the requests it sends, and what becomes of what it
//! receives.
use vstd::prelude::*;

use crate::client::feed_bus::Request;
use crate::protocol::{GameMessage, MessageView};
use crate::wire::wire_text;

verus! {

/// A request to the server.
#[derive(Clone, Copy, Debug, PartialEq, Eq, Structural)]
pub enum WsMsg {
    Ping,
    Close,
    Start,
    Roll,
}

impl WsMsg {
    /// The text of the request on the wire: its name in lower case, as a
    /// JSON string.
    pub open spec fn wire_text(self) -> Seq<char> {
        match self {
            WsMsg::Ping => "\"ping\""@,
            WsMsg::Close => "\"close\""@,
            WsMsg::Start => "\"start\""@,
            WsMsg::Roll => "\"roll\""@,
        }
    }

    /// The text of the request on the wire.
    pub fn encode(self) -> (json: &'static str)
        ensures
            json@ == self.wire_text(),
    {
        match self {
            WsMsg::Ping => "\"ping\"",
            WsMsg::Close => "\"close\"",
            WsMsg::Start => "\"start\"",
            WsMsg::Roll => "\"roll\"",
        }
    }
}

/// What the socket yields: a frame, or the way in which it failed.
#[derive(Debug)]
pub enum SocketEvent {
    /// A text frame.
    Text(String),
    /// A binary frame.
    Bytes,
    /// The connection could not be made.
    ConnectionError,
    /// The connection was closed.
    ConnectionClose,
    /// A frame could not be sent.
    MessageSendError,
}

/// What is put on the feed bus for a socket event, if anything: a text
/// frame as it came, the notice of a disconnection when the connection was
/// closed, and nothing otherwise.
pub open spec fn bus_text(event: SocketEvent) -> Option<Seq<char>> {
    match event {
        SocketEvent::Text(text) => Some(text@),
        SocketEvent::ConnectionClose => Some(wire_text(MessageView::Disconnect)),
        _ => None,
    }
}

/// Decides what is put on the feed bus for a socket event.
pub fn on_socket_event(event: SocketEvent) -> (request: Option<Request>)
    ensures
        match request {
            Some(request) => bus_text(event) == Some(request@),
            None => bus_text(event) is None,
        },
{
    match event {
        SocketEvent::Text(text) => Some(Request::EventBusMsg(text)),
        SocketEvent::ConnectionClose => Some(Request::EventBusMsg(GameMessage::Disconnect.encode())),
        _ => None,
    }
}

} // verus!
