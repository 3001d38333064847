//! What travels over the feed bus, from the socket to the pages that listen.
use vstd::prelude::*;

verus! {

/// A message for the feed bus.
#[derive(Debug)]
pub enum Request {
    /// A text frame, to be handed on to every listener as it is.
    EventBusMsg(String),
}

impl View for Request {
    type V = Seq<char>;

    open spec fn view(&self) -> Seq<char> {
        match self {
            Request::EventBusMsg(text) => text@,
        }
    }
}

impl Request {
    /// The text that every listener is handed.
    pub fn into_text(self) -> (text: String)
        ensures
            text@ == self@,
    {
        match self {
            Request::EventBusMsg(text) => text,
        }
    }
}

} // verus!
