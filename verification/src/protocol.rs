//! The closed set of notifications that travel to the clients, the requests
//! that travel back, and the envelope that addresses one notification to one
//! connection.
use vstd::prelude::*;

use crate::player::{ChannelId, PlayerId};

verus! {

/// The lines of a feed as plain text.
pub open spec fn lines(feed: Seq<String>) -> Seq<Seq<char>> {
    Seq::new(feed.len(), |i: int| feed[i]@)
}

/// A copy of a feed, line for line.
pub fn copy_feed(feed: &Vec<String>) -> (copy: Vec<String>)
    ensures
        lines(copy@) == lines(feed@),
        copy@.len() == feed@.len(),
{
    let mut copy: Vec<String> = Vec::new();
    let mut i: usize = 0;
    while i < feed.len()
        invariant
            i <= feed.len(),
            copy@.len() == i,
            forall|j: int| 0 <= j < i ==> copy@[j]@ == feed@[j]@,
        decreases feed.len() - i,
    {
        copy.push(feed[i].clone());
        i = i + 1;
    }
    assert(lines(copy@) =~= lines(feed@));
    copy
}

/// The visible roll transcript of a room, as it is sent to the clients.
#[derive(Debug)]
pub struct GameScore {
    pub client_feed: Vec<String>,
}

impl View for GameScore {
    type V = Seq<Seq<char>>;

    open spec fn view(&self) -> Seq<Seq<char>> {
        lines(self.client_feed@)
    }
}

impl Clone for GameScore {
    fn clone(&self) -> (copy: Self)
        ensures
            copy@ == self@,
    {
        GameScore { client_feed: copy_feed(&self.client_feed) }
    }
}

/// A notification to a client.
#[derive(Debug)]
pub enum GameMessage {
    /// The recipient has no seat and only watches.
    Spectate,
    /// The round is about to begin; the text says who opens it.
    StartGame(String),
    /// Raised by a client's own socket when the connection closes; the
    /// coordinator never sends it.
    Disconnect,
    /// The recipient holds a seat in this room and resumes the game view.
    Reconnect,
    /// Nobody started a room under this identity.
    NoGameFound,
    /// The recipient holds the first seat and waits for an opponent.
    P1Join,
    /// The recipient holds the second seat and is asked to join.
    P2Join,
    /// The transient status line.
    Status(String),
    /// The whole transcript, replacing what the client showed before.
    GameScore(GameScore),
    /// The bound that the room was created with, for display.
    StartRoll(String),
    /// The answer to a keep-alive ping.
    Pong,
    /// The final line of a round: victory or defeat.
    GameOver(String),
}

/// A notification as plain data.
pub enum MessageView {
    Spectate,
    StartGame(Seq<char>),
    Disconnect,
    Reconnect,
    NoGameFound,
    P1Join,
    P2Join,
    Status(Seq<char>),
    GameScore(Seq<Seq<char>>),
    StartRoll(Seq<char>),
    Pong,
    GameOver(Seq<char>),
}

impl View for GameMessage {
    type V = MessageView;

    open spec fn view(&self) -> MessageView {
        match self {
            GameMessage::Spectate => MessageView::Spectate,
            GameMessage::StartGame(text) => MessageView::StartGame(text@),
            GameMessage::Disconnect => MessageView::Disconnect,
            GameMessage::Reconnect => MessageView::Reconnect,
            GameMessage::NoGameFound => MessageView::NoGameFound,
            GameMessage::P1Join => MessageView::P1Join,
            GameMessage::P2Join => MessageView::P2Join,
            GameMessage::Status(text) => MessageView::Status(text@),
            GameMessage::GameScore(score) => MessageView::GameScore(score@),
            GameMessage::StartRoll(text) => MessageView::StartRoll(text@),
            GameMessage::Pong => MessageView::Pong,
            GameMessage::GameOver(text) => MessageView::GameOver(text@),
        }
    }
}

impl Clone for GameMessage {
    fn clone(&self) -> (copy: Self)
        ensures
            copy@ == self@,
    {
        match self {
            GameMessage::Spectate => GameMessage::Spectate,
            GameMessage::StartGame(text) => GameMessage::StartGame(text.clone()),
            GameMessage::Disconnect => GameMessage::Disconnect,
            GameMessage::Reconnect => GameMessage::Reconnect,
            GameMessage::NoGameFound => GameMessage::NoGameFound,
            GameMessage::P1Join => GameMessage::P1Join,
            GameMessage::P2Join => GameMessage::P2Join,
            GameMessage::Status(text) => GameMessage::Status(text.clone()),
            GameMessage::GameScore(score) => GameMessage::GameScore(score.clone()),
            GameMessage::StartRoll(text) => GameMessage::StartRoll(text.clone()),
            GameMessage::Pong => GameMessage::Pong,
            GameMessage::GameOver(text) => GameMessage::GameOver(text.clone()),
        }
    }
}

/// What a room wants told after a step.
#[derive(Debug)]
pub enum Notice {
    /// This notification to this player, on every connection that the
    /// player has open.
    To(PlayerId, GameMessage),
    /// The room's transcript, as it stands after the step, to everybody in
    /// the room.
    Feed,
}

/// A notice as plain data.
pub enum NoticeView {
    To(PlayerId, MessageView),
    Feed,
}

impl View for Notice {
    type V = NoticeView;

    open spec fn view(&self) -> NoticeView {
        match self {
            Notice::To(player, message) => NoticeView::To(*player, message@),
            Notice::Feed => NoticeView::Feed,
        }
    }
}

/// The notices of a list as plain data.
pub open spec fn notices(list: Seq<Notice>) -> Seq<NoticeView> {
    Seq::new(list.len(), |i: int| list[i]@)
}

/// One notification addressed to one connection: the frame to write and the
/// socket to write it to.
#[derive(Debug)]
pub struct Outbound {
    pub channel: ChannelId,
    pub message: GameMessage,
}

/// An addressed notification as plain data.
pub struct OutboundView {
    pub channel: ChannelId,
    pub message: MessageView,
}

impl View for Outbound {
    type V = OutboundView;

    open spec fn view(&self) -> OutboundView {
        OutboundView { channel: self.channel, message: self.message@ }
    }
}

/// The addressed notifications of a list as plain data.
pub open spec fn deliveries(list: Seq<Outbound>) -> Seq<OutboundView> {
    Seq::new(list.len(), |i: int| list[i]@)
}

} // verus!
