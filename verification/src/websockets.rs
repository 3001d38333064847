//! The connection adapter's decisions: what becomes of each text frame that
//! a client sends.
use vstd::prelude::*;

use crate::game_server::{Command, CommandView};
use crate::player::{GameId, PlayerId};
use crate::protocol::GameMessage;

verus! {

/// A request from a client.
#[derive(Clone, Copy, Debug, PartialEq, Eq, Structural)]
pub enum WsMsg {
    /// A keep-alive probe.
    Ping,
    /// The client is leaving.
    Close,
    /// The client wants to roll.
    Roll,
}

/// What the adapter does with a frame.
#[derive(Debug)]
pub enum FrameAction {
    /// Write this notification back on the same connection; the coordinator
    /// is not involved.
    Reply(GameMessage),
    /// Hand this command to the coordinator and go on reading.
    Forward(Command),
    /// Hand this command to the coordinator and stop reading.
    Hangup(Command),
}

/// A frame action as plain data.
pub enum FrameActionView {
    Reply(crate::protocol::MessageView),
    Forward(CommandView),
    Hangup(CommandView),
}

impl View for FrameAction {
    type V = FrameActionView;

    open spec fn view(&self) -> FrameActionView {
        match self {
            FrameAction::Reply(message) => FrameActionView::Reply(message@),
            FrameAction::Forward(command) => FrameActionView::Forward(command@),
            FrameAction::Hangup(command) => FrameActionView::Hangup(command@),
        }
    }
}

/// What becomes of a frame from `player` on a connection to `room`: a ping
/// is answered on the spot, a roll becomes the player's turn, a close
/// disconnects the player, and a frame that is no request at all (`None`)
/// disconnects the player and ends the reading.
pub open spec fn frame_action(
    frame: Option<WsMsg>,
    player: PlayerId,
    room: Seq<char>,
) -> FrameActionView {
    match frame {
        Some(WsMsg::Ping) => FrameActionView::Reply(crate::protocol::MessageView::Pong),
        Some(WsMsg::Roll) => FrameActionView::Forward(
            CommandView::Turn { player_id: player, game_id: room },
        ),
        Some(WsMsg::Close) => FrameActionView::Forward(CommandView::Disconnect { player_id: player }),
        None => FrameActionView::Hangup(CommandView::Disconnect { player_id: player }),
    }
}

/// Decides what becomes of one text frame, already decoded; `None` stands
/// for a frame that could not be decoded.
pub fn handle_frame(frame: Option<WsMsg>, player_id: PlayerId, game_id: &GameId) -> (action:
    FrameAction)
    ensures
        action@ == frame_action(frame, player_id, game_id@),
{
    match frame {
        Some(WsMsg::Ping) => FrameAction::Reply(GameMessage::Pong),
        Some(WsMsg::Roll) => FrameAction::Forward(
            Command::Turn { player_id, game_id: game_id.clone() },
        ),
        Some(WsMsg::Close) => FrameAction::Forward(Command::Disconnect { player_id }),
        None => FrameAction::Hangup(Command::Disconnect { player_id }),
    }
}

} // verus!
