//! A player's page of a room: what it knows of the game, learnt from the
//! server's notifications alone.
use vstd::prelude::*;
use vstd::string::StringExecFns;

use crate::client::routes::{Route, RouteView};
use crate::client::websockets::WsMsg;
use crate::number::chars_of;
use crate::protocol::{lines, GameMessage, MessageView};
use crate::text::icon_text;
use crate::player::Seat;

verus! {

/// What can happen to a room's page.
#[derive(Debug)]
pub enum CompMsg {
    /// The player presses the button: to join, to roll, or to play again.
    Roll,
    /// A notification arrived.
    HandleMsg(GameMessage),
    /// The player asks for the invitation to be copied.
    Copy,
    /// The player opens or closes the rules.
    ShowRules,
}

/// An event as plain data.
pub enum CompMsgView {
    Roll,
    HandleMsg(MessageView),
    Copy,
    ShowRules,
}

impl View for CompMsg {
    type V = CompMsgView;

    open spec fn view(&self) -> CompMsgView {
        match self {
            CompMsg::Roll => CompMsgView::Roll,
            CompMsg::HandleMsg(message) => CompMsgView::HandleMsg(message@),
            CompMsg::Copy => CompMsgView::Copy,
            CompMsg::ShowRules => CompMsgView::ShowRules,
        }
    }
}

/// What the page does about an event.
#[derive(Debug)]
pub enum Action {
    Nothing,
    /// Send this request to the server.
    Send(WsMsg),
    /// Open the socket anew, at the address that the page was created with.
    Reconnect,
    /// Leave for another page.
    Navigate(Route),
    /// Put the page's address on the clipboard.
    CopyAddress,
}

/// An action as plain data.
pub enum ActionView {
    Nothing,
    Send(WsMsg),
    Reconnect,
    Navigate(RouteView),
    CopyAddress,
}

impl View for Action {
    type V = ActionView;

    open spec fn view(&self) -> ActionView {
        match self {
            Action::Nothing => ActionView::Nothing,
            Action::Send(request) => ActionView::Send(*request),
            Action::Reconnect => ActionView::Reconnect,
            Action::Navigate(route) => ActionView::Navigate(route@),
            Action::CopyAddress => ActionView::CopyAddress,
        }
    }
}

/// What the page does after an event, besides drawing itself anew.
#[derive(Debug)]
pub struct Outcome {
    /// Whether the feed is scrolled to its end.
    pub scroll: bool,
    pub action: Action,
}

/// An outcome as plain data.
pub struct OutcomeView {
    pub scroll: bool,
    pub action: ActionView,
}

impl View for Outcome {
    type V = OutcomeView;

    open spec fn view(&self) -> OutcomeView {
        OutcomeView { scroll: self.scroll, action: self.action@ }
    }
}

/// What the page shows.
#[derive(Clone, Copy, Debug, PartialEq, Eq, Structural)]
pub enum Screen {
    /// No notification has arrived yet.
    Connecting,
    /// The first player waits and is shown the invitation.
    Invite,
    /// The game itself.
    Game,
    /// The second player is asked to join.
    Join,
    /// The game, for somebody without a seat.
    Spectating,
}

/// The colour of a line of the feed.
#[derive(Clone, Copy, Debug, PartialEq, Eq, Structural)]
pub enum Color {
    Blue,
    Green,
    Black,
}

/// What the page shows while the socket is opened anew.
pub open spec fn reconnecting_text() -> Seq<char> {
    "\u{1f534} Reconnecting..."@
}

/// Whether a text occurs in another at a given place.
pub open spec fn occurs_at(needle: Seq<char>, hay: Seq<char>, at: int) -> bool {
    0 <= at && at + needle.len() <= hay.len() && hay.subrange(at, at + needle.len()) == needle
}

/// Whether a text occurs somewhere in another.
pub open spec fn occurs_in(needle: Seq<char>, hay: Seq<char>) -> bool {
    exists|at: int| occurs_at(needle, hay, at)
}

/// The colour of a line: blue where the first seat's icon occurs, green
/// where only the second seat's does, and black for every other line.
pub open spec fn color_of(line: Seq<char>) -> Color {
    if occurs_in(icon_text(Seat::One), line) {
        Color::Blue
    } else if occurs_in(icon_text(Seat::Two), line) {
        Color::Green
    } else {
        Color::Black
    }
}

/// Looks for a text in another.
pub fn contains_text(hay: &Vec<char>, needle: &Vec<char>) -> (found: bool)
    ensures
        found == occurs_in(needle@, hay@),
{
    if needle.len() > hay.len() {
        assert forall|at: int| !occurs_at(needle@, hay@, at) by {}
        return false;
    }
    let last = hay.len() - needle.len();
    let mut at: usize = 0;
    while at <= last
        invariant
            last == hay.len() - needle.len(),
            at <= last + 1,
            forall|before: int| 0 <= before < at ==> !occurs_at(needle@, hay@, before),
        decreases last + 1 - at,
    {
        let mut k: usize = 0;
        while k < needle.len() && hay[at + k] == needle[k]
            invariant
                at + needle.len() <= hay.len(),
                k <= needle.len(),
                forall|j: int| 0 <= j < k ==> hay@[at + j] == needle@[j],
            decreases needle.len() - k,
        {
            k = k + 1;
        }
        if k == needle.len() {
            assert(hay@.subrange(at as int, at + needle.len()) =~= needle@);
            assert(occurs_at(needle@, hay@, at as int));
            return true;
        }
        assert(!occurs_at(needle@, hay@, at as int)) by {
            if occurs_at(needle@, hay@, at as int) {
                assert(hay@.subrange(at as int, at + needle.len())[k as int] == needle@[k as int]);
            }
        }
        at = at + 1;
    }
    assert forall|place: int| !occurs_at(needle@, hay@, place) by {}
    false
}

/// The colour in which a line of the feed is shown.
pub fn line_color(line: &str) -> (color: Color)
    ensures
        color == color_of(line@),
{
    let hay = chars_of(line);
    let mage = chars_of("\u{1F9D9}\u{200D}\u{2642}\u{FE0F}");
    let zombie = chars_of("\u{1F9DF}");
    if contains_text(&hay, &mage) {
        Color::Blue
    } else if contains_text(&hay, &zombie) {
        Color::Green
    } else {
        Color::Black
    }
}

/// A room's page as plain data.
pub struct PvpView {
    pub feed: Seq<Seq<char>>,
    pub status_msg: Seq<char>,
    pub spectator: bool,
    pub game_start: bool,
    pub reconnecting: Seq<char>,
    pub copy: bool,
    pub join_screen: bool,
    pub full_url: Seq<char>,
    pub start_roll: Seq<char>,
    pub rules: bool,
    pub connected: bool,
    pub replay: bool,
}

impl PvpView {
    /// A page that has heard nothing yet.
    pub open spec fn created(full_url: Seq<char>) -> PvpView {
        PvpView {
            feed: Seq::empty(),
            status_msg: Seq::empty(),
            spectator: false,
            game_start: false,
            reconnecting: Seq::empty(),
            copy: false,
            join_screen: false,
            full_url,
            start_roll: Seq::empty(),
            rules: false,
            connected: false,
            replay: false,
        }
    }

    /// The page after a notification. Whatever arrives shows that the
    /// connection stands.
    pub open spec fn heard(self, message: MessageView) -> PvpView {
        let alive = PvpView { connected: true, reconnecting: Seq::empty(), ..self };
        match message {
            MessageView::Disconnect => PvpView { reconnecting: reconnecting_text(), ..alive },
            MessageView::Reconnect => PvpView { game_start: true, ..alive },
            MessageView::Spectate => PvpView { spectator: true, ..alive },
            MessageView::StartGame(text) => PvpView { game_start: true, status_msg: text, ..alive },
            MessageView::NoGameFound => alive,
            MessageView::P1Join => PvpView { join_screen: false, ..alive },
            MessageView::P2Join => PvpView { join_screen: true, ..alive },
            MessageView::Status(text) => PvpView { replay: false, status_msg: text, ..alive },
            MessageView::StartRoll(text) => PvpView { start_roll: text, ..alive },
            MessageView::GameScore(feed) => PvpView { feed, ..alive },
            MessageView::Pong => alive,
            MessageView::GameOver(text) => PvpView { status_msg: text, replay: true, ..alive },
        }
    }

    /// The page after an event.
    pub open spec fn after(self, msg: CompMsgView) -> PvpView {
        match msg {
            CompMsgView::Roll => PvpView { replay: false, ..self },
            CompMsgView::HandleMsg(message) => self.heard(message),
            CompMsgView::Copy => self,
            CompMsgView::ShowRules => PvpView { rules: !self.rules, ..self },
        }
    }

    /// What the page does after an event.
    pub open spec fn outcome(msg: CompMsgView) -> OutcomeView {
        match msg {
            CompMsgView::Roll => OutcomeView { scroll: true, action: ActionView::Send(WsMsg::Roll) },
            CompMsgView::HandleMsg(message) => OutcomeView {
                scroll: true,
                action: match message {
                    MessageView::Disconnect => ActionView::Reconnect,
                    MessageView::NoGameFound => ActionView::Navigate(RouteView::NotFound),
                    _ => ActionView::Nothing,
                },
            },
            CompMsgView::Copy => OutcomeView { scroll: false, action: ActionView::CopyAddress },
            CompMsgView::ShowRules => OutcomeView { scroll: false, action: ActionView::Nothing },
        }
    }

    /// What the page shows.
    pub open spec fn screen(self) -> Screen {
        if !self.connected {
            Screen::Connecting
        } else if self.spectator {
            Screen::Spectating
        } else if self.game_start {
            Screen::Game
        } else if self.join_screen {
            Screen::Join
        } else {
            Screen::Invite
        }
    }
}

/// A player's page of a room.
#[derive(Debug)]
pub struct PvPComponent {
    feed: Vec<String>,
    status_msg: String,
    spectator: bool,
    game_start: bool,
    reconnecting: String,
    copy: bool,
    join_screen: bool,
    full_url: String,
    start_roll: String,
    rules: bool,
    connected: bool,
    replay: bool,
}

impl View for PvPComponent {
    type V = PvpView;

    closed spec fn view(&self) -> PvpView {
        PvpView {
            feed: lines(self.feed@),
            status_msg: self.status_msg@,
            spectator: self.spectator,
            game_start: self.game_start,
            reconnecting: self.reconnecting@,
            copy: self.copy,
            join_screen: self.join_screen,
            full_url: self.full_url@,
            start_roll: self.start_roll@,
            rules: self.rules,
            connected: self.connected,
            replay: self.replay,
        }
    }
}

impl PvPComponent {
    /// A page that has heard nothing yet, for the socket at `full_url`.
    pub fn create(full_url: String) -> (page: PvPComponent)
        ensures
            page@ == PvpView::created(full_url@),
    {
        let page = PvPComponent {
            feed: Vec::new(),
            status_msg: String::new(),
            spectator: false,
            game_start: false,
            reconnecting: String::new(),
            copy: false,
            join_screen: false,
            full_url,
            start_roll: String::new(),
            rules: false,
            connected: false,
            replay: false,
        };
        assert(page@.feed =~= Seq::empty());
        page
    }

    /// The transcript.
    pub fn feed(&self) -> (feed: &Vec<String>)
        ensures
            lines(feed@) == self@.feed,
    {
        &self.feed
    }

    /// The status line.
    pub fn status_msg(&self) -> (text: &String)
        ensures
            text@ == self@.status_msg,
    {
        &self.status_msg
    }

    /// The note on the state of the connection.
    pub fn reconnecting(&self) -> (text: &String)
        ensures
            text@ == self@.reconnecting,
    {
        &self.reconnecting
    }

    /// The address of the room's socket.
    pub fn full_url(&self) -> (text: &String)
        ensures
            text@ == self@.full_url,
    {
        &self.full_url
    }

    /// The bound that the room was created with, as the server named it.
    pub fn start_roll(&self) -> (text: &String)
        ensures
            text@ == self@.start_roll,
    {
        &self.start_roll
    }

    /// Whether the rules are open.
    pub fn rules(&self) -> (open: bool)
        ensures
            open == self@.rules,
    {
        self.rules
    }

    /// Whether the invitation was copied.
    pub fn copy(&self) -> (copied: bool)
        ensures
            copied == self@.copy,
    {
        self.copy
    }

    /// Whether the round is over and another can be asked for.
    pub fn replay(&self) -> (offered: bool)
        ensures
            offered == self@.replay,
    {
        self.replay
    }

    /// What the page shows.
    pub fn screen(&self) -> (screen: Screen)
        ensures
            screen == self@.screen(),
    {
        if !self.connected {
            Screen::Connecting
        } else if !self.spectator && !self.game_start && !self.join_screen {
            Screen::Invite
        } else if !self.spectator && self.game_start {
            Screen::Game
        } else if !self.spectator && !self.game_start && self.join_screen {
            Screen::Join
        } else {
            Screen::Spectating
        }
    }

    /// Notes that the invitation is on the clipboard.
    pub fn copied(&mut self)
        ensures
            final(self)@ == (PvpView { copy: true, ..old(self)@ }),
    {
        self.copy = true;
    }

    /// Takes an event and says what is to be done about it.
    pub fn update(&mut self, msg: CompMsg) -> (outcome: Outcome)
        ensures
            final(self)@ == old(self)@.after(msg@),
            outcome@ == PvpView::outcome(msg@),
    {
        match msg {
            CompMsg::Roll => {
                self.replay = false;
                Outcome { scroll: true, action: Action::Send(WsMsg::Roll) }
            },
            CompMsg::HandleMsg(message) => {
                self.connected = true;
                self.reconnecting = String::new();
                let action = match message {
                    GameMessage::Disconnect => {
                        self.reconnecting = String::from_str("\u{1f534} Reconnecting...");
                        Action::Reconnect
                    },
                    GameMessage::Reconnect => {
                        self.game_start = true;
                        Action::Nothing
                    },
                    GameMessage::Spectate => {
                        self.spectator = true;
                        Action::Nothing
                    },
                    GameMessage::StartGame(text) => {
                        self.game_start = true;
                        self.status_msg = text;
                        Action::Nothing
                    },
                    GameMessage::NoGameFound => Action::Navigate(Route::NotFound),
                    GameMessage::P1Join => {
                        self.join_screen = false;
                        Action::Nothing
                    },
                    GameMessage::P2Join => {
                        self.join_screen = true;
                        Action::Nothing
                    },
                    GameMessage::Status(text) => {
                        self.replay = false;
                        self.status_msg = text;
                        Action::Nothing
                    },
                    GameMessage::StartRoll(roll) => {
                        self.start_roll = roll;
                        Action::Nothing
                    },
                    GameMessage::GameScore(feed) => {
                        self.feed = feed.client_feed;
                        Action::Nothing
                    },
                    GameMessage::Pong => Action::Nothing,
                    GameMessage::GameOver(text) => {
                        self.status_msg = text;
                        self.replay = true;
                        Action::Nothing
                    },
                };
                Outcome { scroll: true, action }
            },
            CompMsg::Copy => Outcome { scroll: false, action: Action::CopyAddress },
            CompMsg::ShowRules => {
                self.rules = !self.rules;
                Outcome { scroll: false, action: Action::Nothing }
            },
        }
    }

    /// What the page sends when it is closed.
    pub fn destroy(&self) -> (request: WsMsg)
        ensures
            request == WsMsg::Close,
    {
        WsMsg::Close
    }
}

} // verus!
