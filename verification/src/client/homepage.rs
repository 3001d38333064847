//! The start page: a bound is typed or picked, and a game is asked for.
use vstd::prelude::*;

use crate::client::routes::{Route, RouteView};
use crate::number::{parse_trimmed, parsed_u32, trimmed};

verus! {

/// What can happen to the start page.
#[derive(Debug)]
pub enum Msg {
    /// The player opens or closes the rules.
    ShowRules,
    /// The player closes the rules.
    HideRules,
    /// The player typed a bound.
    Input(String),
    DoNothing,
    /// The player asks for a room with the bound that was typed.
    NewPvpGameCustom,
    /// The player asks for a room with a bound that was picked.
    NewPvpGame(u32),
    /// The player asks for a game against the computer with a bound that
    /// was picked.
    NewPveGame(u32),
    /// The player asks for a game against the computer with the bound that
    /// was typed.
    NewPveGameCustom,
}

/// An event as plain data.
pub enum MsgView {
    ShowRules,
    HideRules,
    Input(Seq<char>),
    DoNothing,
    NewPvpGameCustom,
    NewPvpGame(u32),
    NewPveGame(u32),
    NewPveGameCustom,
}

impl View for Msg {
    type V = MsgView;

    open spec fn view(&self) -> MsgView {
        match self {
            Msg::ShowRules => MsgView::ShowRules,
            Msg::HideRules => MsgView::HideRules,
            Msg::Input(text) => MsgView::Input(text@),
            Msg::DoNothing => MsgView::DoNothing,
            Msg::NewPvpGameCustom => MsgView::NewPvpGameCustom,
            Msg::NewPvpGame(roll) => MsgView::NewPvpGame(*roll),
            Msg::NewPveGame(roll) => MsgView::NewPveGame(*roll),
            Msg::NewPveGameCustom => MsgView::NewPveGameCustom,
        }
    }
}

/// What the start page does about an event.
#[derive(Debug)]
pub enum Action {
    Nothing,
    /// Pick a fresh identity, record this bound for it at the server, and
    /// leave for the room once the server has it.
    OpenRoom { roll: u32 },
    /// Leave for another page.
    Navigate(Route),
}

/// An action as plain data.
pub enum ActionView {
    Nothing,
    OpenRoom { roll: u32 },
    Navigate(RouteView),
}

impl View for Action {
    type V = ActionView;

    open spec fn view(&self) -> ActionView {
        match self {
            Action::Nothing => ActionView::Nothing,
            Action::OpenRoom { roll } => ActionView::OpenRoom { roll: *roll },
            Action::Navigate(route) => ActionView::Navigate(route@),
        }
    }
}

/// The bound that a typed text asks for, and 0 where it asks for none.
pub open spec fn bound_or_zero(text: Seq<char>) -> u32 {
    match parsed_u32(trimmed(text)) {
        Some(bound) => bound,
        None => 0,
    }
}

/// The start page.
#[derive(Debug)]
pub struct Home {
    rules: bool,
    pub start_roll: Option<u32>,
    pub start_roll_pve: Option<u32>,
}

/// The start page as plain data.
pub struct HomeView {
    pub rules: bool,
    pub start_roll: Option<u32>,
    pub start_roll_pve: Option<u32>,
}

impl HomeView {
    /// The page after an event.
    pub open spec fn after(self, msg: MsgView) -> HomeView {
        match msg {
            MsgView::ShowRules => HomeView { rules: !self.rules, ..self },
            MsgView::HideRules => HomeView { rules: false, ..self },
            MsgView::Input(text) => HomeView { start_roll: Some(bound_or_zero(text)), ..self },
            _ => self,
        }
    }

    /// What the page does about an event. A room is not opened with the
    /// bound 0, and no game against the computer with the bound 1; with no
    /// bound typed, neither is asked for.
    pub open spec fn action(self, msg: MsgView) -> ActionView {
        match msg {
            MsgView::NewPvpGameCustom => match self.start_roll {
                Some(roll) => if roll != 0 {
                    ActionView::OpenRoom { roll }
                } else {
                    ActionView::Nothing
                },
                None => ActionView::Nothing,
            },
            MsgView::NewPvpGame(roll) => ActionView::OpenRoom { roll },
            MsgView::NewPveGame(roll) => ActionView::Navigate(RouteView::PvE { roll }),
            MsgView::NewPveGameCustom => match self.start_roll {
                Some(roll) => if roll != 1 {
                    ActionView::Navigate(RouteView::PvE { roll })
                } else {
                    ActionView::Nothing
                },
                None => ActionView::Nothing,
            },
            _ => ActionView::Nothing,
        }
    }
}

impl View for Home {
    type V = HomeView;

    closed spec fn view(&self) -> HomeView {
        HomeView {
            rules: self.rules,
            start_roll: self.start_roll,
            start_roll_pve: self.start_roll_pve,
        }
    }
}

impl Home {
    /// The start page as it is first shown.
    pub fn create() -> (page: Home)
        ensures
            page@ == (HomeView { rules: false, start_roll: None, start_roll_pve: None }),
    {
        Home { rules: false, start_roll: None, start_roll_pve: None }
    }

    /// Whether the rules are open.
    pub fn rules(&self) -> (open: bool)
        ensures
            open == self@.rules,
    {
        self.rules
    }

    /// Takes an event and says what is to be done about it.
    pub fn update(&mut self, msg: Msg) -> (action: Action)
        ensures
            final(self)@ == old(self)@.after(msg@),
            action@ == old(self)@.action(msg@),
    {
        match msg {
            Msg::ShowRules => {
                self.rules = !self.rules;
                Action::Nothing
            },
            Msg::HideRules => {
                self.rules = false;
                Action::Nothing
            },
            Msg::Input(text) => {
                let start_roll = match parse_trimmed(text.as_str()) {
                    Some(bound) => bound,
                    None => 0,
                };
                self.start_roll = Some(start_roll);
                Action::Nothing
            },
            Msg::NewPvpGameCustom => match self.start_roll {
                Some(roll) => if roll != 0 {
                    Action::OpenRoom { roll }
                } else {
                    Action::Nothing
                },
                None => Action::Nothing,
            },
            Msg::NewPvpGame(num) => Action::OpenRoom { roll: num },
            Msg::NewPveGame(num) => Action::Navigate(Route::PvE { roll: num }),
            Msg::NewPveGameCustom => match self.start_roll {
                Some(roll) => if roll != 1 {
                    Action::Navigate(Route::PvE { roll })
                } else {
                    Action::Nothing
                },
                None => Action::Nothing,
            },
            Msg::DoNothing => Action::Nothing,
        }
    }
}

} // verus!
