//! The pages of the client.
use vstd::prelude::*;

verus! {

/// A page.
#[derive(Debug)]
pub enum Route {
    /// The start page.
    Home,
    /// A game against the computer with a given bound.
    PvE { roll: u32 },
    /// A room, by its identity.
    PvP { id: String },
    /// The page for everything that is not there.
    NotFound,
}

/// A page as plain data.
pub enum RouteView {
    Home,
    PvE { roll: u32 },
    PvP { id: Seq<char> },
    NotFound,
}

impl View for Route {
    type V = RouteView;

    open spec fn view(&self) -> RouteView {
        match self {
            Route::Home => RouteView::Home,
            Route::PvE { roll } => RouteView::PvE { roll: *roll },
            Route::PvP { id } => RouteView::PvP { id: id@ },
            Route::NotFound => RouteView::NotFound,
        }
    }
}

} // verus!
