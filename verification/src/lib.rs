//! Core logic of `rue`, a terminal client for a Hue bridge: tab navigation,
//! application state, the interpretation of bridge replies, and the event
//! loop's decisions. Every function here is verified except one trusted
//! call into ratatui's layout solver (`ui::layout`); the terminal, the
//! network and the disk are driven by the program around it.

use vstd::prelude::*;

pub mod address;
pub mod app;
pub mod bridge;
pub mod config;
pub mod errors;
pub mod event;
pub mod lights;
pub mod string_map;
pub mod ui;

use crate::config::User;
use crate::ui::TabsState;

verus! {

/// The state of the application as the library's entry point keeps it: the
/// user, if one is known, and the tabs.
pub struct App {
    pub user: Option<User>,
    pub tabstate: TabsState,
}

impl App {
    /// The state at start, given the user loaded from the configuration, if
    /// any, with the tabs at their start.
    pub fn new(user: Option<User>) -> (app: App)
        ensures
            app.user == user,
            app.tabstate.pages@.len() == 3,
            app.tabstate.pages@[0]@ == "Rooms"@,
            app.tabstate.pages@[1]@ == "Lights"@,
            app.tabstate.pages@[2]@ == "Groups"@,
            app.tabstate.index == 0,
    {
        App { user, tabstate: TabsState::new() }
    }
}

} // verus!
