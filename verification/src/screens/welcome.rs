//! First screen: confirm the working directory.

use vstd::prelude::*;
use crate::state::AppState;
use super::{Key, ScreenAction};

verus! {

/// What a key does on the first screen.
pub open spec fn welcome_action(key: Key) -> ScreenAction {
    match key {
        Key::Char('y') | Key::Char('Y') => ScreenAction::Advance,
        Key::Char('n') | Key::Char('N') => ScreenAction::Quit,
        Key::Esc => ScreenAction::Back,
        Key::Char('q') => ScreenAction::Quit,
        _ => ScreenAction::Continue,
    }
}

pub struct WelcomeScreen;

impl WelcomeScreen {
    pub fn new() -> (r: Self)
        ensures
            r == WelcomeScreen,
    {
        WelcomeScreen
    }

    /// `y` accepts the directory, `n` and `q` quit, Esc goes back (which on
    /// the first screen leaves the application).
    pub fn handle_input(&mut self, key: Key, state: &mut AppState) -> (r: ScreenAction)
        ensures
            *final(state) == *old(state),
            r == welcome_action(key),
    {
        match key {
            Key::Char('y') | Key::Char('Y') => ScreenAction::Advance,
            Key::Char('n') | Key::Char('N') => ScreenAction::Quit,
            Key::Esc => ScreenAction::Back,
            Key::Char('q') => ScreenAction::Quit,
            _ => ScreenAction::Continue,
        }
    }
}

} // verus!
