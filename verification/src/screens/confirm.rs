//! Summary screen: the user confirms the submission.

use vstd::prelude::*;
use crate::state::AppState;
use super::{Key, ScreenAction};

verus! {

/// What a key does on the summary screen.
pub open spec fn confirm_action(key: Key) -> ScreenAction {
    match key {
        Key::Char('y') | Key::Char('Y') => ScreenAction::Advance,
        Key::Char('n') | Key::Char('N') | Key::Esc => ScreenAction::Back,
        Key::Char('q') => ScreenAction::Quit,
        _ => ScreenAction::Continue,
    }
}

pub struct ConfirmScreen;

impl ConfirmScreen {
    pub fn new() -> (r: Self)
        ensures
            r == ConfirmScreen,
    {
        ConfirmScreen
    }

    /// `y` submits, `n` and Esc go back, `q` quits.
    pub fn handle_input(&mut self, key: Key, state: &mut AppState) -> (r: ScreenAction)
        ensures
            *final(state) == *old(state),
            r == confirm_action(key),
    {
        match key {
            Key::Char('y') | Key::Char('Y') => ScreenAction::Advance,
            Key::Char('n') | Key::Char('N') | Key::Esc => ScreenAction::Back,
            Key::Char('q') => ScreenAction::Quit,
            _ => ScreenAction::Continue,
        }
    }
}

} // verus!
