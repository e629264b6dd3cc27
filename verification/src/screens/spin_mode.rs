//! Spin polarization screen: restricted or unrestricted (which asks for magnetic moments).

use vstd::prelude::*;
use crate::state::{AppState, SpinMode};
use super::{choice_post, Key, ListCursor, ScreenAction};

verus! {

pub struct SpinModeScreen {
    pub cursor: ListCursor,
}

impl SpinModeScreen {
    pub fn new() -> (r: Self)
        ensures
            r.cursor.index == 0,
            r.cursor.count == 2,
    {
        SpinModeScreen { cursor: ListCursor::new(2) }
    }

    /// Up/Down move the cursor, Enter records the choice under the cursor and
    /// advances, Esc goes back, `q` quits.
    pub fn handle_input(&mut self, key: Key, state: &mut AppState) -> (r: ScreenAction)
        requires
            old(self).cursor.count == 2,
            old(self).cursor.index < 2,
        ensures
            final(self).cursor.count == 2,
            final(self).cursor.index < 2,
            choice_post(
                old(self).cursor,
                final(self).cursor,
                *old(state),
                *final(state),
                (AppState {
                    spin_mode: Some(
                        if old(self).cursor.index == 0 {
                            SpinMode::Restricted
                        } else {
                            SpinMode::Unrestricted
                        },
                    ),
                    ..*old(state)
                }),
                key,
                r,
            ),
    {
        match key {
            Key::Up => {
                self.cursor.up();
                ScreenAction::Continue
            },
            Key::Down => {
                self.cursor.down();
                ScreenAction::Continue
            },
            Key::Enter => {
                state.spin_mode = Some(if self.cursor.index == 0 { SpinMode::Restricted } else { SpinMode::Unrestricted });
                ScreenAction::Advance
            },
            Key::Esc => ScreenAction::Back,
            Key::Char('q') => ScreenAction::Quit,
            _ => ScreenAction::Continue,
        }
    }
}

} // verus!
