//! Transition-state method screen: NEB, CI-NEB or dimer.

use vstd::prelude::*;
use crate::state::{AppState, TstMethod};
use super::{choice_post, Key, ListCursor, ScreenAction};

verus! {

pub struct TstMethodScreen {
    pub cursor: ListCursor,
}

impl TstMethodScreen {
    pub fn new() -> (r: Self)
        ensures
            r.cursor.index == 0,
            r.cursor.count == 3,
    {
        TstMethodScreen { cursor: ListCursor::new(3) }
    }

    /// Up/Down move the cursor, Enter records the choice under the cursor and
    /// advances, Esc goes back, `q` quits.
    pub fn handle_input(&mut self, key: Key, state: &mut AppState) -> (r: ScreenAction)
        requires
            old(self).cursor.count == 3,
            old(self).cursor.index < 3,
        ensures
            final(self).cursor.count == 3,
            final(self).cursor.index < 3,
            choice_post(
                old(self).cursor,
                final(self).cursor,
                *old(state),
                *final(state),
                (AppState { tst_method: Some(TstMethod::all_spec()[old(self).cursor.index as int]), ..*old(state) }),
                key,
                r,
            ),
    {
        match key {
            Key::Up => {
                self.cursor.up();
                ScreenAction::Continue
            },
            Key::Down => {
                self.cursor.down();
                ScreenAction::Continue
            },
            Key::Enter => {
                let all = TstMethod::all(); state.tst_method = Some(all[self.cursor.index]);
                ScreenAction::Advance
            },
            Key::Esc => ScreenAction::Back,
            Key::Char('q') => ScreenAction::Quit,
            _ => ScreenAction::Continue,
        }
    }
}

} // verus!
