//! Calculation type screen: which kind of VASP calculation to prepare.

use vstd::prelude::*;
use crate::state::{AppState, CalcType};
use super::{choice_post, Key, ListCursor, ScreenAction};

verus! {

pub struct CalcTypeScreen {
    pub cursor: ListCursor,
}

impl CalcTypeScreen {
    pub fn new() -> (r: Self)
        ensures
            r.cursor.index == 0,
            r.cursor.count == 8,
    {
        CalcTypeScreen { cursor: ListCursor::new(8) }
    }

    /// Up/Down move the cursor, Enter records the choice under the cursor and
    /// advances, Esc goes back, `q` quits.
    pub fn handle_input(&mut self, key: Key, state: &mut AppState) -> (r: ScreenAction)
        requires
            old(self).cursor.count == 8,
            old(self).cursor.index < 8,
        ensures
            final(self).cursor.count == 8,
            final(self).cursor.index < 8,
            choice_post(
                old(self).cursor,
                final(self).cursor,
                *old(state),
                *final(state),
                (AppState { calc_type: Some(CalcType::all_spec()[old(self).cursor.index as int]), ..*old(state) }),
                key,
                r,
            ),
    {
        match key {
            Key::Up => {
                self.cursor.up();
                ScreenAction::Continue
            },
            Key::Down => {
                self.cursor.down();
                ScreenAction::Continue
            },
            Key::Enter => {
                let all = CalcType::all(); state.calc_type = Some(all[self.cursor.index]);
                ScreenAction::Advance
            },
            Key::Esc => ScreenAction::Back,
            Key::Char('q') => ScreenAction::Quit,
            _ => ScreenAction::Continue,
        }
    }
}

} // verus!
