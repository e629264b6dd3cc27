//! Second screen: quick submission of a prepared directory, or a new
//! calculation.

use vstd::prelude::*;
use crate::state::{AppState, FlowPath};
use super::{choice_post, Key, ListCursor, ScreenAction};

verus! {

/// The two paths, in display order: quick submission, new calculation.
pub const OPTION_COUNT: usize = 2;

pub struct ChoosePathScreen {
    pub cursor: ListCursor,
}

/// Path for a cursor position: the first option is quick submission.
pub open spec fn path_at(index: usize) -> FlowPath {
    if index == 0 {
        FlowPath::QuickSubmit
    } else {
        FlowPath::PerformCalculation
    }
}

impl ChoosePathScreen {
    pub fn new() -> (r: Self)
        ensures
            r.cursor.index == 0,
            r.cursor.count == OPTION_COUNT,
    {
        ChoosePathScreen { cursor: ListCursor::new(OPTION_COUNT) }
    }

    /// Up/Down move the cursor, Enter records the path under the cursor and
    /// advances, Esc goes back, `q` quits.
    pub fn handle_input(&mut self, key: Key, state: &mut AppState) -> (r: ScreenAction)
        ensures
            final(self).cursor.count == old(self).cursor.count,
            choice_post(
                old(self).cursor,
                final(self).cursor,
                *old(state),
                *final(state),
                (AppState { flow_path: Some(path_at(old(self).cursor.index)), ..*old(state) }),
                key,
                r,
            ),
    {
        match key {
            Key::Up => {
                self.cursor.up();
                ScreenAction::Continue
            },
            Key::Down => {
                self.cursor.down();
                ScreenAction::Continue
            },
            Key::Enter => {
                state.flow_path = Some(
                    if self.cursor.index == 0 {
                        FlowPath::QuickSubmit
                    } else {
                        FlowPath::PerformCalculation
                    },
                );
                ScreenAction::Advance
            },
            Key::Esc => ScreenAction::Back,
            Key::Char('q') => ScreenAction::Quit,
            _ => ScreenAction::Continue,
        }
    }
}

} // verus!
