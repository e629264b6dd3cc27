//! Final screen: the outcome of each submitted job.

use vstd::prelude::*;
use crate::state::AppState;
use super::{Key, ScreenAction};

verus! {

/// What a key does on the result screen.
pub open spec fn result_action(key: Key) -> ScreenAction {
    match key {
        Key::Enter | Key::Char('q') | Key::Esc => ScreenAction::Quit,
        _ => ScreenAction::Continue,
    }
}

/// Outcome of submitting one job.
#[derive(Debug, Clone)]
pub struct JobResult {
    pub job_name: String,
    pub success: bool,
    pub job_id: Option<String>,
    pub message: String,
}

impl JobResult {
    /// A failed submission with its message.
    pub fn error(job_name: String, message: String) -> (r: Self)
        ensures
            r.job_name == job_name,
            !r.success,
            r.job_id is None,
            r.message == message,
    {
        JobResult { job_name, success: false, job_id: None, message }
    }
}

pub struct ResultScreen {
    pub results: Vec<JobResult>,
}

impl ResultScreen {
    pub fn new() -> (r: Self)
        ensures
            r.results@.len() == 0,
    {
        ResultScreen { results: Vec::new() }
    }

    /// Enter, `q` and Esc leave the application.
    pub fn handle_input(&mut self, key: Key, state: &mut AppState) -> (r: ScreenAction)
        ensures
            *final(state) == *old(state),
            final(self).results == old(self).results,
            r == result_action(key),
    {
        match key {
            Key::Enter | Key::Char('q') | Key::Esc => ScreenAction::Quit,
            _ => ScreenAction::Continue,
        }
    }
}

} // verus!
