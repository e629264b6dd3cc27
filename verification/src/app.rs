//! The session: which screen is shown, the way back, the next screen of the
//! flow, what a transition needs from outside and what it does with it, and
//! the plan of the submissions.
//!
//! Flow:
//!   Welcome → ChoosePath ─┬─→ quick submission: SubmitSetup → Result
//!                          └─→ calculation: CalcType → [TstMethod] → SpinMode
//!                               → [Magmom] → [FilePick] → EditIncar
//!                               → [EditKpoints] → SubmitSetup → Confirm → Result
//!
//! The library decides; the program around it reads keys, talks to the
//! calculation backend, the file system and the scheduler, and hands the
//! replies back.

use vstd::prelude::*;
use crate::config::Config;
use crate::screens::calc_type::CalcTypeScreen;
use crate::screens::choose_path::ChoosePathScreen;
use crate::screens::confirm::ConfirmScreen;
use crate::screens::edit_incar::EditIncarScreen;
use crate::screens::edit_kpoints::EditKpointsScreen;
use crate::screens::file_pick::FilePickScreen;
use crate::screens::magmom::MagmomScreen;
use crate::screens::result::{JobResult, ResultScreen};
use crate::screens::spin_mode::SpinModeScreen;
use crate::screens::submit_setup::SubmitSetupScreen;
use crate::screens::tst_method::TstMethodScreen;
use crate::screens::welcome::WelcomeScreen;
use crate::screens::choose_path::path_at;
use crate::screens::confirm::confirm_action;
use crate::screens::edit_incar::{add_key_post, add_value_post, edit_post, Mode, PARAM_LIMIT};
use crate::screens::edit_kpoints::kpoints_post;
use crate::screens::magmom::magmom_post;
use crate::screens::result::result_action;
use crate::screens::submit_setup::setup_post;
use crate::screens::welcome::welcome_action;
use crate::screens::{choice_post, ActiveScreen, Key, ScreenAction};
use crate::state::{AppState, CalcType, FlowPath, SpinMode, TstMethod};
use crate::incar::{IncarVal, IncarValue};
use crate::incar::IncarParams;
use crate::number::{decimal, decimal2, push_decimal2};
use crate::shell::{first_break_message, render_sge_script, script_params_ok, sge_script, QsubResult};
use crate::python::PythonError;
use crate::screens::edit_incar::{pair_views, shown_params};
use crate::state::{images_spec, SpeciesInfo};
use crate::text::{byte_len, chars_of, push_char, str_byte_len};

verus! {

/// How the session ended.
pub enum ExitReason {
    /// Jobs were submitted; their outcomes.
    Submitted(Vec<JobResult>),
    Cancelled,
}

/// Position of a screen in the flow; every transition goes forward.
pub open spec fn screen_rank(s: ActiveScreen) -> nat {
    match s {
        ActiveScreen::Welcome => 0,
        ActiveScreen::ChoosePath => 1,
        ActiveScreen::CalcType => 2,
        ActiveScreen::TstMethod => 3,
        ActiveScreen::SpinMode => 4,
        ActiveScreen::Magmom => 5,
        ActiveScreen::FilePick => 6,
        ActiveScreen::EditIncar => 7,
        ActiveScreen::EditKpoints => 8,
        ActiveScreen::SubmitSetup => 9,
        ActiveScreen::Confirm => 10,
        ActiveScreen::Result => 11,
    }
}

/// The screens left behind, oldest first, all before the current one in the
/// flow.
pub open spec fn history_ordered(h: Seq<ActiveScreen>, cur: ActiveScreen) -> bool {
    &&& forall|i: int, j: int| 0 <= i < j < h.len() ==> screen_rank(#[trigger] h[i]) < screen_rank(#[trigger] h[j])
    &&& forall|i: int| 0 <= i < h.len() ==> screen_rank(#[trigger] h[i]) < screen_rank(cur)
}

proof fn lemma_rank_at_least_index(h: Seq<ActiveScreen>, cur: ActiveScreen, i: int)
    requires
        history_ordered(h, cur),
        0 <= i < h.len(),
    ensures
        screen_rank(h[i]) >= i,
    decreases i,
{
    if i > 0 {
        lemma_rank_at_least_index(h, cur, i - 1);
        assert(screen_rank(h[i - 1]) < screen_rank(h[i]));
    }
}

/// An ordered history is shorter than the current screen's rank.
proof fn lemma_history_len(h: Seq<ActiveScreen>, cur: ActiveScreen)
    requires
        history_ordered(h, cur),
    ensures
        h.len() <= screen_rank(cur),
{
    if h.len() > 0 {
        lemma_rank_at_least_index(h, cur, h.len() - 1);
    }
}

/// Screens left behind that count as steps (all but the first two).
pub open spec fn counted_steps(h: Seq<ActiveScreen>) -> nat
    decreases h.len(),
{
    if h.len() == 0 {
        0
    } else {
        counted_steps(h.drop_last()) + if h.last() is Welcome || h.last() is ChoosePath {
            0nat
        } else {
            1nat
        }
    }
}

proof fn lemma_counted_steps_len(h: Seq<ActiveScreen>)
    ensures
        counted_steps(h) <= h.len(),
    decreases h.len(),
{
    if h.len() > 0 {
        lemma_counted_steps_len(h.drop_last());
    }
}

/// Step shown in the header: none on the first two screens and on the last
/// two (they have labels), else one more than the steps left behind.
pub open spec fn step_spec(cur: ActiveScreen, h: Seq<ActiveScreen>) -> u32 {
    match cur {
        ActiveScreen::Welcome | ActiveScreen::ChoosePath | ActiveScreen::Confirm | ActiveScreen::Result => 0,
        _ => (counted_steps(h) + 1) as u32,
    }
}

/// Whether a state is a transition-state calculation.
pub open spec fn tst_flow(s: AppState) -> bool {
    s.calc_type == Some(CalcType::Tst)
}

/// The screen after `cur`, given the choices made so far.
pub open spec fn next_spec(cur: ActiveScreen, s: AppState) -> Option<ActiveScreen> {
    match cur {
        ActiveScreen::Welcome => Some(ActiveScreen::ChoosePath),
        ActiveScreen::ChoosePath => match s.flow_path {
            Some(FlowPath::QuickSubmit) => Some(ActiveScreen::SubmitSetup),
            Some(FlowPath::PerformCalculation) => Some(ActiveScreen::CalcType),
            None => None,
        },
        ActiveScreen::CalcType => if tst_flow(s) {
            Some(ActiveScreen::TstMethod)
        } else {
            Some(ActiveScreen::SpinMode)
        },
        ActiveScreen::TstMethod => Some(ActiveScreen::SpinMode),
        ActiveScreen::SpinMode => if s.spin_mode == Some(SpinMode::Unrestricted) {
            Some(ActiveScreen::Magmom)
        } else if tst_flow(s) {
            Some(ActiveScreen::EditIncar)
        } else {
            Some(ActiveScreen::FilePick)
        },
        ActiveScreen::Magmom => if tst_flow(s) {
            Some(ActiveScreen::EditIncar)
        } else {
            Some(ActiveScreen::FilePick)
        },
        ActiveScreen::FilePick => Some(ActiveScreen::EditIncar),
        ActiveScreen::EditIncar => if tst_flow(s) {
            Some(ActiveScreen::SubmitSetup)
        } else {
            Some(ActiveScreen::EditKpoints)
        },
        ActiveScreen::EditKpoints => Some(ActiveScreen::SubmitSetup),
        ActiveScreen::SubmitSetup => if s.flow_path == Some(FlowPath::QuickSubmit) {
            Some(ActiveScreen::Result)
        } else {
            Some(ActiveScreen::Confirm)
        },
        ActiveScreen::Confirm => Some(ActiveScreen::Result),
        ActiveScreen::Result => None,
    }
}

/// Back: with no history the session ends as cancelled and nothing
/// changes; otherwise the previous screen comes back from the history (the
/// transition-state method is forgotten when leaving its screen) and the
/// step counter follows.
pub open spec fn back_post(o: App, n: App, r: Option<ExitReason>) -> bool {
    if o.screen_history@.len() == 0 {
        r == Some(ExitReason::Cancelled) && n == o
    } else {
        let h = o.screen_history@.drop_last();
        let prev = o.screen_history@.last();
        &&& r is None
        &&& n.screen_history@ == h
        &&& n == (App {
            state: AppState {
                tst_method: if o.current_screen is TstMethod {
                    None
                } else {
                    o.state.tst_method
                },
                current_step: step_spec(prev, h),
                ..o.state
            },
            current_screen: prev,
            screen_history: n.screen_history,
            ..o
        })
    }
}

/// File names a file list screen can lay out.
pub open spec fn files_fit(files: Seq<String>) -> bool {
    &&& files.len() <= usize::MAX / 4
    &&& forall|i: int| 0 <= i < files.len() ==> byte_len(#[trigger] files[i]@) <= usize::MAX / 4
}

/// Whether the file names fit a file list (see [`files_fit`]).
pub fn files_fit_check(files: &Vec<String>) -> (r: bool)
    ensures
        r == files_fit(files@),
{
    let n = files.len();
    if n > usize::MAX / 4 {
        return false;
    }
    for i in 0..n
        invariant
            n == files@.len(),
            forall|k: int| 0 <= k < i ==> byte_len(#[trigger] files@[k]@) <= usize::MAX / 4,
    {
        if str_byte_len(files[i].as_str()) > usize::MAX / 4 {
            return false;
        }
    }
    true
}

/// The session: state, settings, the screen shown, the way back, and one
/// instance of each screen.
pub struct App {
    pub state: AppState,
    pub config: Config,
    pub current_screen: ActiveScreen,
    pub screen_history: Vec<ActiveScreen>,
    pub welcome: WelcomeScreen,
    pub choose_path: ChoosePathScreen,
    pub calc_type: CalcTypeScreen,
    pub tst_method: TstMethodScreen,
    pub spin_mode: SpinModeScreen,
    pub magmom: Option<MagmomScreen>,
    pub file_pick: Option<FilePickScreen>,
    pub edit_incar: EditIncarScreen,
    pub edit_kpoints: EditKpointsScreen,
    pub submit_setup: Option<SubmitSetupScreen>,
    pub confirm: ConfirmScreen,
    pub result: ResultScreen,
}

impl App {
    /// The history goes forward through the flow; every screen instance is
    /// well formed; the file names fit a file list.
    pub open spec fn wf(self) -> bool {
        &&& history_ordered(self.screen_history@, self.current_screen)
        &&& files_fit(self.state.files@)
        &&& self.calc_type.cursor.count == 8 && self.calc_type.cursor.index < 8
        &&& self.tst_method.cursor.count == 3 && self.tst_method.cursor.index < 3
        &&& self.spin_mode.cursor.count == 2 && self.spin_mode.cursor.index < 2
        &&& self.magmom is Some ==> self.magmom->0.wf()
        &&& self.file_pick is Some ==> self.file_pick->0.wf()
        &&& self.edit_incar.wf()
        &&& self.edit_kpoints.wf()
        &&& self.submit_setup is Some ==> self.submit_setup->0.wf()
    }

    /// A session on the first screen, with no history.
    pub fn new(state: AppState, config: Config) -> (r: Self)
        requires
            files_fit(state.files@),
            state.incar_params.entries().len() <= crate::screens::edit_incar::PARAM_LIMIT,
        ensures
            r.wf(),
            r.state == state,
            r.config == config,
            r.current_screen == ActiveScreen::Welcome,
            r.screen_history@.len() == 0,
            r.magmom is None,
            r.file_pick is None,
            r.submit_setup is None,
            r.result.results@.len() == 0,
            r.choose_path.cursor.index == 0,
            r.calc_type.cursor.index == 0,
            r.tst_method.cursor.index == 0,
            r.spin_mode.cursor.index == 0,
            pair_views(r.edit_incar.params@) == shown_params(state.incar_params),
            r.edit_incar.focus == 0,
            r.edit_incar.mode == Mode::Navigate,
            r.edit_incar.input.content@.len() == 0,
            r.edit_kpoints.focus == 0,
            !r.edit_kpoints.editing,
            r.edit_kpoints.error is None,
            forall|i: int| 0 <= i < 3 ==> (#[trigger] r.edit_kpoints.buffers@[i]).content@ == decimal(state.kpoints@[i] as nat),
    {
        let edit_incar = EditIncarScreen::new(&state);
        let edit_kpoints = EditKpointsScreen::new(&state);
        App {
            welcome: WelcomeScreen::new(),
            choose_path: ChoosePathScreen::new(),
            calc_type: CalcTypeScreen::new(),
            tst_method: TstMethodScreen::new(),
            spin_mode: SpinModeScreen::new(),
            magmom: None,
            file_pick: None,
            edit_incar,
            edit_kpoints,
            submit_setup: None,
            confirm: ConfirmScreen::new(),
            result: ResultScreen::new(),
            state,
            config,
            current_screen: ActiveScreen::Welcome,
            screen_history: Vec::new(),
        }
    }

    /// Whether the calculation is a transition-state one.
    pub fn is_tst_flow(&self) -> (r: bool)
        ensures
            r == tst_flow(self.state),
    {
        match self.state.calc_type {
            Some(CalcType::Tst) => true,
            _ => false,
        }
    }

    /// The screen after the current one (see [`next_spec`]).
    pub fn next_screen(&self) -> (r: Option<ActiveScreen>)
        ensures
            r == next_spec(self.current_screen, self.state),
    {
        let tst = self.is_tst_flow();
        match self.current_screen {
            ActiveScreen::Welcome => Some(ActiveScreen::ChoosePath),
            ActiveScreen::ChoosePath => match self.state.flow_path {
                Some(FlowPath::QuickSubmit) => Some(ActiveScreen::SubmitSetup),
                Some(FlowPath::PerformCalculation) => Some(ActiveScreen::CalcType),
                None => None,
            },
            ActiveScreen::CalcType => {
                if tst {
                    Some(ActiveScreen::TstMethod)
                } else {
                    Some(ActiveScreen::SpinMode)
                }
            },
            ActiveScreen::TstMethod => Some(ActiveScreen::SpinMode),
            ActiveScreen::SpinMode => match self.state.spin_mode {
                Some(SpinMode::Unrestricted) => Some(ActiveScreen::Magmom),
                _ => {
                    if tst {
                        Some(ActiveScreen::EditIncar)
                    } else {
                        Some(ActiveScreen::FilePick)
                    }
                },
            },
            ActiveScreen::Magmom => {
                if tst {
                    Some(ActiveScreen::EditIncar)
                } else {
                    Some(ActiveScreen::FilePick)
                }
            },
            ActiveScreen::FilePick => Some(ActiveScreen::EditIncar),
            ActiveScreen::EditIncar => {
                if tst {
                    Some(ActiveScreen::SubmitSetup)
                } else {
                    Some(ActiveScreen::EditKpoints)
                }
            },
            ActiveScreen::EditKpoints => Some(ActiveScreen::SubmitSetup),
            ActiveScreen::SubmitSetup => match self.state.flow_path {
                Some(FlowPath::QuickSubmit) => Some(ActiveScreen::Result),
                _ => Some(ActiveScreen::Confirm),
            },
            ActiveScreen::Confirm => Some(ActiveScreen::Result),
            ActiveScreen::Result => None,
        }
    }

    /// Sets the step shown in the header from the current screen and the
    /// history (see [`step_spec`]).
    pub fn update_step_counter(&mut self)
        requires
            history_ordered(old(self).screen_history@, old(self).current_screen),
        ensures
            *final(self) == (App {
                state: AppState {
                    current_step: step_spec(old(self).current_screen, old(self).screen_history@),
                    ..old(self).state
                },
                ..*old(self)
            }),
    {
        proof {
            lemma_history_len(self.screen_history@, self.current_screen);
        }
        let step: u32 = match self.current_screen {
            ActiveScreen::Welcome | ActiveScreen::ChoosePath | ActiveScreen::Confirm
            | ActiveScreen::Result => 0,
            _ => {
                let n = self.screen_history.len();
                let mut count: u32 = 0;
                for i in 0..n
                    invariant
                        n == self.screen_history@.len(),
                        n <= 11,
                        count == counted_steps(self.screen_history@.take(i as int)),
                        count <= i,
                {
                    proof {
                        assert(self.screen_history@.take(i + 1).drop_last()
                            =~= self.screen_history@.take(i as int));
                        lemma_counted_steps_len(self.screen_history@.take(i as int));
                    }
                    match self.screen_history[i] {
                        ActiveScreen::Welcome | ActiveScreen::ChoosePath => {},
                        _ => {
                            count = count + 1;
                        },
                    }
                }
                proof {
                    assert(self.screen_history@.take(n as int) =~= self.screen_history@);
                }
                count + 1
            },
        };
        self.state.current_step = step;
    }

    /// Back: leaves the current screen for the previous one (forgetting the
    /// transition-state method when leaving its screen) and returns `None`;
    /// on the first screen it ends the session as cancelled.
    pub fn go_back(&mut self) -> (r: Option<ExitReason>)
        requires
            old(self).wf(),
        ensures
            final(self).wf(),
            back_post(*old(self), *final(self), r),
    {
        if self.screen_history.len() == 0 {
            return Some(ExitReason::Cancelled);
        }
        match self.screen_history.pop() {
            Some(prev) => {
                match self.current_screen {
                    ActiveScreen::TstMethod => {
                        self.state.tst_method = None;
                    },
                    _ => {},
                }
                self.current_screen = prev;
                self.update_step_counter();
                None
            },
            None => Some(ExitReason::Cancelled),
        }
    }

    /// The end of the session on `q`: on the result screen the outcomes are
    /// handed over, elsewhere the session is cancelled.
    pub fn quit(&mut self) -> (r: ExitReason)
        ensures
            old(self).current_screen is Result ==> r == ExitReason::Submitted(old(self).result.results)
                && final(self).result.results@.len() == 0,
            !(old(self).current_screen is Result) ==> r == ExitReason::Cancelled,
            *final(self) == (App { result: final(self).result, ..*old(self) }),
    {
        match self.current_screen {
            ActiveScreen::Result => {
                let mut taken: Vec<JobResult> = Vec::new();
                std::mem::swap(&mut taken, &mut self.result.results);
                ExitReason::Submitted(taken)
            },
            _ => ExitReason::Cancelled,
        }
    }
}


/// What a key does to the session: it goes to the screen shown, which may
/// change itself and the state as its own contract says; the screen shown,
/// the history, the settings and every other screen stay as they were. A
/// screen not built yet ignores the key.
pub open spec fn input_post(o: App, n: App, key: Key, values: Seq<Option<String>>, r: ScreenAction) -> bool {
    match o.current_screen {
        ActiveScreen::Welcome => n == o && r == welcome_action(key),
        ActiveScreen::ChoosePath => {
            &&& n == (App { choose_path: n.choose_path, state: n.state, ..o })
            &&& choice_post(
                o.choose_path.cursor,
                n.choose_path.cursor,
                o.state,
                n.state,
                (AppState { flow_path: Some(path_at(o.choose_path.cursor.index)), ..o.state }),
                key,
                r,
            )
        },
        ActiveScreen::CalcType => {
            &&& n == (App { calc_type: n.calc_type, state: n.state, ..o })
            &&& choice_post(
                o.calc_type.cursor,
                n.calc_type.cursor,
                o.state,
                n.state,
                (AppState { calc_type: Some(CalcType::all_spec()[o.calc_type.cursor.index as int]), ..o.state }),
                key,
                r,
            )
        },
        ActiveScreen::TstMethod => {
            &&& n == (App { tst_method: n.tst_method, state: n.state, ..o })
            &&& choice_post(
                o.tst_method.cursor,
                n.tst_method.cursor,
                o.state,
                n.state,
                (AppState { tst_method: Some(TstMethod::all_spec()[o.tst_method.cursor.index as int]), ..o.state }),
                key,
                r,
            )
        },
        ActiveScreen::SpinMode => {
            &&& n == (App { spin_mode: n.spin_mode, state: n.state, ..o })
            &&& choice_post(
                o.spin_mode.cursor,
                n.spin_mode.cursor,
                o.state,
                n.state,
                (AppState {
                    spin_mode: Some(
                        if o.spin_mode.cursor.index == 0 {
                            SpinMode::Restricted
                        } else {
                            SpinMode::Unrestricted
                        },
                    ),
                    ..o.state
                }),
                key,
                r,
            )
        },
        ActiveScreen::Magmom => match o.magmom {
            Some(m) => {
                &&& n == (App { magmom: n.magmom, state: n.state, ..o })
                &&& n.magmom is Some
                &&& magmom_post(m, n.magmom->0, o.state, n.state, key, values, r)
            },
            None => n == o && r == ScreenAction::Continue,
        },
        ActiveScreen::FilePick => match o.file_pick {
            Some(f) => {
                &&& n == (App { file_pick: n.file_pick, state: n.state, ..o })
                &&& n.file_pick is Some
                &&& if f.use_grid {
                    crate::screens::file_pick::grid_post(f, n.file_pick->0, o.state, n.state, key, r)
                } else {
                    crate::screens::file_pick::vertical_post(f, n.file_pick->0, o.state, n.state, key, r)
                }
            },
            None => n == o && r == ScreenAction::Continue,
        },
        ActiveScreen::EditIncar => {
            let e = o.edit_incar;
            &&& n == (App { edit_incar: n.edit_incar, state: n.state, ..o })
            &&& e.mode != Mode::Navigate ==> n.state == o.state
            &&& match e.mode {
                Mode::Navigate => if e.use_grid {
                    crate::screens::edit_incar::grid_post(e, n.edit_incar, o.state, n.state, key, r)
                } else {
                    crate::screens::edit_incar::vertical_post(e, n.edit_incar, o.state, n.state, key, r)
                },
                Mode::EditValue => edit_post(e, n.edit_incar, key, r),
                Mode::AddKey => add_key_post(e, n.edit_incar, key, r),
                Mode::AddValue => add_value_post(e, n.edit_incar, key, r),
            }
        },
        ActiveScreen::EditKpoints => {
            &&& n == (App { edit_kpoints: n.edit_kpoints, state: n.state, ..o })
            &&& kpoints_post(o.edit_kpoints, n.edit_kpoints, o.state, n.state, key, r)
        },
        ActiveScreen::SubmitSetup => match o.submit_setup {
            Some(s) => {
                &&& n == (App { submit_setup: n.submit_setup, state: n.state, ..o })
                &&& n.submit_setup is Some
                &&& setup_post(s, n.submit_setup->0, o.state, n.state, key, r)
            },
            None => n == o && r == ScreenAction::Continue,
        },
        ActiveScreen::Confirm => n == o && r == confirm_action(key),
        ActiveScreen::Result => n == o && r == result_action(key),
    }
}

impl App {
    /// Passes a key to the screen shown (see [`input_post`]). `values[i]` is
    /// the number read from the `i`-th field of the magnetic moment screen,
    /// used when it confirms.
    pub fn handle_input(&mut self, key: Key, values: &Vec<Option<String>>) -> (r: ScreenAction)
        requires
            old(self).wf(),
            old(self).edit_incar.count() < PARAM_LIMIT,
            old(self).magmom is Some ==> values@.len() == old(self).magmom->0.buffers@.len(),
        ensures
            final(self).wf(),
            input_post(*old(self), *final(self), key, values@, r),
    {
        match self.current_screen {
            ActiveScreen::Welcome => self.welcome.handle_input(key, &mut self.state),
            ActiveScreen::ChoosePath => self.choose_path.handle_input(key, &mut self.state),
            ActiveScreen::CalcType => self.calc_type.handle_input(key, &mut self.state),
            ActiveScreen::TstMethod => self.tst_method.handle_input(key, &mut self.state),
            ActiveScreen::SpinMode => self.spin_mode.handle_input(key, &mut self.state),
            ActiveScreen::Magmom => match &mut self.magmom {
                Some(screen) => screen.handle_input(key, &mut self.state, values),
                None => ScreenAction::Continue,
            },
            ActiveScreen::FilePick => match &mut self.file_pick {
                Some(screen) => screen.handle_input(key, &mut self.state),
                None => ScreenAction::Continue,
            },
            ActiveScreen::EditIncar => self.edit_incar.handle_input(key, &mut self.state),
            ActiveScreen::EditKpoints => self.edit_kpoints.handle_input(key, &mut self.state),
            ActiveScreen::SubmitSetup => match &mut self.submit_setup {
                Some(screen) => screen.handle_input(key, &mut self.state),
                None => ScreenAction::Continue,
            },
            ActiveScreen::Confirm => self.confirm.handle_input(key, &mut self.state),
            ActiveScreen::Result => self.result.handle_input(key, &mut self.state),
        }
    }
}


/// `dir` joined with `name` as `Path::join` joins two paths on Unix: an
/// absolute `name` replaces `dir`; otherwise a `/` goes between them unless
/// `dir` is empty or already ends with one.
pub open spec fn join_path_spec(dir: Seq<char>, name: Seq<char>) -> Seq<char> {
    if name.len() > 0 && name[0] == '/' {
        name
    } else if dir.len() == 0 || dir.last() == '/' {
        dir + name
    } else {
        dir + seq!['/'] + name
    }
}

/// Joins a directory and a name (see [`join_path_spec`]).
pub fn join_path(dir: &str, name: &str) -> (r: String)
    ensures
        r@ == join_path_spec(dir@, name@),
{
    let vn = chars_of(name);
    if vn.len() > 0 && vn[0] == '/' {
        return String::from_str(name);
    }
    let vd = chars_of(dir);
    let mut r = String::from_str(dir);
    if vd.len() > 0 && vd[vd.len() - 1] != '/' {
        push_char(&mut r, '/');
    }
    r.append(name);
    r
}

/// The text of an optional string.
pub open spec fn text_of(o: Option<String>) -> Option<Seq<char>> {
    match o {
        Some(s) => Some(s@),
        None => None,
    }
}

/// The preset to fetch: the effective one, when going to the spin mode
/// screen.
pub open spec fn preset_need(s: AppState, next: ActiveScreen) -> Option<Seq<char>> {
    if next is SpinMode {
        Some(s.effective_preset_spec())
    } else {
        None
    }
}

/// Whether the NEB images are to be counted: going to the spin mode screen
/// in a transition-state calculation whose method uses images.
pub open spec fn images_need(s: AppState, next: ActiveScreen) -> bool {
    &&& next is SpinMode
    &&& tst_flow(s)
    &&& s.tst_method is Some
    &&& s.tst_method->0.uses_images_spec()
}

/// The structure file whose species are read: the first file going to the
/// magnetic moment screen; the first selected file (the first file when none
/// is selected) going to the INCAR screen; none when there is no such file.
pub open spec fn atoms_need(s: AppState, next: ActiveScreen) -> Option<Seq<char>> {
    match next {
        ActiveScreen::Magmom => if s.files@.len() > 0 {
            Some(join_path_spec(s.work_dir@, s.files@[0]@))
        } else {
            None
        },
        ActiveScreen::EditIncar => {
            let idx: int = if s.selected_files@.len() > 0 {
                s.selected_files@[0] as int
            } else {
                0
            };
            if idx < s.files@.len() {
                Some(join_path_spec(s.work_dir@, s.files@[idx]@))
            } else {
                None
            }
        },
        _ => None,
    }
}

/// The structure file read for the species: going to the INCAR screen it
/// is the file at the first selected index (the first file when nothing is
/// selected), going to the magnetic moment screen it is the first file, in
/// the working directory; no other screen reads one.
pub proof fn lemma_species_file(s: AppState, next: ActiveScreen)
    ensures
        next == ActiveScreen::EditIncar && s.selected_files@.len() > 0 && (s.selected_files@[0] as int)
            < s.files@.len() ==> atoms_need(s, next) == Some(
            join_path_spec(s.work_dir@, s.files@[s.selected_files@[0] as int]@),
        ),
        next == ActiveScreen::EditIncar && s.selected_files@.len() == 0 && s.files@.len() > 0
            ==> atoms_need(s, next) == Some(join_path_spec(s.work_dir@, s.files@[0]@)),
        next == ActiveScreen::Magmom && s.files@.len() > 0 ==> atoms_need(s, next) == Some(
            join_path_spec(s.work_dir@, s.files@[0]@),
        ),
        next != ActiveScreen::EditIncar && next != ActiveScreen::Magmom ==> atoms_need(s, next) is None,
{
}

/// What a transition needs from outside before the next screen is built.
pub struct TransitionNeeds {
    /// The preset to fetch from the backend.
    pub preset: Option<String>,
    /// Whether the subdirectories of the working directory are to be listed.
    pub image_dirs: bool,
    /// The structure file whose species the backend is to read.
    pub atoms_file: Option<String>,
}

/// The outside replies for a transition (those not asked for are ignored).
pub struct TransitionReplies {
    /// The preset: its parameters when the backend sent a table, `None`
    /// when it sent something else.
    pub preset: Result<Option<Vec<(String, IncarValue)>>, PythonError>,
    /// Names of the subdirectories of the working directory (none when it
    /// cannot be listed).
    pub image_dirs: Vec<String>,
    /// The species: those with a symbol and a count when the backend sent a
    /// list of species, `None` when it sent none.
    pub atoms: Result<Option<Vec<SpeciesInfo>>, PythonError>,
}

/// The value a list of `(name, value)` pairs gives a name: its last
/// occurrence's.
pub open spec fn preset_value(l: Seq<(String, IncarValue)>, k: Seq<char>) -> Option<IncarVal>
    decreases l.len(),
{
    if l.len() == 0 {
        None
    } else if l.last().0@ == k {
        Some(l.last().1@)
    } else {
        preset_value(l.drop_last(), k)
    }
}

/// `"Failed to load preset '{name}': {message}"`
pub open spec fn preset_failure(name: Seq<char>, e: PythonError) -> Seq<char> {
    "Failed to load preset '"@ + name + "': "@ + e.message_spec()
}

/// A parameter after a transition: going to the spin mode screen the
/// preset's parameters replace the table when it came as a table, and the
/// number of NEB images is set as `IMAGES` when it is asked for and the
/// image directories are well numbered; going to the INCAR screen `ISPIN`
/// is set to 2 for an unrestricted calculation; other parameters stay.
pub open spec fn incar_after(s: AppState, next: ActiveScreen, replies: TransitionReplies, k: Seq<char>) -> Option<IncarVal> {
    match next {
        ActiveScreen::SpinMode => if images_need(s, next) && images_spec(replies.image_dirs@) is Some
            && k == "IMAGES"@ {
            Some(IncarVal::Int(images_spec(replies.image_dirs@)->0 as i64))
        } else {
            match replies.preset {
                Ok(Some(l)) => preset_value(l@, k),
                _ => s.incar_params.get_spec(k),
            }
        },
        ActiveScreen::EditIncar => if s.spin_mode == Some(SpinMode::Unrestricted) && k == "ISPIN"@ {
            Some(IncarVal::Int(2))
        } else {
            s.incar_params.get_spec(k)
        },
        _ => s.incar_params.get_spec(k),
    }
}

/// The species after a transition: those read from the structure file when
/// one was read and the reply had a list.
pub open spec fn species_after(s: AppState, next: ActiveScreen, replies: TransitionReplies) -> Vec<SpeciesInfo> {
    if atoms_need(s, next) is Some && replies.atoms matches Ok(Some(v)) {
        replies.atoms->Ok_0->0
    } else {
        s.species
    }
}

/// The message for the next INCAR screen after a transition: a failed
/// preset load is recorded; going to the INCAR screen the message is handed
/// to it and cleared.
pub open spec fn error_after(s: AppState, next: ActiveScreen, replies: TransitionReplies) -> Option<Seq<char>> {
    match next {
        ActiveScreen::SpinMode => match replies.preset {
            Err(e) => Some(preset_failure(s.effective_preset_spec(), e)),
            _ => text_of(s.error),
        },
        ActiveScreen::EditIncar => None,
        _ => text_of(s.error),
    }
}

/// The session after a transition to `next` with the outside replies: the
/// current screen goes on the history, the state changes as
/// [`incar_after`], [`species_after`] and [`error_after`] say and the step
/// counter follows; the screen that needs it is built afresh from the new
/// state; nothing else changes.
pub open spec fn advance_post(o: App, n: App, next: ActiveScreen, replies: TransitionReplies) -> bool {
    let h = o.screen_history@.push(o.current_screen);
    let s = n.state;
    &&& n.current_screen == next
    &&& n.screen_history@ == h
    &&& s == (AppState {
        incar_params: s.incar_params,
        species: s.species,
        error: s.error,
        current_step: step_spec(next, h),
        ..o.state
    })
    &&& forall|k: Seq<char>| #[trigger] s.incar_params.get_spec(k) == incar_after(o.state, next, replies, k)
    &&& s.species == species_after(o.state, next, replies)
    &&& text_of(s.error) == error_after(o.state, next, replies)
    &&& n == (App {
        state: s,
        current_screen: next,
        screen_history: n.screen_history,
        magmom: n.magmom,
        file_pick: n.file_pick,
        edit_incar: n.edit_incar,
        edit_kpoints: n.edit_kpoints,
        submit_setup: n.submit_setup,
        ..o
    })
    &&& if next is Magmom {
        &&& n.magmom is Some
        &&& n.magmom->0.buffers@.len() == s.species@.len()
        &&& forall|i: int| 0 <= i < s.species@.len() ==> (#[trigger] n.magmom->0.buffers@[i]).content@ == "0.0"@
        &&& n.magmom->0.focus == 0 && !n.magmom->0.editing && n.magmom->0.error is None
    } else {
        n.magmom == o.magmom
    }
    &&& if next is FilePick {
        &&& n.file_pick is Some
        &&& n.file_pick->0.file_count == s.files@.len()
        &&& n.file_pick->0.focus == 0
        &&& forall|i: int| 0 <= i < s.files@.len() ==> !(#[trigger] n.file_pick->0.checkboxes.checked@[i])
    } else {
        n.file_pick == o.file_pick
    }
    &&& if next is EditIncar {
        &&& pair_views(n.edit_incar.params@) == shown_params(s.incar_params)
        &&& n.edit_incar.focus == 0
        &&& n.edit_incar.mode == Mode::Navigate
        &&& text_of(n.edit_incar.error) == text_of(o.state.error)
    } else {
        n.edit_incar == o.edit_incar
    }
    &&& if next is EditKpoints {
        &&& n.edit_kpoints.focus == 0
        &&& !n.edit_kpoints.editing
        &&& forall|i: int| 0 <= i < 3 ==> (#[trigger] n.edit_kpoints.buffers@[i]).content@ == decimal(
            s.kpoints@[i] as nat,
        )
    } else {
        n.edit_kpoints == o.edit_kpoints
    }
    &&& if next is SubmitSetup {
        &&& n.submit_setup is Some
        &&& n.submit_setup->0.is_quick == (s.flow_path == Some(FlowPath::QuickSubmit))
        &&& n.submit_setup->0.focus == 0
    } else {
        n.submit_setup == o.submit_setup
    }
}

/// Fewer parameters than the screens can hold, with room for the two that
/// transitions add.
pub open spec fn incar_fits(n: nat) -> bool {
    n + 2 < PARAM_LIMIT
}

fn apply_preset(
    state: &mut AppState,
    name: &str,
    reply: Result<Option<Vec<(String, IncarValue)>>, PythonError>,
)
    requires
        incar_fits(old(state).incar_params.entries().len()),
        reply matches Ok(Some(l)) ==> incar_fits(l@.len()),
    ensures
        *final(state) == (AppState {
            incar_params: final(state).incar_params,
            error: final(state).error,
            ..*old(state)
        }),
        incar_fits(final(state).incar_params.entries().len()),
        forall|k: Seq<char>| #[trigger] final(state).incar_params.get_spec(k) == match reply {
            Ok(Some(l)) => preset_value(l@, k),
            _ => old(state).incar_params.get_spec(k),
        },
        text_of(final(state).error) == match reply {
            Err(e) => Some(preset_failure(name@, e)),
            _ => text_of(old(state).error),
        },
{
    match reply {
        Ok(Some(list)) => {
            state.incar_params.clear();
            let n = list.len();
            for i in 0..n
                invariant
                    n == list@.len(),
                    incar_fits(n as nat),
                    *state == (AppState { incar_params: state.incar_params, ..*old(state) }),
                    state.incar_params.entries().len() <= i,
                    forall|k: Seq<char>| #[trigger] state.incar_params.get_spec(k) == preset_value(
                        list@.take(i as int),
                        k,
                    ),
            {
                proof {
                    assert(list@.take(i + 1).drop_last() =~= list@.take(i as int));
                }
                let key = list[i].0.clone();
                let val = list[i].1.duplicate();
                state.incar_params.insert(key, val);
            }
            proof {
                assert(list@.take(n as int) =~= list@);
            }
        },
        Ok(None) => {},
        Err(e) => {
            let mut m = String::from_str("Failed to load preset '");
            m.append(name);
            m.append("': ");
            let t = e.message();
            m.append(t.as_str());
            state.error = Some(m);
        },
    }
}

impl App {
    /// What going to `next` needs from outside (see [`preset_need`],
    /// [`images_need`], [`atoms_need`]).
    pub fn transition_needs(&self, next: ActiveScreen) -> (r: TransitionNeeds)
        ensures
            text_of(r.preset) == preset_need(self.state, next),
            r.image_dirs == images_need(self.state, next),
            text_of(r.atoms_file) == atoms_need(self.state, next),
            next == ActiveScreen::EditIncar && self.state.selected_files@.len() > 0
                && (self.state.selected_files@[0] as int) < self.state.files@.len() ==> text_of(r.atoms_file)
                == Some(join_path_spec(self.state.work_dir@, self.state.files@[self.state.selected_files@[0] as int]@)),
    {
        let s = &self.state;
        let preset = match next {
            ActiveScreen::SpinMode => Some(String::from_str(s.effective_preset_name())),
            _ => None,
        };
        let image_dirs = match next {
            ActiveScreen::SpinMode => {
                if s.is_tst_flow() {
                    match &s.tst_method {
                        Some(m) => m.uses_images(),
                        None => false,
                    }
                } else {
                    false
                }
            },
            _ => false,
        };
        let atoms_file = match next {
            ActiveScreen::Magmom => {
                if s.files.len() > 0 {
                    Some(join_path(s.work_dir.as_str(), s.files[0].as_str()))
                } else {
                    None
                }
            },
            ActiveScreen::EditIncar => {
                let idx: usize = if s.selected_files.len() > 0 {
                    s.selected_files[0]
                } else {
                    0
                };
                if idx < s.files.len() {
                    Some(join_path(s.work_dir.as_str(), s.files[idx].as_str()))
                } else {
                    None
                }
            },
            _ => None,
        };
        TransitionNeeds { preset, image_dirs, atoms_file }
    }

    /// Goes to `next`, the screen after the current one, with the outside
    /// replies (see [`advance_post`]).
    pub fn complete_advance(&mut self, next: ActiveScreen, replies: TransitionReplies)
        requires
            old(self).wf(),
            next_spec(old(self).current_screen, old(self).state) == Some(next),
            incar_fits(old(self).state.incar_params.entries().len()),
            replies.preset matches Ok(Some(l)) ==> incar_fits(l@.len()),
        ensures
            final(self).wf(),
            advance_post(*old(self), *final(self), next, replies),
    {
        let ghost o = *self;
        let ghost rep = replies;
        let needs_atoms = match next {
            ActiveScreen::Magmom => self.state.files.len() > 0,
            ActiveScreen::EditIncar => {
                let idx: usize = if self.state.selected_files.len() > 0 {
                    self.state.selected_files[0]
                } else {
                    0
                };
                idx < self.state.files.len()
            },
            _ => false,
        };
        let TransitionReplies { preset, image_dirs, atoms } = replies;
        if needs_atoms {
            match atoms {
                Ok(Some(species)) => {
                    self.state.species = species;
                },
                _ => {},
            }
        }
        match next {
            ActiveScreen::SpinMode => {
                let name = self.state.effective_preset_name();
                apply_preset(&mut self.state, name, preset);
                let wants_images = match &self.state.tst_method {
                    Some(m) => self.state.is_tst_flow() && m.uses_images(),
                    None => false,
                };
                if wants_images {
                    match AppState::detect_images(&image_dirs) {
                        Some(count) => {
                            self.state.incar_params.insert(
                                String::from_str("IMAGES"),
                                IncarValue::Int(count as i64),
                            );
                        },
                        None => {},
                    }
                }
            },
            ActiveScreen::Magmom => {
                let count = self.state.species.len();
                self.magmom = Some(MagmomScreen::new(count));
            },
            ActiveScreen::FilePick => {
                let count = self.state.files.len();
                self.file_pick = Some(FilePickScreen::new(count, self.state.files.as_slice()));
            },
            ActiveScreen::EditIncar => {
                match self.state.spin_mode {
                    Some(SpinMode::Unrestricted) => {
                        self.state.incar_params.insert(String::from_str("ISPIN"), IncarValue::Int(2));
                    },
                    _ => {},
                }
                self.edit_incar = EditIncarScreen::new(&self.state);
                self.state.error = None;
            },
            ActiveScreen::EditKpoints => {
                self.edit_kpoints = EditKpointsScreen::new(&self.state);
            },
            ActiveScreen::SubmitSetup => {
                self.submit_setup = Some(SubmitSetupScreen::new(&self.state));
            },
            _ => {},
        }
        let cur = self.current_screen;
        self.screen_history.push(cur);
        self.current_screen = next;
        self.update_step_counter();
    }
}


/// One job to submit.
pub struct JobPlan {
    pub job_name: String,
    /// The structure file the input files are written from (empty for a
    /// quick submission, and when the selected index names no file).
    pub file_path: String,
    /// The directory the job runs in.
    pub output_dir: String,
}

/// Name of the `i`-th job: the one entered, else `vaspsetup_NN` numbered
/// from 1.
pub open spec fn job_name_at(names: Seq<String>, i: int) -> Seq<char> {
    if i < names.len() {
        names[i]@
    } else {
        "vaspsetup_"@ + decimal2((i + 1) as nat)
    }
}

/// Path of the file at index `idx`, or empty when there is none.
pub open spec fn file_path_at(s: AppState, idx: int) -> Seq<char> {
    if 0 <= idx < s.files@.len() {
        join_path_spec(s.work_dir@, s.files@[idx]@)
    } else {
        seq![]
    }
}

/// The jobs of a calculation: one per selected file, in selection order,
/// each in a directory of its own name under the output directory.
pub open spec fn file_jobs_spec(s: AppState, r: Seq<JobPlan>) -> bool {
    &&& r.len() == s.selected_files@.len()
    &&& forall|i: int| 0 <= i < r.len() ==> {
        &&& (#[trigger] r[i]).job_name@ == job_name_at(s.job_names@, i)
        &&& r[i].output_dir@ == s.output_dir@ + seq!['/'] + job_name_at(s.job_names@, i)
        &&& r[i].file_path@ == file_path_at(s, s.selected_files@[i] as int)
    }
}

/// Why a job was not submitted.
pub enum SubmitFailure {
    /// The backend could not write the VASP input files.
    WriteInputs(PythonError),
    /// The output directory could not be created; the reason.
    CreateDir(String),
    /// The script could not be written; the reason.
    WriteScript(String),
    /// The submission of the job stopped unexpectedly.
    Panicked,
}

/// The message for a job that was not submitted.
pub open spec fn failure_text(f: SubmitFailure) -> Seq<char> {
    match f {
        SubmitFailure::WriteInputs(e) => "Failed to write input files: "@ + e.message_spec(),
        SubmitFailure::CreateDir(m) => "Failed to create output directory: "@ + m@,
        SubmitFailure::WriteScript(m) => "Failed to write script: "@ + m@,
        SubmitFailure::Panicked => "Internal error: submission thread panicked"@,
    }
}

/// The failed result of a job that was not submitted.
pub fn failure_result(job_name: &str, failure: SubmitFailure) -> (r: JobResult)
    ensures
        r.job_name@ == job_name@,
        !r.success,
        r.job_id is None,
        r.message@ == failure_text(failure),
{
    let m = match failure {
        SubmitFailure::WriteInputs(e) => {
            let mut m = String::from_str("Failed to write input files: ");
            let t = e.message();
            m.append(t.as_str());
            m
        },
        SubmitFailure::CreateDir(reason) => {
            let mut m = String::from_str("Failed to create output directory: ");
            m.append(reason.as_str());
            m
        },
        SubmitFailure::WriteScript(reason) => {
            let mut m = String::from_str("Failed to write script: ");
            m.append(reason.as_str());
            m
        },
        SubmitFailure::Panicked => String::from_str("Internal error: submission thread panicked"),
    };
    JobResult::error(String::from_str(job_name), m)
}

/// The result of a job handed to `qsub`.
pub fn job_outcome(job_name: &str, q: QsubResult) -> (r: JobResult)
    ensures
        r.job_name@ == job_name@,
        r.success == q.success,
        r.job_id == q.job_id,
        r.message == q.message,
{
    JobResult { job_name: String::from_str(job_name), success: q.success, job_id: q.job_id, message: q.message }
}

impl App {
    /// Whether the session is a quick submission.
    pub fn is_quick_submit(&self) -> (r: bool)
        ensures
            r == (self.state.flow_path == Some(FlowPath::QuickSubmit)),
    {
        match self.state.flow_path {
            Some(FlowPath::QuickSubmit) => true,
            _ => false,
        }
    }

    /// The single job of a quick submission: the first name entered (else
    /// `vaspsetup_job`), run in the output directory (the working directory
    /// when none was given), with no input files to write.
    pub fn quick_job(&self) -> (r: JobPlan)
        ensures
            r.job_name@ == if self.state.job_names@.len() > 0 {
                self.state.job_names@[0]@
            } else {
                "vaspsetup_job"@
            },
            r.output_dir@ == if self.state.output_dir@.len() == 0 {
                self.state.work_dir@
            } else {
                self.state.output_dir@
            },
            r.file_path@.len() == 0,
    {
        let s = &self.state;
        let job_name = if s.job_names.len() > 0 {
            s.job_names[0].clone()
        } else {
            String::from_str("vaspsetup_job")
        };
        let output_dir = if s.output_dir.as_str().unicode_len() == 0 {
            s.work_dir.clone()
        } else {
            s.output_dir.clone()
        };
        JobPlan { job_name, file_path: String::new(), output_dir }
    }

    /// The jobs of a calculation (see [`file_jobs_spec`]).
    pub fn file_jobs(&self) -> (r: Vec<JobPlan>)
        requires
            self.state.selected_files@.len() < u64::MAX,
        ensures
            file_jobs_spec(self.state, r@),
    {
        let s = &self.state;
        let n = s.selected_files.len();
        let mut jobs: Vec<JobPlan> = Vec::new();
        for i in 0..n
            invariant
                n == s.selected_files@.len(),
                n < u64::MAX,
                jobs@.len() == i,
                forall|j: int| 0 <= j < i ==> {
                    &&& (#[trigger] jobs@[j]).job_name@ == job_name_at(s.job_names@, j)
                    &&& jobs@[j].output_dir@ == s.output_dir@ + seq!['/'] + job_name_at(s.job_names@, j)
                    &&& jobs@[j].file_path@ == file_path_at(*s, s.selected_files@[j] as int)
                },
        {
            let job_name = if i < s.job_names.len() {
                s.job_names[i].clone()
            } else {
                let mut t = String::from_str("vaspsetup_");
                push_decimal2(&mut t, (i as u64) + 1);
                t
            };
            let mut output_dir = s.output_dir.clone();
            push_char(&mut output_dir, '/');
            output_dir.append(job_name.as_str());
            let idx = s.selected_files[i];
            let file_path = if idx < s.files.len() {
                join_path(s.work_dir.as_str(), s.files[idx].as_str())
            } else {
                String::new()
            };
            jobs.push(JobPlan { job_name, file_path, output_dir });
        }
        jobs
    }

    /// The parameters written for every job: the session's, with `MAGMOM`
    /// set to the moments text when there is one.
    pub fn job_params(&self) -> (r: IncarParams)
        ensures
            forall|k: Seq<char>| #[trigger] r.get_spec(k) == if self.state.magmom_spec() is Some && k
                == "MAGMOM"@ {
                Some(IncarVal::Text(self.state.magmom_spec()->0))
            } else {
                self.state.incar_params.get_spec(k)
            },
    {
        let mut params = self.state.incar_params.duplicate();
        match self.state.magmom_string() {
            Some(m) => {
                params.insert(String::from_str("MAGMOM"), IncarValue::Text(m));
            },
            None => {},
        }
        params
    }

    /// The submission script of a job, or its failed result when a setting
    /// holds a line break.
    pub fn job_script(&self, job: &JobPlan) -> (r: Result<String, JobResult>)
        ensures
            ({
                let s = self.state;
                let c = self.config.cluster;
                let ok = script_params_ok(
                    job.job_name@,
                    s.queue@,
                    c.parallel_env@,
                    c.vasp_module@,
                    job.output_dir@,
                    s.vasp_binary_spec(),
                );
                &&& r is Ok <==> ok
                &&& ok ==> r->Ok_0@ == sge_script(
                    job.job_name@,
                    s.queue@,
                    s.cores,
                    c.parallel_env@,
                    c.vasp_module@,
                    job.output_dir@,
                    s.vasp_binary_spec(),
                )
                &&& !ok ==> {
                    let e = r->Err_0;
                    &&& e.job_name@ == job.job_name@
                    &&& !e.success
                    &&& e.job_id is None
                    &&& e.message@ == "Script rendering failed: "@ + first_break_message(
                        job.job_name@,
                        s.queue@,
                        c.parallel_env@,
                        c.vasp_module@,
                        job.output_dir@,
                        s.vasp_binary_spec(),
                    )
                }
            }),
    {
        let s = &self.state;
        let c = &self.config.cluster;
        match render_sge_script(
            job.job_name.as_str(),
            s.queue.as_str(),
            s.cores,
            c.parallel_env.as_str(),
            c.vasp_module.as_str(),
            job.output_dir.as_str(),
            s.vasp_binary(),
        ) {
            Ok(script) => Ok(script),
            Err(e) => {
                let mut m = String::from_str("Script rendering failed: ");
                m.append(e.as_str());
                Err(JobResult::error(job.job_name.clone(), m))
            },
        }
    }

    /// Records the outcomes of the submissions for the result screen.
    pub fn set_results(&mut self, results: Vec<JobResult>)
        ensures
            *final(self) == (App { result: ResultScreen { results }, ..*old(self) }),
    {
        self.result.results = results;
    }
}


/// Going back right after going forward returns to the screen left, with
/// the history it had.
pub proof fn lemma_back_after_advance(
    a: App,
    b: App,
    c: App,
    next: ActiveScreen,
    replies: TransitionReplies,
    r: Option<ExitReason>,
)
    requires
        advance_post(a, b, next, replies),
        back_post(b, c, r),
    ensures
        r is None,
        c.current_screen == a.current_screen,
        c.screen_history@ == a.screen_history@,
{
    assert(b.screen_history@.drop_last() =~= a.screen_history@);
}

/// In a well-formed session the history never holds more than the eleven
/// screens before the last one, and the step counter stays small.
pub proof fn lemma_history_bounded(a: App)
    requires
        a.wf(),
    ensures
        a.screen_history@.len() <= screen_rank(a.current_screen) <= 11,
        step_spec(a.current_screen, a.screen_history@) <= 12,
{
    lemma_history_len(a.screen_history@, a.current_screen);
    lemma_counted_steps_len(a.screen_history@);
}


/// Every transition goes forward in the flow, so no screen is met twice on
/// the way to the result.
pub proof fn lemma_next_goes_forward(cur: ActiveScreen, s: AppState)
    ensures
        next_spec(cur, s) is Some ==> screen_rank(next_spec(cur, s)->0) > screen_rank(cur),
        next_spec(cur, s) is None <==> (cur is Result || (cur is ChoosePath && s.flow_path is None)),
{
}


/// The screens met from `cur` on, the choices in `s` held fixed: `cur`,
/// then the screens after it, at most `n` of them.
pub open spec fn walk(cur: ActiveScreen, s: AppState, n: nat) -> Seq<ActiveScreen>
    decreases n,
{
    if n == 0 {
        seq![]
    } else {
        seq![cur] + match next_spec(cur, s) {
            Some(nx) => walk(nx, s, (n - 1) as nat),
            None => seq![],
        }
    }
}

/// The screens of a calculation from the calculation type on: the method
/// for a transition state, the spin, the magnetic moments when unrestricted,
/// the files unless a transition state, the INCAR table, the k-points
/// unless a transition state, the submission form, the summary, the result.
pub open spec fn calculation_chain(s: AppState) -> Seq<ActiveScreen> {
    let tst = tst_flow(s);
    seq![ActiveScreen::CalcType] + (if tst { seq![ActiveScreen::TstMethod] } else { seq![] }) + seq![
        ActiveScreen::SpinMode,
    ] + (if s.spin_mode == Some(SpinMode::Unrestricted) {
        seq![ActiveScreen::Magmom]
    } else {
        seq![]
    }) + (if tst { seq![] } else { seq![ActiveScreen::FilePick] }) + seq![ActiveScreen::EditIncar] + (if tst {
        seq![]
    } else {
        seq![ActiveScreen::EditKpoints]
    }) + seq![ActiveScreen::SubmitSetup, ActiveScreen::Confirm, ActiveScreen::Result]
}

/// The whole flow with the choices held fixed: a calculation goes from the
/// calculation type through [`calculation_chain`] and ends at the result,
/// its counted steps being the screens up to the submission form; a quick
/// submission goes from the path choice to the submission form and then
/// straight to the result, one counted step.
pub proof fn lemma_flow_chain(s: AppState)
    ensures
        s.flow_path == Some(FlowPath::PerformCalculation) ==> {
            &&& walk(ActiveScreen::CalcType, s, 12) == calculation_chain(s)
            &&& calculation_chain(s).len() == s.total_steps_spec() + 2
            &&& calculation_chain(s)[s.total_steps_spec() - 1] == ActiveScreen::SubmitSetup
        },
        s.flow_path == Some(FlowPath::QuickSubmit) ==> {
            &&& walk(ActiveScreen::ChoosePath, s, 12) == seq![
                ActiveScreen::ChoosePath,
                ActiveScreen::SubmitSetup,
                ActiveScreen::Result,
            ]
            &&& s.total_steps_spec() == 1
        },
{
    reveal_with_fuel(walk, 13);
    assert(walk(ActiveScreen::Result, s, 1) =~= seq![ActiveScreen::Result]);
    if s.flow_path == Some(FlowPath::PerformCalculation) {
        assert(walk(ActiveScreen::CalcType, s, 12) =~= calculation_chain(s));
    }
    if s.flow_path == Some(FlowPath::QuickSubmit) {
        assert(walk(ActiveScreen::ChoosePath, s, 12) =~= seq![
            ActiveScreen::ChoosePath,
            ActiveScreen::SubmitSetup,
            ActiveScreen::Result,
        ]);
    }
}

} // verus!
