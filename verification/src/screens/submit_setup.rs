//! Submission setup screen: output directory (new calculations only), job
//! name, queue, cores and, for quick submission, the VASP executable.

use vstd::prelude::*;
use crate::number::{decimal, decimal2, parse_u32, parse_u32_spec, push_decimal2, u64_to_string};
use crate::shell::{sanitize_job_name, sanitize_spec};
use crate::state::{AppState, FlowPath};
use crate::text::{push_char, trim, trim_str};
use super::{buffers_wf, edit_buffer, key_edit, Key, ScreenAction, TextBuffer};

verus! {

pub struct SubmitSetupScreen {
    pub buffers: Vec<TextBuffer>,
    pub labels: Vec<&'static str>,
    /// Quick submission of a prepared directory.
    pub is_quick: bool,
    pub idx_output_dir: Option<usize>,
    pub idx_calc_name: usize,
    pub idx_queue: usize,
    pub idx_cores: usize,
    pub idx_vasp_binary: Option<usize>,
    pub work_dir_display: String,
    /// `0..field_count` are fields, `field_count` is the Confirm slot.
    pub focus: usize,
    pub editing: bool,
    pub error: Option<String>,
}

/// Job names for `count` selected files: the sanitized name with `_01`,
/// `_02`, ... appended when there are several, else the name alone.
pub open spec fn job_names_spec(base: Seq<char>, count: nat) -> Seq<Seq<char>> {
    if count > 1 {
        Seq::new(count, |i: int| base + seq!['_'] + decimal2((i + 1) as nat))
    } else {
        seq![base]
    }
}

/// Which check fails first when confirming, in field order.
pub enum SetupFailure {
    OutputDir,
    JobName,
    Queue,
    Cores,
    VaspBinary,
}

pub open spec fn failure_text(f: SetupFailure) -> Seq<char> {
    match f {
        SetupFailure::OutputDir => "Output directory cannot be empty"@,
        SetupFailure::JobName => "Job name cannot be empty"@,
        SetupFailure::Queue => "Queue cannot be empty"@,
        SetupFailure::Cores => "Cores must be a positive number"@,
        SetupFailure::VaspBinary => "VASP binary cannot be empty"@,
    }
}

impl SubmitSetupScreen {
    pub open spec fn field(self, i: usize) -> Seq<char> {
        trim(self.buffers@[i as int].content@)
    }

    pub open spec fn cores_value(self) -> Option<u32> {
        parse_u32_spec(self.field(self.idx_cores))
    }

    /// The first failing check, if any.
    pub open spec fn failure(self) -> Option<SetupFailure> {
        if self.idx_output_dir is Some && self.field(self.idx_output_dir->0).len() == 0 {
            Some(SetupFailure::OutputDir)
        } else if self.field(self.idx_calc_name).len() == 0 {
            Some(SetupFailure::JobName)
        } else if self.field(self.idx_queue).len() == 0 {
            Some(SetupFailure::Queue)
        } else if !(self.cores_value() is Some && self.cores_value()->0 > 0) {
            Some(SetupFailure::Cores)
        } else if self.idx_vasp_binary is Some && self.field(self.idx_vasp_binary->0).len() == 0 {
            Some(SetupFailure::VaspBinary)
        } else {
            None
        }
    }

    pub open spec fn failure_focus(self, f: SetupFailure) -> usize {
        match f {
            SetupFailure::OutputDir => self.idx_output_dir->0,
            SetupFailure::JobName => self.idx_calc_name,
            SetupFailure::Queue => self.idx_queue,
            SetupFailure::Cores => self.idx_cores,
            SetupFailure::VaspBinary => self.idx_vasp_binary->0,
        }
    }

    /// The output directory to record: the field, or the working directory
    /// for quick submission.
    pub open spec fn output_dir_value(self, so: AppState) -> Seq<char> {
        if self.idx_output_dir is Some {
            self.field(self.idx_output_dir->0)
        } else {
            so.work_dir@
        }
    }

    /// Field layout: the fields in order, indices pointing into them.
    pub open spec fn wf(self) -> bool {
        let n = self.buffers@.len();
        &&& buffers_wf(self.buffers@)
        &&& self.labels@.len() == n
        &&& self.focus <= n
        &&& self.editing ==> self.focus < n
        &&& self.idx_calc_name < n
        &&& self.idx_queue < n
        &&& self.idx_cores < n
        &&& self.idx_output_dir is Some ==> self.idx_output_dir->0 < n
        &&& self.idx_vasp_binary is Some ==> self.idx_vasp_binary->0 < n
    }
}

/// Confirming: on the first failing check its field is focused with a
/// message (a valid output directory is recorded before the later checks);
/// otherwise directory, queue, cores, executable (quick submission) and job
/// names are recorded and the screen advances.
pub open spec fn confirm_post(
    o: SubmitSetupScreen,
    n: SubmitSetupScreen,
    so: AppState,
    sn: AppState,
    r: ScreenAction,
) -> bool {
    match o.failure() {
        Some(f) => {
            &&& r == ScreenAction::Continue
            &&& n == (SubmitSetupScreen { focus: o.failure_focus(f), error: n.error, ..o })
            &&& n.error is Some && n.error->0@ == failure_text(f)
            &&& if f is OutputDir {
                sn == so
            } else {
                sn == (AppState { output_dir: sn.output_dir, ..so }) && sn.output_dir@
                    == o.output_dir_value(so)
            }
        },
        None => {
            let names = job_names_spec(
                sanitize_spec(o.field(o.idx_calc_name)),
                so.selected_files@.len(),
            );
            &&& r == ScreenAction::Advance
            &&& n == o
            &&& sn == (AppState {
                output_dir: sn.output_dir,
                queue: sn.queue,
                cores: o.cores_value()->0,
                vasp_binary_override: sn.vasp_binary_override,
                job_names: sn.job_names,
                ..so
            })
            &&& sn.output_dir@ == o.output_dir_value(so)
            &&& sn.queue@ == o.field(o.idx_queue)
            &&& if o.idx_vasp_binary is Some {
                sn.vasp_binary_override is Some && sn.vasp_binary_override->0@ == o.field(
                    o.idx_vasp_binary->0,
                )
            } else {
                sn.vasp_binary_override == so.vasp_binary_override
            }
            &&& sn.job_names@.len() == names.len()
            &&& forall|i: int| 0 <= i < names.len() ==> (#[trigger] sn.job_names@[i])@ == names[i]
        },
    }
}

/// While editing: Esc and Enter stop editing, Up and Down stop editing and
/// move, other keys edit the field. Otherwise Up/BackTab and Down/Tab move,
/// Enter edits a field or confirms, Esc goes back, `q` quits.
pub open spec fn setup_post(
    o: SubmitSetupScreen,
    n: SubmitSetupScreen,
    so: AppState,
    sn: AppState,
    key: Key,
    r: ScreenAction,
) -> bool {
    let len = o.buffers@.len();
    let up = if o.focus > 0 { (o.focus - 1) as usize } else { o.focus };
    let down = if o.focus < len { (o.focus + 1) as usize } else { o.focus };
    if o.editing {
        &&& r == ScreenAction::Continue
        &&& sn == so
        &&& match key {
            Key::Esc | Key::Enter => n == (SubmitSetupScreen { editing: false, ..o }),
            Key::Up => n == (SubmitSetupScreen { editing: false, focus: up, error: None, ..o }),
            Key::Down => n == (SubmitSetupScreen { editing: false, focus: down, error: None, ..o }),
            _ => {
                &&& n == (SubmitSetupScreen { buffers: n.buffers, error: None, ..o })
                &&& n.buffers@.len() == len
                &&& key_edit(o.buffers@[o.focus as int], n.buffers@[o.focus as int], key)
                &&& forall|j: int| 0 <= j < len && j != o.focus ==> #[trigger] n.buffers@[j] == o.buffers@[j]
            },
        }
    } else {
        match key {
            Key::Up | Key::BackTab => r == ScreenAction::Continue && sn == so && n == (
            SubmitSetupScreen { focus: up, error: None, ..o }),
            Key::Down | Key::Tab => r == ScreenAction::Continue && sn == so && n == (
            SubmitSetupScreen { focus: down, error: None, ..o }),
            Key::Enter => if o.focus < len {
                r == ScreenAction::Continue && sn == so && n == (SubmitSetupScreen {
                    editing: true,
                    ..o
                })
            } else {
                confirm_post(o, n, so, sn, r)
            },
            Key::Esc => r == ScreenAction::Back && n == o && sn == so,
            Key::Char('q') => r == ScreenAction::Quit && n == o && sn == so,
            _ => r == ScreenAction::Continue && n == o && sn == so,
        }
    }
}

fn append(s: &mut String, t: &str)
    ensures
        final(s)@ == old(s)@ + t@,
{
    s.append(t);
}

impl SubmitSetupScreen {
    /// Fields for the chosen path, filled with the current settings: the
    /// output directory `./` (new calculation), the job name (the preset
    /// name, or `calc`), the queue, the cores, and `vasp_std` as executable
    /// (quick submission).
    pub fn new(state: &AppState) -> (r: Self)
        ensures
            r.wf(),
            r.is_quick == (state.flow_path == Some(FlowPath::QuickSubmit)),
            r.focus == 0,
            !r.editing,
            r.error is None,
            r.work_dir_display == state.work_dir,
            r.is_quick ==> r.buffers@.len() == 4 && r.idx_output_dir is None && r.idx_calc_name == 0
                && r.idx_queue == 1 && r.idx_cores == 2 && r.idx_vasp_binary == Some(3usize)
                && r.labels@[0]@ == "Job name"@ && r.labels@[1]@ == "Queue"@ && r.labels@[2]@
                == "Cores"@ && r.labels@[3]@ == "VASP binary"@ && r.buffers@[3].content@
                == "vasp_std"@,
            !r.is_quick ==> r.buffers@.len() == 4 && r.idx_output_dir == Some(0usize)
                && r.idx_calc_name == 1 && r.idx_queue == 2 && r.idx_cores == 3
                && r.idx_vasp_binary is None && r.labels@[0]@ == "Output directory"@
                && r.labels@[1]@ == "Job name"@ && r.labels@[2]@ == "Queue"@ && r.labels@[3]@
                == "Cores"@ && r.buffers@[0].content@ == "./"@,
            r.buffers@[r.idx_calc_name as int].content@ == match state.calc_type {
                Some(ct) => ct.preset_name_spec(),
                None => "calc"@,
            },
            r.buffers@[r.idx_queue as int].content@ == state.queue@,
            r.buffers@[r.idx_cores as int].content@ == decimal(state.cores as nat),
    {
        let default_name: &str = match &state.calc_type {
            Some(ct) => ct.preset_name(),
            None => "calc",
        };
        let is_quick = matches!(state.flow_path, Some(FlowPath::QuickSubmit));
        let mut buffers: Vec<TextBuffer> = Vec::new();
        let mut labels: Vec<&'static str> = Vec::new();
        let idx_output_dir = if !is_quick {
            buffers.push(TextBuffer::with_content("./"));
            labels.push("Output directory");
            Some(0)
        } else {
            None
        };
        let idx_calc_name = buffers.len();
        buffers.push(TextBuffer::with_content(default_name));
        labels.push("Job name");
        let idx_queue = buffers.len();
        buffers.push(TextBuffer::with_content(state.queue.as_str()));
        labels.push("Queue");
        let idx_cores = buffers.len();
        let cores_text = u64_to_string(state.cores as u64);
        buffers.push(TextBuffer::with_content(cores_text.as_str()));
        labels.push("Cores");
        let idx_vasp_binary = if is_quick {
            let idx = buffers.len();
            buffers.push(TextBuffer::with_content("vasp_std"));
            labels.push("VASP binary");
            Some(idx)
        } else {
            None
        };
        SubmitSetupScreen {
            buffers,
            labels,
            is_quick,
            idx_output_dir,
            idx_calc_name,
            idx_queue,
            idx_cores,
            idx_vasp_binary,
            work_dir_display: state.work_dir.clone(),
            focus: 0,
            editing: false,
            error: None,
        }
    }

    /// Number of fields (the Confirm slot follows them).
    pub fn field_count(&self) -> (r: usize)
        ensures
            r == self.buffers@.len(),
    {
        self.buffers.len()
    }

    /// Handles a key (see [`setup_post`]).
    pub fn handle_input(&mut self, key: Key, state: &mut AppState) -> (r: ScreenAction)
        requires
            old(self).wf(),
        ensures
            final(self).wf(),
            setup_post(*old(self), *final(self), *old(state), *final(state), key, r),
    {
        let fc = self.field_count();
        if self.editing {
            match key {
                Key::Esc | Key::Enter => {
                    self.editing = false;
                },
                Key::Up => {
                    self.editing = false;
                    if self.focus > 0 {
                        self.focus = self.focus - 1;
                    }
                    self.error = None;
                },
                Key::Down => {
                    self.editing = false;
                    if self.focus < fc {
                        self.focus = self.focus + 1;
                    }
                    self.error = None;
                },
                _ => {
                    if self.focus < fc {
                        edit_buffer(&mut self.buffers, self.focus, key);
                    }
                    self.error = None;
                },
            }
            ScreenAction::Continue
        } else {
            match key {
                Key::Tab | Key::Down => {
                    if self.focus < fc {
                        self.focus = self.focus + 1;
                    }
                    self.error = None;
                    ScreenAction::Continue
                },
                Key::BackTab | Key::Up => {
                    if self.focus > 0 {
                        self.focus = self.focus - 1;
                    }
                    self.error = None;
                    ScreenAction::Continue
                },
                Key::Enter => {
                    if self.focus < fc {
                        self.editing = true;
                        ScreenAction::Continue
                    } else {
                        self.try_confirm(state)
                    }
                },
                Key::Esc => ScreenAction::Back,
                Key::Char('q') => ScreenAction::Quit,
                _ => ScreenAction::Continue,
            }
        }
    }

    fn fail(&mut self, f: SetupFailure) -> (r: ScreenAction)
        requires
            old(self).wf(),
            !(f is OutputDir) || old(self).idx_output_dir is Some,
            !(f is VaspBinary) || old(self).idx_vasp_binary is Some,
        ensures
            final(self).wf(),
            r == ScreenAction::Continue,
            *final(self) == (SubmitSetupScreen {
                focus: old(self).failure_focus(f),
                error: final(self).error,
                ..*old(self)
            }),
            final(self).error is Some && final(self).error->0@ == failure_text(f),
    {
        let (msg, idx): (&str, usize) = match f {
            SetupFailure::OutputDir => ("Output directory cannot be empty", self.idx_output_dir.unwrap()),
            SetupFailure::JobName => ("Job name cannot be empty", self.idx_calc_name),
            SetupFailure::Queue => ("Queue cannot be empty", self.idx_queue),
            SetupFailure::Cores => ("Cores must be a positive number", self.idx_cores),
            SetupFailure::VaspBinary => ("VASP binary cannot be empty", self.idx_vasp_binary.unwrap()),
        };
        self.error = Some(String::from_str(msg));
        self.focus = idx;
        ScreenAction::Continue
    }

    fn trimmed(&self, i: usize) -> (r: String)
        requires
            i < self.buffers@.len(),
        ensures
            r@ == self.field(i),
    {
        trim_str(self.buffers[i].content.as_str())
    }

    fn try_confirm(&mut self, state: &mut AppState) -> (r: ScreenAction)
        requires
            old(self).wf(),
            !old(self).editing,
        ensures
            final(self).wf(),
            confirm_post(*old(self), *final(self), *old(state), *final(state), r),
    {
        match self.idx_output_dir {
            Some(idx) => {
                let od = self.trimmed(idx);
                if od.unicode_len() == 0 {
                    return self.fail(SetupFailure::OutputDir);
                }
                state.output_dir = od;
            },
            None => {
                state.output_dir = state.work_dir.clone();
            },
        }
        let calc_name = self.trimmed(self.idx_calc_name);
        if calc_name.unicode_len() == 0 {
            return self.fail(SetupFailure::JobName);
        }
        let queue = self.trimmed(self.idx_queue);
        if queue.unicode_len() == 0 {
            return self.fail(SetupFailure::Queue);
        }
        let cores_text = self.trimmed(self.idx_cores);
        let cores = match parse_u32(cores_text.as_str()) {
            Some(c) => if c > 0 {
                c
            } else {
                return self.fail(SetupFailure::Cores);
            },
            None => return self.fail(SetupFailure::Cores),
        };
        match self.idx_vasp_binary {
            Some(idx) => {
                let vb = self.trimmed(idx);
                if vb.unicode_len() == 0 {
                    return self.fail(SetupFailure::VaspBinary);
                }
                state.vasp_binary_override = Some(vb);
            },
            None => {},
        }
        state.queue = queue;
        state.cores = cores;
        let sanitized = sanitize_job_name(calc_name.as_str());
        let count = state.selected_files.len();
        let ghost names = job_names_spec(sanitized@, count as nat);
        let mut job_names: Vec<String> = Vec::new();
        if count > 1 {
            for i in 0..count
                invariant
                    count > 1,
                    names == job_names_spec(sanitized@, count as nat),
                    job_names@.len() == i,
                    forall|j: int| 0 <= j < i ==> (#[trigger] job_names@[j])@ == names[j],
            {
                let mut name = sanitized.clone();
                push_char(&mut name, '_');
                push_decimal2(&mut name, (i + 1) as u64);
                assert(name@ =~= names[i as int]);
                job_names.push(name);
            }
        } else {
            job_names.push(sanitized);
        }
        state.job_names = job_names;
        ScreenAction::Advance
    }
}

} // verus!
