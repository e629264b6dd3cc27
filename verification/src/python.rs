//! The calculation backend: a Python module run as a separate process that
//! answers one JSON request on standard input with one JSON reply,
//! `{"status": "ok", "data": ...}` or `{"status": "error", "message": ...}`.
//!
//! Starting the process and writing the request happen outside the library;
//! here are the interpreter choice, the version check and what a reply's
//! fields mean (the reply text itself is read in [`crate::reply`]).

use vstd::prelude::*;
use crate::number::{parse_u32, parse_u32_spec};
use crate::text::{chars_of, contains_seq, contains_str, string_from_range, trim, trim_str};

verus! {

/// Errors from the backend.
#[derive(Debug)]
pub enum PythonError {
    /// No Python interpreter could be started.
    NotInstalled,
    /// The interpreter runs but the backend module is missing.
    ModuleNotFound,
    /// The process failed or printed nothing.
    ProcessFailed(String),
    /// The reply is not what the protocol describes.
    InvalidResponse(String),
    /// The backend reported an error.
    BackendError(String),
}

impl PythonError {
    /// The message shown for an error.
    pub open spec fn message_spec(self) -> Seq<char> {
        match self {
            PythonError::NotInstalled => "Python not found. Install Python 3.9+."@,
            PythonError::ModuleNotFound => "vaspsetup_core not installed. Run: pip install vaspsetup-ase"@,
            PythonError::ProcessFailed(m) => "Python backend failed: "@ + m@,
            PythonError::InvalidResponse(m) => "Unexpected response from backend: "@ + m@,
            PythonError::BackendError(m) => m@,
        }
    }

    /// The message shown for the error.
    pub fn message(&self) -> (r: String)
        ensures
            r@ == self.message_spec(),
    {
        match self {
            PythonError::NotInstalled => String::from_str("Python not found. Install Python 3.9+."),
            PythonError::ModuleNotFound => String::from_str(
                "vaspsetup_core not installed. Run: pip install vaspsetup-ase",
            ),
            PythonError::ProcessFailed(m) => {
                let mut r = String::from_str("Python backend failed: ");
                r.append(m.as_str());
                r
            },
            PythonError::InvalidResponse(m) => {
                let mut r = String::from_str("Unexpected response from backend: ");
                r.append(m.as_str());
                r
            },
            PythonError::BackendError(m) => m.clone(),
        }
    }
}

pub open spec fn python_prefix() -> Seq<char> {
    seq!['P', 'y', 't', 'h', 'o', 'n', ' ']
}

/// Position of the first `.` in `s`, or its length when there is none.
pub open spec fn dot_index(s: Seq<char>) -> nat
    decreases s.len(),
{
    if s.len() == 0 {
        0
    } else if s[0] == '.' {
        0
    } else {
        1 + dot_index(s.drop_first())
    }
}

proof fn lemma_dot_index(s: Seq<char>, i: int)
    requires
        0 <= i <= s.len(),
        forall|k: int| 0 <= k < i ==> s[k] != '.',
    ensures
        dot_index(s) == i + dot_index(s.skip(i)),
    decreases i,
{
    if i > 0 {
        assert(s.drop_first().skip(i - 1) =~= s.skip(i));
        lemma_dot_index(s.drop_first(), i - 1);
    } else {
        assert(s.skip(0) =~= s);
    }
}

/// Major and minor version in the text `Python X.Y[.Z...]`, surrounding
/// whitespace allowed: `X` is what comes before the first dot, `Y` what
/// comes between it and the next dot (or the end), each read as a `u32`.
pub open spec fn version_spec(text: Seq<char>) -> Option<(u32, u32)> {
    let t = trim(text);
    if t.len() >= 7 && t.take(7) == python_prefix() {
        let rest = t.skip(7);
        let i = dot_index(rest) as int;
        if i < rest.len() {
            let tail = rest.skip(i + 1);
            let major = parse_u32_spec(rest.take(i));
            let minor = parse_u32_spec(tail.take(dot_index(tail) as int));
            if major is Some && minor is Some {
                Some((major->0, minor->0))
            } else {
                None
            }
        } else {
            None
        }
    } else {
        None
    }
}

/// Position of the first `.` in `v[from..]`, as an index into `v`.
fn find_dot(v: &Vec<char>, from: usize) -> (r: usize)
    requires
        from <= v@.len(),
    ensures
        r == from + dot_index(v@.skip(from as int)),
        r <= v@.len(),
{
    let n = v.len();
    let mut i = from;
    while i < n && v[i] != '.'
        invariant
            n == v@.len(),
            from <= i <= n,
            forall|k: int| from <= k < i ==> v@[k] != '.',
        decreases n - i,
    {
        i = i + 1;
    }
    proof {
        let s = v@.skip(from as int);
        lemma_dot_index(s, i - from);
        assert(s.skip(i - from) =~= v@.skip(i as int));
    }
    i
}

/// Major and minor version of a `python --version` text (see
/// [`version_spec`]).
pub fn parse_python_version(text: &str) -> (r: Option<(u32, u32)>)
    ensures
        r == version_spec(text@),
{
    let trimmed = trim_str(text);
    let v = chars_of(trimmed.as_str());
    let p: [char; 7] = ['P', 'y', 't', 'h', 'o', 'n', ' '];
    assert(p@ =~= python_prefix());
    if v.len() < 7 {
        return None;
    }
    let mut k: usize = 0;
    while k < 7
        invariant
            v@.len() >= 7,
            v@ == trim(text@),
            p@ == python_prefix(),
            k <= 7,
            forall|j: int| 0 <= j < k ==> v@[j] == p@[j],
        decreases 7 - k,
    {
        if v[k] != p[k] {
            assert(v@.take(7)[k as int] != python_prefix()[k as int]);
            assert(v@.take(7) != python_prefix());
            return None;
        }
        k = k + 1;
    }
    assert(v@.take(7) =~= python_prefix());
    let n = v.len();
    let i = find_dot(&v, 7);
    if i >= n {
        return None;
    }
    let j = find_dot(&v, i + 1);
    let major_text = string_from_range(v.as_slice(), 7, i);
    let minor_text = string_from_range(v.as_slice(), i + 1, j);
    proof {
        let rest = v@.skip(7);
        let tail = rest.skip(i - 7 + 1);
        assert(rest.take(i - 7) =~= v@.subrange(7, i as int));
        assert(tail =~= v@.skip(i + 1));
        assert(tail.take(j - (i + 1)) =~= v@.subrange(i + 1, j as int));
    }
    let major = parse_u32(major_text.as_str());
    let minor = parse_u32(minor_text.as_str());
    match (major, minor) {
        (Some(a), Some(b)) => Some((a, b)),
        _ => None,
    }
}

/// The version text of an interpreter is on standard output, or on standard
/// error when the output is blank; it must read as Python 3.9 or later.
pub open spec fn accepts_spec(stdout: Seq<char>, stderr: Seq<char>) -> bool {
    let text = if trim(stdout).len() == 0 {
        stderr
    } else {
        stdout
    };
    match version_spec(text) {
        Some((major, minor)) => major > 3 || (major == 3 && minor >= 9),
        None => false,
    }
}

/// Whether the output of `<interpreter> --version` shows Python 3.9 or later.
pub fn is_python_39_or_later(stdout: &str, stderr: &str) -> (r: bool)
    ensures
        r == accepts_spec(stdout@, stderr@),
{
    let t = trim_str(stdout);
    let text = if t.as_str().unicode_len() == 0 {
        stderr
    } else {
        stdout
    };
    match parse_python_version(text) {
        Some((major, minor)) => major > 3 || (major == 3 && minor >= 9),
        None => false,
    }
}

/// The interpreter to run: `python` when it answered `--version` (with the
/// given standard output and error) as Python 3.9 or later, else `python3`.
/// `python3` is also the fallback when it fails the check itself, so its own
/// answer does not change the choice.
pub fn find_python(python_reply: &Option<(String, String)>) -> (r: &'static str)
    ensures
        r@ == match python_reply {
            Some(p) => if accepts_spec(p.0@, p.1@) {
                "python"@
            } else {
                "python3"@
            },
            None => "python3"@,
        },
{
    match python_reply {
        Some(p) => {
            if is_python_39_or_later(p.0.as_str(), p.1.as_str()) {
                "python"
            } else {
                "python3"
            }
        },
        None => "python3",
    }
}

/// The error for a run that printed nothing: the module is missing when the
/// error output says `No module named`, else the run failed.
pub fn silent_failure(stderr: &str) -> (r: PythonError)
    ensures
        contains_seq(stderr@, "No module named"@) ==> r is ModuleNotFound,
        !contains_seq(stderr@, "No module named"@) ==> (r matches PythonError::ProcessFailed(m)
            && m@ == "No output. stderr: "@ + trim(stderr@)),
{
    if contains_str(stderr, "No module named") {
        PythonError::ModuleNotFound
    } else {
        let mut m = String::from_str("No output. stderr: ");
        let t = trim_str(stderr);
        m.append(t.as_str());
        PythonError::ProcessFailed(m)
    }
}

/// The error for output that is not JSON: the parser's reason and the
/// trimmed output.
pub fn invalid_json(reason: &str, stdout: &str) -> (r: PythonError)
    ensures
        r matches PythonError::InvalidResponse(m) && m@ == "Invalid JSON: "@ + reason@ + ". Raw: "@
            + trim(stdout@),
{
    let mut m = String::from_str("Invalid JSON: ");
    m.append(reason);
    m.append(". Raw: ");
    let t = trim_str(stdout);
    m.append(t.as_str());
    PythonError::InvalidResponse(m)
}

/// What a JSON reply means, from its `status` field (when it is a string),
/// whether it has a `data` field, and its `message` field (when it is a
/// string): `ok` with data succeeds; `ok` without data, `error`, and any
/// other status are errors.
pub fn reply_outcome(status: &Option<String>, has_data: bool, message: &Option<String>, stdout: &str) -> (r: Result<(), PythonError>)
    ensures
        match status {
            Some(s) if s@ == "ok"@ => if has_data {
                r is Ok
            } else {
                (r matches Err(PythonError::InvalidResponse(m)) && m@ == "Missing 'data' field"@)
            },
            Some(s) if s@ == "error"@ => (r matches Err(PythonError::BackendError(m)) && m@
                == match message {
                Some(t) => t@,
                None => "Unknown backend error"@,
            }),
            _ => (r matches Err(PythonError::InvalidResponse(m)) && m@ == "Invalid 'status' field: "@
                + trim(stdout@)),
        },
{
    let (is_ok, is_error) = match status {
        Some(s) => (crate::text::str_eq(s.as_str(), "ok"), crate::text::str_eq(s.as_str(), "error")),
        None => (false, false),
    };
    if is_ok {
        if has_data {
            Ok(())
        } else {
            Err(PythonError::InvalidResponse(String::from_str("Missing 'data' field")))
        }
    } else if is_error {
        let m = match message {
            Some(t) => t.clone(),
            None => String::from_str("Unknown backend error"),
        };
        Err(PythonError::BackendError(m))
    } else {
        let mut m = String::from_str("Invalid 'status' field: ");
        let t = trim_str(stdout);
        m.append(t.as_str());
        Err(PythonError::InvalidResponse(m))
    }
}

} // verus!
