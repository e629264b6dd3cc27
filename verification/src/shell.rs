//! Job submission text: the SGE script for a job, the checks that keep its
//! parameters on one line, job-name sanitizing, and reading `qsub` output.

use vstd::prelude::*;
use crate::number::{decimal, char_is_digit, is_digit, push_decimal, all_digits};
use crate::text::{chars_of, contains_char, is_ws, is_whitespace, push_char, string_from_chars, trim, trim_end, trim_start, trim_str};

verus! {

/// Outcome of a `qsub` call.
#[derive(Debug)]
pub struct QsubResult {
    pub success: bool,
    pub job_id: Option<String>,
    pub message: String,
}

pub open spec fn has_line_break(s: Seq<char>) -> bool {
    s.contains('\n') || s.contains('\r')
}

/// `"{name} contains newline characters"`
pub open spec fn newline_message(name: Seq<char>) -> Seq<char> {
    name + " contains newline characters"@
}

fn append(s: &mut String, t: &str)
    ensures
        final(s)@ == old(s)@ + t@,
{
    s.append(t);
}

/// Rejects a script parameter that holds a line break, which would let it
/// add commands to the script.
pub fn validate_script_param(value: &str, name: &str) -> (r: Result<(), String>)
    ensures
        r is Ok <==> !has_line_break(value@),
        r is Err ==> r->Err_0@ == newline_message(name@),
{
    if contains_char(value, '\n') || contains_char(value, '\r') {
        let mut m = String::from_str(name);
        append(&mut m, " contains newline characters");
        return Err(m);
    }
    Ok(())
}

/// The SGE submission script for one job.
pub open spec fn sge_script(
    job_name: Seq<char>,
    queue: Seq<char>,
    cores: u32,
    parallel_env: Seq<char>,
    vasp_module: Seq<char>,
    work_dir: Seq<char>,
    vasp_cmd: Seq<char>,
) -> Seq<char> {
    "#!/bin/bash\n#$ -N "@ + job_name + "\n#$ -q "@ + queue + "\n#$ -pe "@ + parallel_env + " "@
        + decimal(cores as nat) + "\n#$ -cwd\nmodule load "@ + vasp_module + "\ncd "@ + work_dir
        + "\nmpirun -np $NSLOTS "@ + vasp_cmd + "\n"@
}

/// No script parameter holds a line break.
pub open spec fn script_params_ok(
    job_name: Seq<char>,
    queue: Seq<char>,
    parallel_env: Seq<char>,
    vasp_module: Seq<char>,
    work_dir: Seq<char>,
    vasp_cmd: Seq<char>,
) -> bool {
    &&& !has_line_break(job_name)
    &&& !has_line_break(queue)
    &&& !has_line_break(parallel_env)
    &&& !has_line_break(vasp_module)
    &&& !has_line_break(work_dir)
    &&& !has_line_break(vasp_cmd)
}

/// The message naming the first parameter, in the order job name, queue,
/// parallel environment, module, directory, command, that holds a line
/// break.
pub open spec fn first_break_message(
    job_name: Seq<char>,
    queue: Seq<char>,
    parallel_env: Seq<char>,
    vasp_module: Seq<char>,
    work_dir: Seq<char>,
    vasp_cmd: Seq<char>,
) -> Seq<char> {
    if has_line_break(job_name) {
        newline_message("job_name"@)
    } else if has_line_break(queue) {
        newline_message("queue"@)
    } else if has_line_break(parallel_env) {
        newline_message("parallel_env"@)
    } else if has_line_break(vasp_module) {
        newline_message("vasp_module"@)
    } else if has_line_break(work_dir) {
        newline_message("work_dir"@)
    } else {
        newline_message("vasp_cmd"@)
    }
}

/// Renders the submission script, or names the first parameter (in the
/// order job name, queue, parallel environment, module, directory, command)
/// that holds a line break.
pub fn render_sge_script(
    job_name: &str,
    queue: &str,
    cores: u32,
    parallel_env: &str,
    vasp_module: &str,
    work_dir: &str,
    vasp_cmd: &str,
) -> (r: Result<String, String>)
    ensures
        r is Ok <==> script_params_ok(job_name@, queue@, parallel_env@, vasp_module@, work_dir@, vasp_cmd@),
        r is Ok ==> r->Ok_0@ == sge_script(
            job_name@,
            queue@,
            cores,
            parallel_env@,
            vasp_module@,
            work_dir@,
            vasp_cmd@,
        ),
        r is Err ==> r->Err_0@ == first_break_message(
            job_name@,
            queue@,
            parallel_env@,
            vasp_module@,
            work_dir@,
            vasp_cmd@,
        ),
{
    validate_script_param(job_name, "job_name")?;
    validate_script_param(queue, "queue")?;
    validate_script_param(parallel_env, "parallel_env")?;
    validate_script_param(vasp_module, "vasp_module")?;
    validate_script_param(work_dir, "work_dir")?;
    validate_script_param(vasp_cmd, "vasp_cmd")?;
    let mut s = String::from_str("#!/bin/bash\n#$ -N ");
    append(&mut s, job_name);
    append(&mut s, "\n#$ -q ");
    append(&mut s, queue);
    append(&mut s, "\n#$ -pe ");
    append(&mut s, parallel_env);
    append(&mut s, " ");
    push_decimal(&mut s, cores as u64);
    append(&mut s, "\n#$ -cwd\nmodule load ");
    append(&mut s, vasp_module);
    append(&mut s, "\ncd ");
    append(&mut s, work_dir);
    append(&mut s, "\nmpirun -np $NSLOTS ");
    append(&mut s, vasp_cmd);
    append(&mut s, "\n");
    assert(s@ =~= sge_script(
        job_name@,
        queue@,
        cores,
        parallel_env@,
        vasp_module@,
        work_dir@,
        vasp_cmd@,
    ));
    Ok(s)
}

/// The whitespace-separated words of a text (`str::split_whitespace`).
pub open spec fn words(s: Seq<char>) -> Seq<Seq<char>>
    decreases s.len(),
{
    if s.len() == 0 {
        seq![]
    } else {
        let w = words(s.drop_last());
        let c = s.last();
        if is_ws(c) {
            w
        } else if s.len() >= 2 && !is_ws(s[s.len() - 2]) {
            w.update(w.len() - 1, w.last().push(c))
        } else {
            w.push(seq![c])
        }
    }
}

pub proof fn lemma_words_nonempty(s: Seq<char>)
    ensures
        s.len() > 0 && !is_ws(s.last()) ==> words(s).len() > 0,
    decreases s.len(),
{
    if s.len() > 0 {
        lemma_words_nonempty(s.drop_last());
        if s.len() >= 2 && !is_ws(s[s.len() - 2]) {
            assert(s.drop_last().last() == s[s.len() - 2]);
        }
    }
}

/// The job ID in `qsub` output such as `Your job 123456 ("name") has been
/// submitted`: the third word, when it is made of ASCII digits only.
pub open spec fn job_id_spec(out: Seq<char>) -> Option<Seq<char>> {
    let w = words(out);
    if w.len() > 2 && w[2].len() > 0 && all_digits(w[2]) {
        Some(w[2])
    } else {
        None
    }
}

/// The whitespace-separated words of a text.
pub fn split_words(s: &str) -> (r: Vec<Vec<char>>)
    ensures
        r@.len() == words(s@).len(),
        forall|i: int| 0 <= i < r@.len() ==> (#[trigger] r@[i])@ == words(s@)[i],
{
    let v = chars_of(s);
    let n = v.len();
    let mut out: Vec<Vec<char>> = Vec::new();
    for i in 0..n
        invariant
            n == v@.len(),
            v@ == s@,
            out@.len() == words(v@.take(i as int)).len(),
            forall|j: int| 0 <= j < out@.len() ==> (#[trigger] out@[j])@ == words(v@.take(i as int))[j],
    {
        let ghost t = v@.take(i + 1);
        proof {
            assert(t.drop_last() =~= v@.take(i as int));
            assert(t.last() == v@[i as int]);
            if i >= 1 {
                assert(t[t.len() - 2] == v@[i - 1]);
                lemma_words_nonempty(v@.take(i as int));
                assert(v@.take(i as int).last() == v@[i - 1]);
            }
        }
        let c = v[i];
        if is_whitespace(c) {
        } else if i >= 1 && !is_whitespace(v[i - 1]) {
            let last = out.len() - 1;
            let mut w = out.remove(last);
            w.push(c);
            out.push(w);
            proof {
                let wt = words(t);
                assert forall|j: int| 0 <= j < out@.len() implies (#[trigger] out@[j])@ == wt[j] by {
                    if j < last {
                    } else {
                    }
                }
            }
        } else {
            let mut w: Vec<char> = Vec::new();
            w.push(c);
            out.push(w);
            proof {
                assert(w@ =~= seq![c]);
            }
        }
    }
    assert(v@.take(n as int) =~= v@);
    out
}

fn all_digit_chars(w: &Vec<char>) -> (r: bool)
    ensures
        r == all_digits(w@),
{
    let n = w.len();
    for i in 0..n
        invariant
            n == w@.len(),
            forall|j: int| 0 <= j < i ==> is_digit(#[trigger] w@[j]),
    {
        if !char_is_digit(w[i]) {
            return false;
        }
    }
    true
}

/// The job ID in `qsub` output (see [`job_id_spec`]).
pub fn parse_job_id(stdout: &str) -> (r: Option<String>)
    ensures
        r is Some == job_id_spec(stdout@) is Some,
        r is Some ==> r->0@ == job_id_spec(stdout@)->0,
{
    let w = split_words(stdout);
    if w.len() > 2 && w[2].len() > 0 && all_digit_chars(&w[2]) {
        Some(string_from_chars(w[2].as_slice()))
    } else {
        None
    }
}

/// What `char::is_alphanumeric` returns for a character.
pub uninterp spec fn is_alphanumeric_char(c: char) -> bool;

pub open spec fn is_ascii_alnum(c: char) -> bool {
    let u = c as u32;
    (48 <= u <= 57) || (65 <= u <= 90) || (97 <= u <= 122)
}

/// Whether a character is alphanumeric.
///
/// Trusted: wraps `char::is_alphanumeric` (Unicode `Alphabetic` or a numeric
/// general category). The result is named `is_alphanumeric_char`; for ASCII
/// characters the contract also states that exactly the digits and the
/// letters are alphanumeric, which is what those Unicode properties give on
/// the ASCII range, and that no whitespace character (`char::is_whitespace`)
/// is alphanumeric: the Unicode whitespace characters are separators and
/// controls, none of them alphabetic or numeric. Nothing else is stated
/// beyond ASCII.
#[verifier::external_body]
fn char_is_alphanumeric(c: char) -> (r: bool)
    ensures
        r == is_alphanumeric_char(c),
        (c as u32) < 128 ==> (r <==> is_ascii_alnum(c)),
        is_ws(c) ==> !r,
{
    c.is_alphanumeric()
}

/// Characters kept in a job name.
pub open spec fn job_name_char(c: char) -> bool {
    is_alphanumeric_char(c) || c == '-' || c == '_'
}

/// The fallback job name.
pub open spec fn default_job_name() -> Seq<char> {
    "vaspsetup_job"@
}

/// The name with every character other than alphanumerics, `-` and `_`
/// removed; the fallback name when nothing is left.
pub open spec fn sanitize_spec(name: Seq<char>) -> Seq<char> {
    let kept = name.filter(|c: char| job_name_char(c));
    if kept.len() == 0 {
        default_job_name()
    } else {
        kept
    }
}

proof fn lemma_filter_kept(s: Seq<char>)
    requires
        forall|i: int| 0 <= i < s.len() ==> job_name_char(#[trigger] s[i]),
    ensures
        s.filter(|c: char| job_name_char(c)) == s,
    decreases s.len(),
{
    reveal_with_fuel(Seq::<_>::filter, 1);
    if s.len() > 0 {
        lemma_filter_kept(s.drop_last());
        assert(s.drop_last().push(s.last()) =~= s);
    }
}

/// A sanitized job name is never empty; when some character of the name is
/// kept, the result holds only alphanumerics, `-` and `_`, and sanitizing it
/// again changes nothing.
pub proof fn lemma_sanitize_idempotent(name: Seq<char>)
    ensures
        sanitize_spec(name).len() > 0,
        name.filter(|c: char| job_name_char(c)).len() > 0 ==> {
            &&& forall|i: int| 0 <= i < sanitize_spec(name).len() ==> job_name_char(
                #[trigger] sanitize_spec(name)[i],
            )
            &&& sanitize_spec(sanitize_spec(name)) == sanitize_spec(name)
        },
{
    let kept = name.filter(|c: char| job_name_char(c));
    assert(default_job_name().len() > 0) by {
        reveal_strlit("vaspsetup_job");
    }
    if kept.len() > 0 {
        assert forall|i: int| 0 <= i < kept.len() implies job_name_char(#[trigger] kept[i]) by {
            name.lemma_filter_pred(|c: char| job_name_char(c), i);
        }
        lemma_filter_kept(kept);
    }
}

proof fn lemma_filter_trim_start(s: Seq<char>)
    requires
        forall|i: int| 0 <= i < s.len() && is_ws(#[trigger] s[i]) ==> !job_name_char(s[i]),
    ensures
        trim_start(s).filter(|c: char| job_name_char(c)) == s.filter(|c: char| job_name_char(c)),
        forall|i: int|
            0 <= i < trim_start(s).len() && is_ws(#[trigger] trim_start(s)[i]) ==> !job_name_char(
                trim_start(s)[i],
            ),
    decreases s.len(),
{
    if s.len() > 0 && is_ws(s[0]) {
        let t = s.drop_first();
        assert forall|i: int| 0 <= i < t.len() && is_ws(#[trigger] t[i]) implies !job_name_char(t[i]) by {
            assert(t[i] == s[i + 1]);
        }
        lemma_filter_trim_start(t);
        let h = seq![s[0]];
        assert(s =~= h + t);
        Seq::filter_distributes_over_add(h, t, |c: char| job_name_char(c));
        reveal_with_fuel(Seq::<_>::filter, 2);
        assert(h.drop_last() =~= Seq::<char>::empty());
        assert(h.filter(|c: char| job_name_char(c)) =~= Seq::<char>::empty());
        assert(Seq::<char>::empty() + t.filter(|c: char| job_name_char(c)) =~= t.filter(|c: char| job_name_char(c)));
    }
}

proof fn lemma_filter_trim_end(s: Seq<char>)
    requires
        forall|i: int| 0 <= i < s.len() && is_ws(#[trigger] s[i]) ==> !job_name_char(s[i]),
    ensures
        trim_end(s).filter(|c: char| job_name_char(c)) == s.filter(|c: char| job_name_char(c)),
    decreases s.len(),
{
    if s.len() > 0 && is_ws(s.last()) {
        let t = s.drop_last();
        assert forall|i: int| 0 <= i < t.len() && is_ws(#[trigger] t[i]) implies !job_name_char(t[i]) by {
            assert(t[i] == s[i]);
        }
        lemma_filter_trim_end(t);
        reveal_with_fuel(Seq::<_>::filter, 1);
    }
}

/// Whitespace is never kept, so trimming a name first changes nothing.
proof fn lemma_sanitize_trim(s: Seq<char>)
    requires
        forall|i: int| 0 <= i < s.len() && is_ws(#[trigger] s[i]) ==> !job_name_char(s[i]),
    ensures
        sanitize_spec(trim(s)) == sanitize_spec(s),
{
    lemma_filter_trim_start(s);
    lemma_filter_trim_end(trim_start(s));
}

/// The characters of `s` that a job name keeps; on the way, what
/// `char::is_alphanumeric` gives for each ASCII character of `s`.
fn keep_job_name_chars(s: &str) -> (r: String)
    ensures
        r@ == s@.filter(|c: char| job_name_char(c)),
        forall|i: int|
            0 <= i < s@.len() && (s@[i] as u32) < 128 ==> (is_alphanumeric_char(#[trigger] s@[i])
                <==> is_ascii_alnum(s@[i])),
        forall|i: int| 0 <= i < s@.len() && is_ws(#[trigger] s@[i]) ==> !job_name_char(s@[i]),
{
    let v = chars_of(s);
    let n = v.len();
    let mut out = String::new();
    for i in 0..n
        invariant
            n == v@.len(),
            v@ == s@,
            out@ == v@.take(i as int).filter(|c: char| job_name_char(c)),
            forall|j: int|
                0 <= j < i && (v@[j] as u32) < 128 ==> (is_alphanumeric_char(#[trigger] v@[j])
                    <==> is_ascii_alnum(v@[j])),
            forall|j: int| 0 <= j < i && is_ws(#[trigger] v@[j]) ==> !job_name_char(v@[j]),
    {
        proof {
            reveal_with_fuel(Seq::<_>::filter, 1);
            assert(v@.take(i + 1).drop_last() =~= v@.take(i as int));
        }
        let c = v[i];
        let alnum = char_is_alphanumeric(c);
        if alnum || c == '-' || c == '_' {
            push_char(&mut out, c);
        }
    }
    assert(v@.take(n as int) =~= v@);
    out
}

/// A job name safe for the scheduler (see [`sanitize_spec`]). ASCII
/// letters and digits are kept and other ASCII characters but `-` and `_`
/// dropped; whitespace is never kept, so trimming the name first gives the
/// same; and sanitizing the result again changes nothing.
pub fn sanitize_job_name(name: &str) -> (r: String)
    ensures
        r@ == sanitize_spec(name@),
        forall|i: int|
            0 <= i < name@.len() && (name@[i] as u32) < 128 ==> (is_alphanumeric_char(
                #[trigger] name@[i],
            ) <==> is_ascii_alnum(name@[i])),
        sanitize_spec(r@) == r@,
        r@ == sanitize_spec(trim(name@)),
{
    let out = keep_job_name_chars(name);
    proof {
        lemma_sanitize_trim(name@);
    }
    if out.unicode_len() == 0 {
        let d = keep_job_name_chars("vaspsetup_job");
        proof {
            reveal_strlit("vaspsetup_job");
            let dj = default_job_name();
            assert forall|i: int| 0 <= i < dj.len() implies job_name_char(#[trigger] dj[i]) by {
                assert(dj[i] == '_' || is_ascii_alnum(dj[i]));
            }
            lemma_filter_kept(dj);
            assert(d@ == dj);
            assert(dj.filter(|c: char| job_name_char(c)).len() > 0);
        }
        d
    } else {
        proof {
            let kept = name@.filter(|c: char| job_name_char(c));
            assert forall|i: int| 0 <= i < kept.len() implies job_name_char(#[trigger] kept[i]) by {
                name@.lemma_filter_pred(|c: char| job_name_char(c), i);
            }
            lemma_filter_kept(kept);
        }
        out
    }
}

/// `"Submission failed: {stderr trimmed}"`
pub open spec fn failure_message(stderr: Seq<char>) -> Seq<char> {
    "Submission failed: "@ + trim(stderr)
}

/// Reads a finished `qsub` run: on success the job ID from its output and
/// the trimmed output as message; on failure the trimmed error output.
pub fn qsub_outcome(exit_ok: bool, stdout: &str, stderr: &str) -> (r: QsubResult)
    ensures
        r.success == exit_ok,
        exit_ok ==> (r.job_id is Some == job_id_spec(stdout@) is Some) && (r.job_id is Some
            ==> r.job_id->0@ == job_id_spec(stdout@)->0) && r.message@ == trim(stdout@),
        !exit_ok ==> r.job_id is None && r.message@ == failure_message(stderr@),
{
    if exit_ok {
        QsubResult { success: true, job_id: parse_job_id(stdout), message: trim_str(stdout) }
    } else {
        let mut m = String::from_str("Submission failed: ");
        let t = trim_str(stderr);
        append(&mut m, t.as_str());
        QsubResult { success: false, job_id: None, message: m }
    }
}

/// The outcome when `qsub` could not be started.
pub fn qsub_unavailable(reason: &str) -> (r: QsubResult)
    ensures
        !r.success,
        r.job_id is None,
        r.message@ == "qsub not available: "@ + reason@,
{
    let mut m = String::from_str("qsub not available: ");
    append(&mut m, reason);
    QsubResult { success: false, job_id: None, message: m }
}

} // verus!
