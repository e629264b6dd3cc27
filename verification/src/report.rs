//! The one-line report printed after the session: what was submitted on
//! standard output, how many jobs failed on standard error.

use vstd::prelude::*;
use crate::number::{decimal, push_decimal};
use crate::screens::result::JobResult;

verus! {

/// Number of successful results.
pub open spec fn success_count(s: Seq<JobResult>) -> nat
    decreases s.len(),
{
    if s.len() == 0 {
        0
    } else {
        success_count(s.drop_last()) + if s.last().success {
            1nat
        } else {
            0nat
        }
    }
}

/// Position of the first successful result (meaningful when there is one).
pub open spec fn first_success(s: Seq<JobResult>) -> int
    decreases s.len(),
{
    if s.len() == 0 {
        0
    } else if s[0].success {
        0
    } else {
        1 + first_success(s.drop_first())
    }
}

/// Job IDs of the successful results that have one, separated by `, `
/// (a separator goes in only once the text so far is not empty).
pub open spec fn ids_text(s: Seq<JobResult>) -> Seq<char>
    decreases s.len(),
{
    if s.len() == 0 {
        seq![]
    } else {
        let a = ids_text(s.drop_last());
        let r = s.last();
        if r.success && r.job_id is Some {
            (if a.len() > 0 {
                a + ", "@
            } else {
                a
            }) + r.job_id->0@
        } else {
            a
        }
    }
}

/// Standard output of the report: nothing when no job succeeded; for one,
/// its name and job ID when it has one; for several, their number and the
/// IDs when there are any.
pub open spec fn summary_out(s: Seq<JobResult>) -> Seq<char> {
    let n = success_count(s);
    if n == 0 {
        seq![]
    } else if n == 1 {
        let r = s[first_success(s)];
        match r.job_id {
            Some(id) => "vaspsetup: submitted "@ + r.job_name@ + " (Job ID: "@ + id@ + ")\n"@,
            None => "vaspsetup: submitted "@ + r.job_name@ + "\n"@,
        }
    } else if ids_text(s).len() == 0 {
        "vaspsetup: submitted "@ + decimal(n) + " job(s)\n"@
    } else {
        "vaspsetup: submitted "@ + decimal(n) + " job(s) — IDs: "@ + ids_text(s) + "\n"@
    }
}

/// Standard error of the report: the number of failed jobs, when any.
pub open spec fn summary_err(s: Seq<JobResult>) -> Seq<char> {
    let failed = s.len() - success_count(s);
    if failed > 0 {
        "vaspsetup: "@ + decimal(failed as nat) + " job(s) failed\n"@
    } else {
        seq![]
    }
}

proof fn lemma_success_count_bound(s: Seq<JobResult>)
    ensures
        success_count(s) <= s.len(),
    decreases s.len(),
{
    if s.len() > 0 {
        lemma_success_count_bound(s.drop_last());
    }
}

proof fn lemma_first_success(s: Seq<JobResult>, i: int)
    requires
        0 <= i <= s.len(),
        forall|k: int| 0 <= k < i ==> !(#[trigger] s[k]).success,
    ensures
        first_success(s) == i + first_success(s.skip(i)),
    decreases i,
{
    if i > 0 {
        assert(s.drop_first().skip(i - 1) =~= s.skip(i));
        lemma_first_success(s.drop_first(), i - 1);
    } else {
        assert(s.skip(0) =~= s);
    }
}

/// The report for the outcomes of a session: `(standard output, standard
/// error)`.
pub fn write_summary(results: &[JobResult]) -> (r: (String, String))
    ensures
        r.0@ == summary_out(results@),
        r.1@ == summary_err(results@),
{
    let n = results.len();
    let mut succeeded: usize = 0;
    let mut first: usize = n;
    let mut ids = String::new();
    for i in 0..n
        invariant
            n == results@.len(),
            succeeded == success_count(results@.take(i as int)),
            succeeded <= i,
            ids@ == ids_text(results@.take(i as int)),
            first <= n,
            succeeded == 0 ==> first == n && forall|k: int| 0 <= k < i ==> !(#[trigger] results@[k]).success,
            succeeded > 0 ==> first < i && results@[first as int].success && forall|k: int|
                0 <= k < first ==> !(#[trigger] results@[k]).success,
    {
        proof {
            assert(results@.take(i + 1).drop_last() =~= results@.take(i as int));
        }
        let r = &results[i];
        if r.success {
            if succeeded == 0 {
                first = i;
            }
            succeeded = succeeded + 1;
            match &r.job_id {
                Some(id) => {
                    if ids.as_str().unicode_len() > 0 {
                        ids.append(", ");
                    }
                    ids.append(id.as_str());
                },
                None => {},
            }
        }
    }
    proof {
        assert(results@.take(n as int) =~= results@);
        if succeeded > 0 {
            lemma_first_success(results@, first as int);
        }
    }
    let failed = n - succeeded;
    let mut out = String::new();
    if succeeded == 1 {
        let r = &results[first];
        out.append("vaspsetup: submitted ");
        out.append(r.job_name.as_str());
        match &r.job_id {
            Some(id) => {
                out.append(" (Job ID: ");
                out.append(id.as_str());
                out.append(")\n");
            },
            None => {
                out.append("\n");
            },
        }
    } else if succeeded > 1 {
        out.append("vaspsetup: submitted ");
        push_decimal(&mut out, succeeded as u64);
        if ids.as_str().unicode_len() == 0 {
            out.append(" job(s)\n");
        } else {
            out.append(" job(s) — IDs: ");
            out.append(ids.as_str());
            out.append("\n");
        }
    }
    let mut err = String::new();
    if failed > 0 {
        err.append("vaspsetup: ");
        push_decimal(&mut err, failed as u64);
        err.append(" job(s) failed\n");
    }
    (out, err)
}

} // verus!
