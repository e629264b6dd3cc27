//! Reading the backend's JSON replies: whether a reply succeeded, and the
//! preset parameters or the species it carries.

use vstd::prelude::*;
use crate::incar::{IncarVal, IncarValue};
use crate::number::{parse_i64, parse_i64_spec};
use crate::python::{invalid_json, reply_outcome, silent_failure, PythonError};
use crate::state::SpeciesInfo;
use crate::text::{contains_seq, trim, trim_str};

verus! {

/// What `serde_json::from_str` makes of a reply text, read as the `status`
/// field (when it is a string), the `message` field (when it is a string)
/// and whether there is a `data` field; or the parser's error message.
pub uninterp spec fn reply_fields_of(text: Seq<char>) -> Result<(Option<Seq<char>>, Option<Seq<char>>, bool), Seq<char>>;

/// The entries of the `data` object of a reply text parsed by
/// `serde_json::from_str`, each value as an [`IncarVal`] with every number
/// held as its JSON text (`Real`); `None` when the text is not JSON or
/// `data` is not an object.
pub uninterp spec fn preset_entries_of(text: Seq<char>) -> Option<Seq<(Seq<char>, IncarVal)>>;

/// The entries of the `data.species` list of a reply text parsed by
/// `serde_json::from_str`: each entry's `symbol` (when a string) and
/// `count` (when an unsigned integer); `None` when the text is not JSON or
/// there is no such list.
pub uninterp spec fn species_entries_of(text: Seq<char>) -> Option<Seq<(Option<Seq<char>>, Option<u64>)>>;

pub open spec fn opt_chars(o: Option<String>) -> Option<Seq<char>> {
    match o {
        Some(s) => Some(s@),
        None => None,
    }
}

pub open spec fn fields_view(r: Result<(Option<String>, Option<String>, bool), String>) -> Result<
    (Option<Seq<char>>, Option<Seq<char>>, bool),
    Seq<char>,
> {
    match r {
        Ok((s, m, d)) => Ok((opt_chars(s), opt_chars(m), d)),
        Err(e) => Err(e@),
    }
}

pub open spec fn entries_view(v: Seq<(String, IncarValue)>) -> Seq<(Seq<char>, IncarVal)> {
    v.map_values(|e: (String, IncarValue)| (e.0@, e.1@))
}

pub open spec fn species_entries_view(v: Seq<(Option<String>, Option<u64>)>) -> Seq<(Option<Seq<char>>, Option<u64>)> {
    v.map_values(|e: (Option<String>, Option<u64>)| (opt_chars(e.0), e.1))
}

/// Reads a reply text.
///
/// Trusted: parses with `serde_json::from_str` into a `serde_json::Value`,
/// then takes `status` and `message` with `Value::get` and `Value::as_str`,
/// and whether `data` is there; a parse error gives its message. The
/// contract says only that the result is `reply_fields_of` of the text.
#[verifier::external_body]
fn read_reply(text: &str) -> (r: Result<(Option<String>, Option<String>, bool), String>)
    ensures
        fields_view(r) == reply_fields_of(text@),
{
    match serde_json::from_str::<serde_json::Value>(text) {
        Ok(v) => Ok((
            v.get("status").and_then(serde_json::Value::as_str).map(String::from),
            v.get("message").and_then(serde_json::Value::as_str).map(String::from),
            v.get("data").is_some(),
        )),
        Err(e) => Err(e.to_string()),
    }
}

/// Reads the `data` object of a reply text.
///
/// Trusted: parses with `serde_json::from_str`, takes `data` with
/// `Value::get` and `Value::as_object`, and hands out each entry with its
/// value converted by variant: a boolean as `Bool`, a number as `Real` of
/// its JSON text, a string as `Text`, anything else as `Other` of its JSON
/// text. The contract says only that the result is `preset_entries_of` of
/// the text.
#[verifier::external_body]
fn read_preset_data(text: &str) -> (r: Option<Vec<(String, IncarValue)>>)
    ensures
        match r {
            Some(v) => preset_entries_of(text@) == Some(entries_view(v@)),
            None => preset_entries_of(text@) is None,
        },
{
    let reply: serde_json::Value = serde_json::from_str(text).ok()?;
    let object = reply.get("data")?.as_object()?;
    Some(object.iter().map(|(k, v)| (k.clone(), match v {
        serde_json::Value::Bool(b) => IncarValue::Bool(*b),
        serde_json::Value::Number(n) => IncarValue::Real(n.to_string()),
        serde_json::Value::String(s) => IncarValue::Text(s.clone()),
        other => IncarValue::Other(other.to_string()),
    })).collect())
}

/// Reads the `data.species` list of a reply text.
///
/// Trusted: parses with `serde_json::from_str`, takes `data`, then
/// `species` with `Value::get` and `Value::as_array`, and hands out each
/// entry's `symbol` through `Value::as_str` and `count` through
/// `Value::as_u64`. The contract says only that the result is
/// `species_entries_of` of the text.
#[verifier::external_body]
fn read_species_data(text: &str) -> (r: Option<Vec<(Option<String>, Option<u64>)>>)
    ensures
        match r {
            Some(v) => species_entries_of(text@) == Some(species_entries_view(v@)),
            None => species_entries_of(text@) is None,
        },
{
    let reply: serde_json::Value = serde_json::from_str(text).ok()?;
    let list = reply.get("data")?.get("species")?.as_array()?;
    Some(list.iter().map(|sp| (
        sp.get("symbol").and_then(serde_json::Value::as_str).map(String::from),
        sp.get("count").and_then(serde_json::Value::as_u64),
    )).collect())
}

/// What a run of the backend means, from its output and error output: a
/// run that printed nothing fails (see [`silent_failure`]); output that is
/// not JSON is an invalid response (see [`invalid_json`]); else the reply's
/// fields decide (see [`reply_outcome`]).
pub open spec fn reply_ok(fields: Result<(Option<Seq<char>>, Option<Seq<char>>, bool), Seq<char>>) -> bool {
    match fields {
        Ok((s, m, d)) => s == Some("ok"@) && d,
        Err(_) => false,
    }
}

/// The error of a run, as a condition on it (see [`reply_result`]).
pub open spec fn reply_error(
    stdout: Seq<char>,
    stderr: Seq<char>,
    fields: Result<(Option<Seq<char>>, Option<Seq<char>>, bool), Seq<char>>,
    e: PythonError,
) -> bool {
    if trim(stdout).len() == 0 {
        if contains_seq(stderr, "No module named"@) {
            e is ModuleNotFound
        } else {
            e matches PythonError::ProcessFailed(m) && m@ == "No output. stderr: "@ + trim(stderr)
        }
    } else {
        match fields {
            Err(reason) => e matches PythonError::InvalidResponse(m) && m@ == "Invalid JSON: "@ + reason
                + ". Raw: "@ + trim(stdout),
            Ok((s, msg, d)) => if s == Some("ok"@) {
                e matches PythonError::InvalidResponse(m) && m@ == "Missing 'data' field"@
            } else if s == Some("error"@) {
                e matches PythonError::BackendError(m) && m@ == match msg {
                    Some(t) => t,
                    None => "Unknown backend error"@,
                }
            } else {
                e matches PythonError::InvalidResponse(m) && m@ == "Invalid 'status' field: "@ + trim(stdout)
            },
        }
    }
}

/// Whether a run succeeded, and its error when it did not: nothing printed
/// fails, output that is not JSON is an invalid response, and a JSON reply
/// succeeds exactly when its status is `ok` and it has data.
pub fn reply_result(stdout: &str, stderr: &str) -> (r: Result<(), PythonError>)
    ensures
        r is Ok <==> trim(stdout@).len() > 0 && reply_ok(reply_fields_of(trim(stdout@))),
        r matches Err(e) ==> reply_error(stdout@, stderr@, reply_fields_of(trim(stdout@)), e),
{
    let t = trim_str(stdout);
    if t.unicode_len() == 0 {
        return Err(silent_failure(stderr));
    }
    match read_reply(t.as_str()) {
        Err(reason) => Err(invalid_json(reason.as_str(), stdout)),
        Ok((status, message, has_data)) => {
            reply_outcome(&status, has_data, &message, stdout)
        },
    }
}

/// A value from the backend as the library holds it: a number whose text
/// is an integer within `i64` is an `Int`, others stay as they are.
pub open spec fn backend_value(v: IncarVal) -> IncarVal {
    match v {
        IncarVal::Real(t) => match parse_i64_spec(t) {
            Some(i) => IncarVal::Int(i),
            None => IncarVal::Real(t),
        },
        _ => v,
    }
}

/// See [`backend_value`].
pub fn number_value(v: IncarValue) -> (r: IncarValue)
    ensures
        r@ == backend_value(v@),
{
    match v {
        IncarValue::Real(t) => match parse_i64(t.as_str()) {
            Some(i) => IncarValue::Int(i),
            None => IncarValue::Real(t),
        },
        other => other,
    }
}

pub open spec fn preset_values(entries: Seq<(Seq<char>, IncarVal)>) -> Seq<(Seq<char>, IncarVal)> {
    entries.map_values(|e: (Seq<char>, IncarVal)| (e.0, backend_value(e.1)))
}

/// The preset parameters of a run's reply: its error when the run failed
/// (see [`reply_result`]), else the entries of its `data` object with
/// integer numbers made `Int` (none when `data` is not an object).
pub fn preset_reply(stdout: &str, stderr: &str) -> (r: Result<Option<Vec<(String, IncarValue)>>, PythonError>)
    ensures
        r is Ok <==> trim(stdout@).len() > 0 && reply_ok(reply_fields_of(trim(stdout@))),
        r matches Err(e) ==> reply_error(stdout@, stderr@, reply_fields_of(trim(stdout@)), e),
        r matches Ok(o) ==> match o {
            Some(v) => preset_entries_of(trim(stdout@)) matches Some(es) && entries_view(v@) == preset_values(es),
            None => preset_entries_of(trim(stdout@)) is None,
        },
{
    match reply_result(stdout, stderr) {
        Err(e) => Err(e),
        Ok(()) => {
            let t = trim_str(stdout);
            match read_preset_data(t.as_str()) {
                None => Ok(None),
                Some(raw) => Ok(Some(integer_numbers(raw))),
            }
        },
    }
}

/// The entries with integer numbers made `Int` (see [`backend_value`]).
pub fn integer_numbers(raw: Vec<(String, IncarValue)>) -> (r: Vec<(String, IncarValue)>)
    ensures
        entries_view(r@) == preset_values(entries_view(raw@)),
{
    let ghost orig = raw@;
    let mut rest = raw;
    let mut out: Vec<(String, IncarValue)> = Vec::new();
    while rest.len() > 0
        invariant
            orig.len() == out@.len() + rest@.len(),
            rest@ == orig.skip(out@.len() as int),
            entries_view(out@) == preset_values(entries_view(orig).take(out@.len() as int)),
        decreases rest@.len(),
    {
        let ghost k0 = out@.len() as int;
        let ghost before = entries_view(out@);
        let (k, v) = rest.remove(0);
        assert((k, v) == orig[k0]);
        let ghost t = entries_view(orig).take(k0 + 1);
        assert(t.drop_last() =~= entries_view(orig).take(k0));
        assert(t.last() == (k@, v@));
        let ghost kv = (k@, backend_value(v@));
        out.push((k, number_value(v)));
        assert(entries_view(out@) =~= before.push(kv));
        assert(rest@ =~= orig.skip(out@.len() as int));
        assert(entries_view(out@) =~= preset_values(entries_view(orig).take(out@.len() as int)));
    }
    assert(entries_view(orig).take(orig.len() as int) =~= entries_view(orig));
    out
}

/// The species of the entries that have both a symbol and a count, in
/// order; counts as `usize`.
pub open spec fn kept_species(entries: Seq<(Option<Seq<char>>, Option<u64>)>) -> Seq<(Seq<char>, usize)>
    decreases entries.len(),
{
    if entries.len() == 0 {
        seq![]
    } else {
        let rest = kept_species(entries.drop_last());
        match entries.last() {
            (Some(s), Some(c)) => rest.push((s, c as usize)),
            _ => rest,
        }
    }
}

pub open spec fn species_view(v: Seq<SpeciesInfo>) -> Seq<(Seq<char>, usize)> {
    v.map_values(|sp: SpeciesInfo| (sp.symbol@, sp.count))
}

/// The species of the entries that have both a symbol and a count (see
/// [`kept_species`]).
pub fn species_from_entries(raw: Vec<(Option<String>, Option<u64>)>) -> (r: Vec<SpeciesInfo>)
    ensures
        species_view(r@) == kept_species(species_entries_view(raw@)),
{
    let ghost orig = raw@;
    let total = raw.len();
    let mut rest = raw;
    let mut out: Vec<SpeciesInfo> = Vec::new();
    let mut done: usize = 0;
    while rest.len() > 0
        invariant
            orig.len() == done + rest@.len(),
            orig.len() == total,
            rest@ == orig.skip(done as int),
            species_view(out@) == kept_species(species_entries_view(orig).take(done as int)),
        decreases rest@.len(),
    {
        let ghost k0 = done as int;
        let (sym, cnt) = rest.remove(0);
        assert((sym, cnt) == orig[k0]);
        let ghost before = species_view(out@);
        let ghost t = species_entries_view(orig).take(k0 + 1);
        assert(t.drop_last() =~= species_entries_view(orig).take(k0));
        assert(t.last() == (opt_chars(sym), cnt));
        match (sym, cnt) {
            (Some(s), Some(c)) => {
                let count: usize = #[verifier::truncate] (c as usize);
                out.push(SpeciesInfo { symbol: s, count });
                assert(species_view(out@) =~= before.push((s@, c as usize)));
            },
            _ => {},
        }
        done = done + 1;
        assert(rest@ =~= orig.skip(done as int));
    }
    assert(species_entries_view(orig).take(orig.len() as int) =~= species_entries_view(orig));
    out
}

/// The species of a run's reply: its error when the run failed (see
/// [`reply_result`]), else the entries of `data.species` that have a
/// symbol and a count (none when there is no such list).
pub fn species_reply(stdout: &str, stderr: &str) -> (r: Result<Option<Vec<SpeciesInfo>>, PythonError>)
    ensures
        r is Ok <==> trim(stdout@).len() > 0 && reply_ok(reply_fields_of(trim(stdout@))),
        r matches Err(e) ==> reply_error(stdout@, stderr@, reply_fields_of(trim(stdout@)), e),
        r matches Ok(o) ==> match o {
            Some(v) => species_entries_of(trim(stdout@)) matches Some(es) && species_view(v@) == kept_species(es),
            None => species_entries_of(trim(stdout@)) is None,
        },
{
    match reply_result(stdout, stderr) {
        Err(e) => Err(e),
        Ok(()) => {
            let t = trim_str(stdout);
            match read_species_data(t.as_str()) {
                None => Ok(None),
                Some(raw) => Ok(Some(species_from_entries(raw))),
            }
        },
    }
}

} // verus!
