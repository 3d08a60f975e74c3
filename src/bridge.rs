use vstd::prelude::*;
use crate::binding::{expression_binding, string_binding, expression_binding_source, string_binding_source};
use crate::engine::{evaluate, outcome, outcome_of, reduced, Fault, Report, ValueFacts};
use crate::text::{decode_lossy, lossy_text, output_buffer, output_of, text_bytes};
use crate::value::{canonical, canonical_text, ScriptValue};
use vstd::utf8::encode_utf8;

verus! {

/// The script that the transform runs: parse `inputData` as JSON and write
/// it back out, which normalizes the document.
pub const NORMALIZE_SCRIPT: &'static str = "JSON.stringify(JSON.parse(inputData))";

/// The buffer handed back for an engine outcome: the canonical text of the
/// value, null-terminated, or nothing for a failure.
pub open spec fn outcome_output(outcome: Result<ScriptValue, Fault>) -> Option<Seq<u8>> {
    match outcome {
        Ok(v) => output_of(canonical_text(v)),
        Err(_) => None,
    }
}

/// Whether `b` is a buffer that the boundary can hand out: some text with no
/// zero byte in it, encoded as UTF-8 and followed by one zero byte.
pub open spec fn is_output_buffer(b: Seq<u8>) -> bool {
    exists|t: Seq<char>| output_of(t) == Some(b)
}

/// Turns an engine outcome into the buffer handed to the caller: the
/// canonical text of the value with a terminating zero byte, or `None` for a
/// failed run and for a text that holds a zero byte of its own.
pub fn finish(outcome: Result<ScriptValue, Fault>) -> (r: Option<Vec<u8>>)
    ensures
        r matches Some(b) ==> outcome_output(outcome) == Some(b@),
        r is None ==> outcome_output(outcome) is None,
{
    match outcome {
        Ok(v) => {
            let text = canonical(&v);
            output_buffer(text.as_str())
        },
        Err(_) => None,
    }
}

/// A returned buffer, as a sequence of bytes.
pub open spec fn buffer_view(r: Option<Vec<u8>>) -> Option<Seq<u8>> {
    match r {
        Some(b) => Some(b@),
        None => None,
    }
}

/// The buffer handed back for what a run reported.
pub open spec fn report_output(rep: Report) -> Option<Seq<u8>> {
    outcome_output(outcome_of(rep))
}

/// Turns what a run of the engine reported into the buffer handed to the
/// caller: `None` where the engine, the binding or the script failed, or the
/// value's text could not be read or holds a NUL; else the canonical text of
/// the value, null-terminated.
pub fn respond(rep: Report) -> (r: Option<Vec<u8>>)
    ensures
        buffer_view(r) == report_output(rep),
{
    let ghost o = outcome_of(rep);
    let r = finish(outcome(rep));
    proof {
        if r is None {
            assert(outcome_output(o) is None);
        }
    }
    r
}

/// The null handle comes back exactly on failure: where the engine, the
/// binding or the script failed, where a string or number result could not
/// be read out, or where the result text holds a NUL character.
pub proof fn lemma_null_exactly_on_failure(rep: Report)
    ensures
        report_output(rep) is None <==> (outcome_of(rep) is Err || canonical_text(
            outcome_of(rep)->Ok_0,
        ).contains('\0')),
{
}

/// A script that fails to parse or throws (a non-JSON input to the
/// normalizing script, a syntax error in a user script) gives the null
/// handle.
pub proof fn lemma_failed_script_gives_null(rep: Report)
    requires
        rep.value is None,
    ensures
        report_output(rep) is None,
{
}

/// A successful run hands back the canonical text of the reduced value,
/// null-terminated: a string unquoted, a number as JavaScript writes it,
/// `true` / `false`, `null`, `undefined`, or the type name of anything else.
pub proof fn lemma_result_is_canonical_text(rep: Report, f: ValueFacts, v: ScriptValue)
    requires
        rep.engine_ok,
        rep.setup_ok,
        rep.value == Some(f),
        reduced(f) == Ok::<ScriptValue, Fault>(v),
        !canonical_text(v).contains('\0'),
    ensures
        report_output(rep) == Some(encode_utf8(canonical_text(v)).push(0u8)),
{
}

/// A string result comes back as its own contents, with no quotes added,
/// whatever else the facts say of the value.
pub proof fn lemma_string_result_unquoted(rep: Report, t: String)
    requires
        rep.engine_ok,
        rep.setup_ok,
        rep.value matches Some(f) && f.is_string && f.text == Some(t),
        !t@.contains('\0'),
    ensures
        report_output(rep) == Some(encode_utf8(t@).push(0u8)),
{
}

/// A boolean, `null` or `undefined` result (one that is neither a string
/// nor a number) comes back as `true` / `false`, `null` or `undefined`.
pub proof fn lemma_plain_results(f: ValueFacts)
    requires
        !f.is_string,
        !f.is_number,
    ensures
        f.boolean == Some(true) ==> canonical_text(reduced(f)->Ok_0) == "true"@,
        f.boolean == Some(false) ==> canonical_text(reduced(f)->Ok_0) == "false"@,
        f.boolean is None && f.is_null ==> canonical_text(reduced(f)->Ok_0) == "null"@,
        f.boolean is None && !f.is_null && f.is_undefined ==> canonical_text(reduced(f)->Ok_0)
            == "undefined"@,
        reduced(f) is Ok,
{
}

/// The two scripts that a transform of `input` runs: the string binding of
/// the decoded input, then the normalizing script.
pub fn transform_sources(input: &[u8]) -> (r: (Vec<u8>, Vec<u8>))
    ensures
        r.0@ == string_binding_source(lossy_text(input@)),
        r.1@ == encode_utf8(NORMALIZE_SCRIPT@),
{
    let text = decode_lossy(input);
    (string_binding(text.as_str()), text_bytes(NORMALIZE_SCRIPT))
}

/// The two scripts that an execution runs: the binding of the decoded input
/// (as a string, or as an expression), then the decoded user script.
pub fn execute_sources(script: &[u8], input: &[u8], as_string: bool) -> (r: (Vec<u8>, Vec<u8>))
    ensures
        as_string ==> r.0@ == string_binding_source(lossy_text(input@)),
        !as_string ==> r.0@ == expression_binding_source(lossy_text(input@)),
        r.1@ == encode_utf8(lossy_text(script@)),
{
    let text = decode_lossy(input);
    let code = decode_lossy(script);
    let setup = if as_string {
        string_binding(text.as_str())
    } else {
        expression_binding(text.as_str())
    };
    (setup, text_bytes(code.as_str()))
}

/// Normalizes a JSON document: binds the decoded input to `inputData` as a
/// string, parses it and writes it back out in a fresh engine. `None` for a
/// missing input (nothing is allocated or run), for text that is not JSON and
/// for any other failure.
pub fn transform_data(input: Option<&[u8]>) -> (r: Option<Vec<u8>>)
    ensures
        input is None ==> r is None,
        input is Some ==> exists|rep: Report| buffer_view(r) == report_output(rep),
        r matches Some(b) ==> is_output_buffer(b@),
{
    match input {
        None => None,
        Some(bytes) => {
            let (setup, script) = transform_sources(bytes);
            let rep = evaluate(setup, script);
            let ghost g = rep;
            let r = respond(rep);
            assert(buffer_view(r) == report_output(g));
            r
        },
    }
}

/// Runs `script` in a fresh engine in which `inputData` holds the value of
/// the expression `input`, and hands back the canonical text of the result.
/// `None` for a missing script or input (nothing is allocated or run), for a
/// binding or script that fails, and for a result holding a zero byte.
pub fn execute_js(script: Option<&[u8]>, input: Option<&[u8]>) -> (r: Option<Vec<u8>>)
    ensures
        script is None || input is None ==> r is None,
        script is Some && input is Some ==> exists|rep: Report| buffer_view(r) == report_output(rep),
        r matches Some(b) ==> is_output_buffer(b@),
{
    execute_with(script, input, false)
}

/// Runs `script` in a fresh engine in which `inputData` holds the string
/// `input`, and hands back the canonical text of the result. `None` for a
/// missing script or input (nothing is allocated or run), for a script that
/// fails, and for a result holding a zero byte.
pub fn execute_js_string(script: Option<&[u8]>, input: Option<&[u8]>) -> (r: Option<Vec<u8>>)
    ensures
        script is None || input is None ==> r is None,
        script is Some && input is Some ==> exists|rep: Report| buffer_view(r) == report_output(rep),
        r matches Some(b) ==> is_output_buffer(b@),
{
    execute_with(script, input, true)
}

fn execute_with(script: Option<&[u8]>, input: Option<&[u8]>, as_string: bool) -> (r: Option<Vec<u8>>)
    ensures
        script is None || input is None ==> r is None,
        script is Some && input is Some ==> exists|rep: Report| buffer_view(r) == report_output(rep),
        r matches Some(b) ==> is_output_buffer(b@),
{
    match (script, input) {
        (Some(code), Some(data)) => {
            let (setup, source) = execute_sources(code, data, as_string);
            let rep = evaluate(setup, source);
            let ghost g = rep;
            let r = respond(rep);
            assert(buffer_view(r) == report_output(g));
            r
        },
        _ => None,
    }
}

/// The result of `run_script` for an outcome: the canonical text of the
/// value, or the fault.
pub open spec fn text_outcome(o: Result<ScriptValue, Fault>) -> Result<Seq<char>, Fault> {
    match o {
        Ok(v) => Ok(canonical_text(v)),
        Err(f) => Err(f),
    }
}

/// Runs `script` with `inputData` bound to the string `input` and gives the
/// canonical text of the result, or the first step that failed.
pub fn run_script(script: &str, input: &str) -> (r: Result<String, Fault>)
    ensures
        exists|rep: Report|
            #![trigger outcome_of(rep)]
            text_outcome(outcome_of(rep)) == match r {
                Ok(s) => Ok(s@),
                Err(f) => Err(f),
            },
{
    let setup = string_binding(input);
    let rep = evaluate(setup, text_bytes(script));
    let ghost g = rep;
    match outcome(rep) {
        Ok(v) => {
            let s = canonical(&v);
            assert(text_outcome(outcome_of(g)) == Ok::<Seq<char>, Fault>(s@));
            Ok(s)
        },
        Err(f) => {
            assert(text_outcome(outcome_of(g)) == Err::<Seq<char>, Fault>(f));
            Err(f)
        },
    }
}

} // verus!
