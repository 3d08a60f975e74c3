use vstd::prelude::*;
use crate::value::ScriptValue;

verus! {

#[verifier::external_type_specification]
#[verifier::external_body]
pub struct ExRuntime(rquickjs::Runtime);

#[verifier::external_type_specification]
#[verifier::external_body]
pub struct ExContext(rquickjs::Context);

#[verifier::external_type_specification]
#[verifier::external_body]
pub struct ExCtx<'js>(rquickjs::Ctx<'js>);

#[verifier::external_type_specification]
#[verifier::external_body]
pub struct ExValue<'js>(rquickjs::Value<'js>);

#[verifier::external_type_specification]
#[verifier::external_body]
pub struct ExError(rquickjs::Error);

#[verifier::external_type_specification]
#[verifier::external_body]
pub struct ExType(rquickjs::Type);

/// Relies on `rquickjs::Runtime::new`: a fresh engine runtime, or an error
/// where it cannot be allocated.
pub assume_specification[ rquickjs::Runtime::new ]() -> Result<rquickjs::Runtime, rquickjs::Error>;

/// Relies on `rquickjs::Context::full`: a fresh context with all standard
/// intrinsics, or an error where it cannot be allocated.
pub assume_specification[ rquickjs::Context::full ](
    runtime: &rquickjs::Runtime,
) -> Result<rquickjs::Context, rquickjs::Error>;

/// Relies on `rquickjs::Value::is_string`: whether the value is a string.
pub assume_specification<'js>[ rquickjs::Value::<'js>::is_string ](v: &rquickjs::Value<'js>) -> bool;

/// Relies on `rquickjs::Value::as_bool`: the boolean a boolean value holds,
/// `None` for a value of any other kind.
pub assume_specification<'js>[ rquickjs::Value::<'js>::as_bool ](v: &rquickjs::Value<'js>) -> Option<bool>;

/// Relies on `rquickjs::Value::is_null`: whether the value is `null`.
pub assume_specification<'js>[ rquickjs::Value::<'js>::is_null ](v: &rquickjs::Value<'js>) -> bool;

/// Relies on `rquickjs::Value::is_undefined`: whether the value is
/// `undefined`.
pub assume_specification<'js>[ rquickjs::Value::<'js>::is_undefined ](v: &rquickjs::Value<'js>) -> bool;

/// Relies on `rquickjs::Value::type_of`: the kind of the value.
pub assume_specification<'js>[ rquickjs::Value::<'js>::type_of ](v: &rquickjs::Value<'js>) -> rquickjs::Type;

/// Relies on `rquickjs::Type::as_str`: the engine's fixed name for a kind of
/// value (`object`, `array`, `function`, `symbol`, ...).
pub assume_specification[ rquickjs::Type::as_str ](t: rquickjs::Type) -> &'static str;

/// Relies on `rquickjs::Value::is_number`: whether the value is an integer
/// or a floating-point number.
pub assume_specification<'js>[ rquickjs::Value::<'js>::is_number ](v: &rquickjs::Value<'js>) -> bool;

/// Relies on `rquickjs::Value::get` with `Coerced<String>`: the text that
/// JavaScript's own string conversion gives the value (a string itself;
/// `42`, `1.5`, `Infinity` for numbers), or an error where the conversion throws or its result
/// cannot be read as UTF-8.
#[verifier::external_body]
fn coerced_text<'js>(v: &rquickjs::Value<'js>) -> Result<String, rquickjs::Error> {
    v.get::<rquickjs::Coerced<String>>().map(|c| c.0)
}

/// Relies on `rquickjs::Ctx::eval`: runs `source` as a global script and
/// discards its value.
#[verifier::external_body]
fn eval_discard<'js>(ctx: &rquickjs::Ctx<'js>, source: Vec<u8>) -> Result<(), rquickjs::Error> {
    ctx.eval::<(), _>(source)
}

/// Relies on `rquickjs::Ctx::eval`: runs `source` as a global script and
/// hands back its completion value.
#[verifier::external_body]
fn eval_value<'js>(ctx: &rquickjs::Ctx<'js>, source: Vec<u8>) -> Result<rquickjs::Value<'js>, rquickjs::Error> {
    ctx.eval::<rquickjs::Value<'js>, _>(source)
}


/// Why a run produced no result.
#[derive(Debug, Clone, Copy, PartialEq, Eq, Structural)]
pub enum Fault {
    /// The engine's runtime or context could not be created.
    Engine,
    /// The script that binds `inputData` failed.
    Setup,
    /// The user script failed to parse or threw.
    Script,
    /// A string result could not be read out of the engine as UTF-8.
    Text,
}

/// What the boundary reads of an engine value, as plain data.
pub struct ValueFacts {
    /// The value is a string.
    pub is_string: bool,
    /// The value is an integer or a floating-point number.
    pub is_number: bool,
    /// JavaScript's string conversion of a string or a number; `None` where
    /// the value is neither, or where the text could not be read out.
    pub text: Option<String>,
    /// The boolean a boolean value holds.
    pub boolean: Option<bool>,
    /// The value is `null`.
    pub is_null: bool,
    /// The value is `undefined`.
    pub is_undefined: bool,
    /// The engine's name for the value's type.
    pub kind_name: String,
}

/// What one run of the engine reported, as plain data.
pub struct Report {
    /// The runtime and the context were created.
    pub engine_ok: bool,
    /// The binding script ran without error.
    pub setup_ok: bool,
    /// What the user script evaluated to; `None` where it failed to parse or
    /// threw (or was never run).
    pub value: Option<ValueFacts>,
}

/// The coercion table, first match wins: a string, then a number (either of
/// them fails where its text could not be read), then a boolean, `null`,
/// `undefined`, and anything else under its type name.
pub open spec fn reduced(f: ValueFacts) -> Result<ScriptValue, Fault> {
    if f.is_string {
        match f.text {
            Some(t) => Ok(ScriptValue::Str(t)),
            None => Err(Fault::Text),
        }
    } else if f.is_number {
        match f.text {
            Some(t) => Ok(ScriptValue::Number(t)),
            None => Err(Fault::Text),
        }
    } else if f.boolean is Some {
        Ok(ScriptValue::Bool(f.boolean->Some_0))
    } else if f.is_null {
        Ok(ScriptValue::Null)
    } else if f.is_undefined {
        Ok(ScriptValue::Undefined)
    } else {
        Ok(ScriptValue::Other(f.kind_name))
    }
}

/// The outcome of a run: the first step that failed, or the reduced value.
pub open spec fn outcome_of(rep: Report) -> Result<ScriptValue, Fault> {
    if !rep.engine_ok {
        Err(Fault::Engine)
    } else if !rep.setup_ok {
        Err(Fault::Setup)
    } else {
        match rep.value {
            None => Err(Fault::Script),
            Some(f) => reduced(f),
        }
    }
}

/// Reduces the facts of a value by the coercion table.
pub fn reduce(f: ValueFacts) -> (r: Result<ScriptValue, Fault>)
    ensures
        r == reduced(f),
{
    if f.is_string {
        match f.text {
            Some(t) => Ok(ScriptValue::Str(t)),
            None => Err(Fault::Text),
        }
    } else if f.is_number {
        match f.text {
            Some(t) => Ok(ScriptValue::Number(t)),
            None => Err(Fault::Text),
        }
    } else if let Some(b) = f.boolean {
        Ok(ScriptValue::Bool(b))
    } else if f.is_null {
        Ok(ScriptValue::Null)
    } else if f.is_undefined {
        Ok(ScriptValue::Undefined)
    } else {
        Ok(ScriptValue::Other(f.kind_name))
    }
}

/// Turns a run's report into its outcome: `Engine`, `Setup` or `Script` for
/// the first step that failed, else the reduced value.
pub fn outcome(rep: Report) -> (r: Result<ScriptValue, Fault>)
    ensures
        r == outcome_of(rep),
{
    if !rep.engine_ok {
        Err(Fault::Engine)
    } else if !rep.setup_ok {
        Err(Fault::Setup)
    } else {
        match rep.value {
            None => Err(Fault::Script),
            Some(f) => reduce(f),
        }
    }
}

/// Reads the facts of an engine value. The text is asked for only of a
/// string or a number, whose conversion runs no user code.
fn facts_of<'js>(v: &rquickjs::Value<'js>) -> (r: ValueFacts)
    ensures
        !r.is_string && !r.is_number ==> r.text is None,
{
    let is_string = v.is_string();
    let is_number = v.is_number();
    let text = if is_string || is_number {
        match coerced_text(v) {
            Ok(t) => Some(t),
            Err(_) => None,
        }
    } else {
        None
    };
    ValueFacts {
        is_string,
        is_number,
        text,
        boolean: v.as_bool(),
        is_null: v.is_null(),
        is_undefined: v.is_undefined(),
        kind_name: v.type_of().as_str().to_string(),
    }
}

/// Inside one context: runs `setup`, then (only where it succeeded) `script`,
/// and reports what happened.
fn run_scripts<'js>(ctx: rquickjs::Ctx<'js>, setup: Vec<u8>, script: Vec<u8>) -> (r: Report)
    ensures
        r.engine_ok,
        !r.setup_ok ==> r.value is None,
{
    match eval_discard(&ctx, setup) {
        Ok(()) => {},
        Err(_) => {
            return Report { engine_ok: true, setup_ok: false, value: None };
        },
    }
    let value = match eval_value(&ctx, script) {
        Ok(v) => Some(facts_of(&v)),
        Err(_) => None,
    };
    Report { engine_ok: true, setup_ok: true, value }
}

/// Relies on `rquickjs::Context::with`: it locks the context's runtime, runs
/// the closure once on a handle to the context and returns what it returns,
/// so the result is a report of `run_scripts` and meets its `ensures`.
#[verifier::external_body]
fn within(context: &rquickjs::Context, setup: Vec<u8>, script: Vec<u8>) -> (r: Report)
    ensures
        r.engine_ok,
        !r.setup_ok ==> r.value is None,
{
    context.with(|ctx| run_scripts(ctx, setup, script))
}

/// Runs `setup` and then `script` in an engine of their own, created for this
/// call and torn down before it returns, so that nothing carries over from
/// one call to the next, and reports what happened.
pub fn evaluate(setup: Vec<u8>, script: Vec<u8>) -> (r: Report)
    ensures
        !r.engine_ok ==> !r.setup_ok,
        !r.setup_ok ==> r.value is None,
{
    let runtime = match rquickjs::Runtime::new() {
        Ok(rt) => rt,
        Err(_) => {
            return Report { engine_ok: false, setup_ok: false, value: None };
        },
    };
    let context = match rquickjs::Context::full(&runtime) {
        Ok(c) => c,
        Err(_) => {
            return Report { engine_ok: false, setup_ok: false, value: None };
        },
    };
    within(&context, setup, script)
}

} // verus!
