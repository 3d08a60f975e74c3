use vstd::prelude::*;

verus! {

/// What a script evaluated to, reduced to the kinds the boundary renders.
///
/// A number carries the decimal text that JavaScript itself writes for it
/// (`42`, `1.5`, `1e+21`, `Infinity`) and any other value (object, array,
/// function, symbol, ...) carries the engine's name for its type.
pub enum ScriptValue {
    Str(String),
    Number(String),
    Bool(bool),
    Null,
    Undefined,
    Other(String),
}

/// The canonical text of a result value.
pub open spec fn canonical_text(v: ScriptValue) -> Seq<char> {
    match v {
        ScriptValue::Str(s) => s@,
        ScriptValue::Number(t) => t@,
        ScriptValue::Bool(b) => if b { "true"@ } else { "false"@ },
        ScriptValue::Null => "null"@,
        ScriptValue::Undefined => "undefined"@,
        ScriptValue::Other(t) => t@,
    }
}

/// Renders a result value as its canonical text: a string as itself (no
/// quotes), a number as its decimal text, `true` / `false`, `null`,
/// `undefined`, and anything else as the engine's rendering.
pub fn canonical(v: &ScriptValue) -> (r: String)
    ensures
        r@ == canonical_text(*v),
{
    match v {
        ScriptValue::Str(s) => s.clone(),
        ScriptValue::Number(t) => t.clone(),
        ScriptValue::Bool(b) => if *b {
            "true".to_string()
        } else {
            "false".to_string()
        },
        ScriptValue::Null => "null".to_string(),
        ScriptValue::Undefined => "undefined".to_string(),
        ScriptValue::Other(t) => t.clone(),
    }
}

} // verus!
