use quickjs_bridge::binding::{expression_binding, string_binding};
use quickjs_bridge::bridge::{execute_js, execute_js_string, finish, respond, run_script, transform_data};
use quickjs_bridge::engine::{outcome, reduce, Fault, Report, ValueFacts};
use quickjs_bridge::value::{canonical, ScriptValue};

fn text_of(r: Option<Vec<u8>>) -> String {
    let mut b = r.expect("a result buffer");
    assert_eq!(b.pop(), Some(0u8));
    assert!(!b.contains(&0u8));
    String::from_utf8(b).expect("utf-8 text")
}

fn exec(script: &str, input: &str) -> Option<Vec<u8>> {
    execute_js(Some(script.as_bytes()), Some(input.as_bytes()))
}

fn exec_string(script: &str, input: &str) -> Option<Vec<u8>> {
    execute_js_string(Some(script.as_bytes()), Some(input.as_bytes()))
}

fn transform(input: &str) -> Option<Vec<u8>> {
    transform_data(Some(input.as_bytes()))
}

fn assert_round_trip(doc: &str) {
    let out = text_of(transform(doc));
    let before: serde_json::Value = serde_json::from_str(doc).unwrap();
    let after: serde_json::Value = serde_json::from_str(&out).unwrap();
    assert_eq!(before, after);
}

#[test]
fn transform_round_trips_objects() {
    assert_round_trip("{\"a\": 1, \"b\": [true, null, 2.5], \"c\": {\"d\": \"e\"}}");
}

#[test]
fn transform_round_trips_scalars_and_arrays() {
    assert_round_trip("42");
    assert_round_trip("\"text\"");
    assert_round_trip("null");
    assert_round_trip("[1, [2, [3]], []]");
    assert_round_trip("  { }  ");
}

#[test]
fn transform_round_trips_strings_with_escapes() {
    assert_round_trip("{\"q\": \"say \\\"hi\\\"\", \"nl\": \"a\\nb\", \"bs\": \"c:\\\\dir\"}");
    assert_round_trip("{\"tick\": \"a`b\", \"sub\": \"${x}\", \"u\": \"\\u00e9\\u2028\"}");
    assert_round_trip("{\"cr\": \"x\"}\r\n");
}

#[test]
fn transform_normalizes_whitespace() {
    assert_eq!(text_of(transform("{ \"a\" : [ 1 , 2 ] }")), "{\"a\":[1,2]}");
}

#[test]
fn transform_is_independent_of_earlier_calls() {
    let first = text_of(transform("{\"n\": 1}"));
    let _ = transform("not json");
    let _ = exec_string("globalThis.leak = 1; inputData", "x");
    let second = text_of(transform("{\"n\": 1}"));
    assert_eq!(first, second);
    assert_eq!(text_of(exec("typeof leak", "{}")), "undefined");
}

#[test]
fn transform_rejects_non_json() {
    assert_eq!(transform("not json"), None);
    assert_eq!(transform("{\"a\": }"), None);
    assert_eq!(transform(""), None);
    assert_eq!(transform("{'a': 1}"), None);
}

#[test]
fn transform_of_missing_input_is_none() {
    assert_eq!(transform_data(None), None);
}

#[test]
fn transform_stops_only_at_the_given_length() {
    assert_eq!(transform_data(Some(b"[1]\0[2]")), None);
    assert_eq!(text_of(transform_data(Some(b"[1]"))), "[1]");
}

#[test]
fn coercion_of_plain_results() {
    assert_eq!(text_of(exec("42", "{}")), "42");
    assert_eq!(text_of(exec("true", "{}")), "true");
    assert_eq!(text_of(exec("false", "{}")), "false");
    assert_eq!(text_of(exec("null", "{}")), "null");
    assert_eq!(text_of(exec("undefined", "{}")), "undefined");
    assert_eq!(text_of(exec("'hi'", "{}")), "hi");
}

#[test]
fn coercion_does_not_depend_on_the_input() {
    for input in ["anything", "", "{\"a\": 1}", "`"] {
        assert_eq!(text_of(exec_string("42", input)), "42");
        assert_eq!(text_of(exec_string("true", input)), "true");
        assert_eq!(text_of(exec_string("null", input)), "null");
        assert_eq!(text_of(exec_string("undefined", input)), "undefined");
        assert_eq!(text_of(exec_string("'hi'", input)), "hi");
    }
}

#[test]
fn coercion_of_numbers() {
    assert_eq!(text_of(exec("1.5", "{}")), "1.5");
    assert_eq!(text_of(exec("-7", "{}")), "-7");
    assert_eq!(text_of(exec("0.1 + 0.2", "{}")), "0.30000000000000004");
    assert_eq!(text_of(exec("2 ** 40", "{}")), "1099511627776");
    assert_eq!(text_of(exec("1e21", "{}")), "1e+21");
    assert_eq!(text_of(exec("1 / 0", "{}")), "Infinity");
    assert_eq!(text_of(exec("0 / 0", "{}")), "NaN");
}

#[test]
fn coercion_of_other_values() {
    assert_eq!(text_of(exec("({a: 1})", "{}")), "object");
    assert_eq!(text_of(exec("[1, 2]", "{}")), "array");
    assert_eq!(text_of(exec("(() => 1)", "{}")), "function");
    assert_eq!(text_of(exec("(function f() {})", "{}")), "constructor");
    assert_eq!(text_of(exec("Symbol('s')", "{}")), "symbol");
    assert_eq!(text_of(exec("({a: 1})", "{}")), text_of(exec("({a: 1})", "{}")));
}

#[test]
fn long_concatenated_strings_are_strings() {
    let out = text_of(exec("'a'.repeat(3000) + 'b'.repeat(3000)", "{}"));
    assert_eq!(out, format!("{}{}", "a".repeat(3000), "b".repeat(3000)));
}

#[test]
fn string_binding_is_visible() {
    assert_eq!(text_of(exec_string("inputData", "hello")), "hello");
    assert_eq!(text_of(exec_string("typeof inputData", "{}")), "string");
}

#[test]
fn string_binding_keeps_every_character() {
    let tricky = "a`b ${x} \\n c:\\dir \r\n end \u{e9}";
    assert_eq!(text_of(exec_string("inputData", tricky)), tricky);
}

#[test]
fn string_binding_carries_zero_bytes() {
    assert_eq!(text_of(execute_js_string(Some(b"inputData.length"), Some(b"a\0b"))), "3");
}

#[test]
fn invalid_utf8_is_replaced() {
    let r = execute_js_string(Some(b"inputData"), Some(&[0x61, 0xff, 0x62]));
    assert_eq!(text_of(r), "a\u{fffd}b");
    assert_eq!(text_of(execute_js_string(Some(&[0x27, 0x41, 0xfe, 0x27]), Some(b""))), "A\u{fffd}");
}

#[test]
fn expression_binding_is_evaluated() {
    assert_eq!(text_of(exec("inputData.a + 1", "{\"a\": 41}")), "42");
    assert_eq!(text_of(exec("JSON.stringify(inputData)", "{b: [1, 2]}")), "{\"b\":[1,2]}");
}

#[test]
fn failing_binding_gives_none() {
    assert_eq!(exec("1", "not valid ("), None);
}

#[test]
fn missing_inputs_give_none() {
    assert_eq!(execute_js(None, Some(b"{}")), None);
    assert_eq!(execute_js(Some(b"1"), None), None);
    assert_eq!(execute_js(None, None), None);
    assert_eq!(execute_js_string(None, Some(b"x")), None);
    assert_eq!(execute_js_string(Some(b"1"), None), None);
}

#[test]
fn script_errors_give_none() {
    assert_eq!(exec("(", "{}"), None);
    assert_eq!(exec("throw new Error('boom')", "{}"), None);
    assert_eq!(exec_string("undefinedName.x", "x"), None);
}

#[test]
fn result_with_zero_byte_gives_none() {
    assert_eq!(exec("'a\\0b'", "{}"), None);
}

#[test]
fn interleaved_calls_do_not_interfere() {
    let jobs: Vec<(String, String)> = (0..6)
        .map(|i| (format!("inputData + '-' + {}", i), format!("job{}", i)))
        .collect();
    let forward: Vec<Option<Vec<u8>>> = jobs.iter().map(|(s, d)| exec_string(s, d)).collect();
    let mut backward: Vec<Option<Vec<u8>>> = jobs.iter().rev().map(|(s, d)| exec_string(s, d)).collect();
    backward.reverse();
    assert_eq!(forward, backward);
    assert_eq!(text_of(forward[3].clone()), "job3-3");
}

#[test]
fn run_script_gives_text_or_fault() {
    assert_eq!(run_script("inputData.toUpperCase()", "abc"), Ok("ABC".to_string()));
    assert_eq!(run_script("(", "abc"), Err(Fault::Script));
    assert_eq!(run_script("inputData", "a`b"), Ok("a`b".to_string()));
}

#[test]
fn finish_encodes_outcomes() {
    assert_eq!(finish(Ok(ScriptValue::Str("hi".to_string()))), Some(b"hi\0".to_vec()));
    assert_eq!(finish(Ok(ScriptValue::Bool(false))), Some(b"false\0".to_vec()));
    assert_eq!(finish(Ok(ScriptValue::Undefined)), Some(b"undefined\0".to_vec()));
    assert_eq!(finish(Ok(ScriptValue::Str("a\0".to_string()))), None);
    assert_eq!(finish(Err(Fault::Script)), None);
    assert_eq!(finish(Err(Fault::Engine)), None);
}

#[test]
fn canonical_follows_the_table() {
    assert_eq!(canonical(&ScriptValue::Str("x y".to_string())), "x y");
    assert_eq!(canonical(&ScriptValue::Number("3.25".to_string())), "3.25");
    assert_eq!(canonical(&ScriptValue::Bool(true)), "true");
    assert_eq!(canonical(&ScriptValue::Null), "null");
    assert_eq!(canonical(&ScriptValue::Undefined), "undefined");
    assert_eq!(canonical(&ScriptValue::Other("object".to_string())), "object");
}

#[test]
fn bindings_are_written_as_expected() {
    assert_eq!(string_binding("a`b"), b"const inputData = `a\\`b`;".to_vec());
    assert_eq!(string_binding("$\\\r\0"), b"const inputData = `\\$\\\\\\r\\x00`;".to_vec());
    assert_eq!(expression_binding("{a: 1}"), b"const inputData = {a: 1};".to_vec());
}

fn facts() -> ValueFacts {
    ValueFacts {
        is_string: false,
        is_number: false,
        text: None,
        boolean: None,
        is_null: false,
        is_undefined: false,
        kind_name: "object".to_string(),
    }
}

fn ran(value: Option<ValueFacts>) -> Report {
    Report { engine_ok: true, setup_ok: true, value }
}

#[test]
fn reduce_follows_the_table_in_order() {
    let s = reduce(ValueFacts { is_string: true, text: Some("hi".to_string()), ..facts() });
    assert!(matches!(s, Ok(ScriptValue::Str(ref t)) if t == "hi"));
    let n = reduce(ValueFacts { is_number: true, text: Some("42".to_string()), ..facts() });
    assert!(matches!(n, Ok(ScriptValue::Number(ref t)) if t == "42"));
    assert!(matches!(reduce(ValueFacts { is_string: true, ..facts() }), Err(Fault::Text)));
    assert!(matches!(reduce(ValueFacts { is_number: true, ..facts() }), Err(Fault::Text)));
    assert!(matches!(reduce(ValueFacts { boolean: Some(true), is_null: true, ..facts() }), Ok(ScriptValue::Bool(true))));
    assert!(matches!(reduce(ValueFacts { is_null: true, is_undefined: true, ..facts() }), Ok(ScriptValue::Null)));
    assert!(matches!(reduce(ValueFacts { is_undefined: true, ..facts() }), Ok(ScriptValue::Undefined)));
    assert!(matches!(reduce(facts()), Ok(ScriptValue::Other(ref t)) if t == "object"));
}

#[test]
fn outcome_names_the_first_failed_step() {
    let no_engine = Report { engine_ok: false, setup_ok: true, value: Some(facts()) };
    assert!(matches!(outcome(no_engine), Err(Fault::Engine)));
    let no_setup = Report { engine_ok: true, setup_ok: false, value: Some(facts()) };
    assert!(matches!(outcome(no_setup), Err(Fault::Setup)));
    assert!(matches!(outcome(ran(None)), Err(Fault::Script)));
    assert!(matches!(outcome(ran(Some(ValueFacts { is_null: true, ..facts() }))), Ok(ScriptValue::Null)));
}

#[test]
fn respond_hands_back_canonical_text_or_none() {
    let hi = ValueFacts { is_string: true, text: Some("hi".to_string()), ..facts() };
    assert_eq!(respond(ran(Some(hi))), Some(b"hi\0".to_vec()));
    let n = ValueFacts { is_number: true, text: Some("42".to_string()), ..facts() };
    assert_eq!(respond(ran(Some(n))), Some(b"42\0".to_vec()));
    assert_eq!(respond(ran(Some(ValueFacts { boolean: Some(false), ..facts() }))), Some(b"false\0".to_vec()));
    assert_eq!(respond(ran(Some(ValueFacts { is_undefined: true, ..facts() }))), Some(b"undefined\0".to_vec()));
    assert_eq!(respond(ran(Some(facts()))), Some(b"object\0".to_vec()));
    assert_eq!(respond(ran(None)), None);
    let nul = ValueFacts { is_string: true, text: Some("a\0b".to_string()), ..facts() };
    assert_eq!(respond(ran(Some(nul))), None);
    assert_eq!(respond(Report { engine_ok: true, setup_ok: false, value: None }), None);
    assert_eq!(respond(Report { engine_ok: false, setup_ok: false, value: None }), None);
}
