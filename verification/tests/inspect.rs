use worker_runtime::fetch::bridge::PromiseState;
use worker_runtime::inspect::console_argument;
use worker_runtime::inspect::inspect_v8_value;
use worker_runtime::inspect::logger_output;
use worker_runtime::inspect::Property;
use worker_runtime::inspect::ScriptValue;

fn text(s: &str) -> ScriptValue {
    ScriptValue::Text(s.to_string())
}

fn primitive(s: &str) -> ScriptValue {
    ScriptValue::Primitive(s.to_string())
}

fn property(name: &str, value: ScriptValue) -> Property {
    Property { name: name.to_string(), value }
}

#[test]
fn strings_are_shown_in_quotes() {
    assert_eq!(inspect_v8_value(&text("hello")), "\"hello\"");
    assert_eq!(inspect_v8_value(&text("")), "\"\"");
    assert_eq!(inspect_v8_value(&text("a\"b")), "\"a\"b\"");
}

#[test]
fn functions_are_shown_with_the_keyword_abbreviated() {
    let source = ScriptValue::Function("function f() { return function () {} }".to_string());
    assert_eq!(inspect_v8_value(&source), "ƒ f() { return function () {} }");
    let arrow = ScriptValue::Function("() => 1".to_string());
    assert_eq!(inspect_v8_value(&arrow), "() => 1");
    let later = ScriptValue::Function("async function g() {}".to_string());
    assert_eq!(inspect_v8_value(&later), "async ƒ g() {}");
}

#[test]
fn promises_are_shown_by_their_state() {
    assert_eq!(inspect_v8_value(&ScriptValue::Promise(PromiseState::Pending)), "[Promise] <Pending>");
    assert_eq!(inspect_v8_value(&ScriptValue::Promise(PromiseState::Fulfilled)), "[Promise] <Fulfilled>");
    assert_eq!(inspect_v8_value(&ScriptValue::Promise(PromiseState::Rejected)), "[Promise] <Rejected>");
}

#[test]
fn native_errors_are_shown_escaped() {
    let error = ScriptValue::NativeError("Error: a \"b\"\n".to_string());
    assert_eq!(inspect_v8_value(&error), "[Native Error] \"Error: a \\\"b\\\"\\n\"");
}

#[test]
fn primitives_are_shown_as_they_are() {
    assert_eq!(inspect_v8_value(&primitive("42")), "42");
    assert_eq!(inspect_v8_value(&primitive("undefined")), "undefined");
}

#[test]
fn arrays_list_their_items() {
    assert_eq!(inspect_v8_value(&ScriptValue::Array(vec![])), "[]");
    assert_eq!(inspect_v8_value(&ScriptValue::Array(vec![primitive("1")])), "[1]");
    let items = vec![primitive("1"), text("two"), ScriptValue::Array(vec![primitive("3"), primitive("4")])];
    assert_eq!(inspect_v8_value(&ScriptValue::Array(items)), "[1, \"two\", [3, 4]]");
}

#[test]
fn objects_list_their_properties() {
    assert_eq!(inspect_v8_value(&ScriptValue::Object(vec![])), "{}");
    let inner = ScriptValue::Object(vec![property("url", text("/a")), property("method", text("GET"))]);
    let outer = ScriptValue::Object(vec![
        property("request", inner),
        property("respondWith", ScriptValue::Function("function () { [native code] }".to_string())),
        property("n", ScriptValue::Array(vec![])),
    ]);
    assert_eq!(
        inspect_v8_value(&outer),
        "{request: {url: \"/a\", method: \"GET\"}, respondWith: ƒ () { [native code] }, n: []}"
    );
}

#[test]
fn console_shows_strings_without_quotes() {
    assert_eq!(console_argument(&text("hello world")), "hello world");
    assert_eq!(console_argument(&primitive("1")), "1");
    assert_eq!(console_argument(&ScriptValue::Array(vec![text("a")])), "[\"a\"]");
}

#[test]
fn logger_formats_the_call() {
    assert_eq!(logger_output("log", &vec![]), "console output: [log]");
    assert_eq!(logger_output("log", &vec![text("hello world")]), "console output: [log] hello world");
    let values = vec![text("a"), ScriptValue::Object(vec![property("b", primitive("1"))])];
    assert_eq!(logger_output("warn", &values), "console output: [warn] a {b: 1}");
}
