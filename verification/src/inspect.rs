//! Rendering script values for diagnostics and for the console.

use crate::fetch::bridge::PromiseState;
use crate::message::logger_line;
use crate::message::logger_text;
use vstd::prelude::*;
use vstd::string::*;

verus! {

/// A script value, as far as its rendering reads it.
pub enum ScriptValue {
    /// A string.
    Text(String),
    /// A function, by its source text.
    Function(String),
    /// A promise.
    Promise(PromiseState),
    /// A native error, by its string form.
    NativeError(String),
    /// Any other value that is no object, by its string form.
    Primitive(String),
    /// An array, by the values of its own enumerable properties.
    Array(Vec<ScriptValue>),
    /// Any other object, by its own enumerable properties.
    Object(Vec<Property>),
}

/// A property of an object.
pub struct Property {
    /// The property's name, stringified.
    pub name: String,
    /// The property's value.
    pub value: ScriptValue,
}

/// The name under which a promise's state is shown.
pub open spec fn state_name(state: PromiseState) -> Seq<char> {
    match state {
        PromiseState::Pending => "Pending"@,
        PromiseState::Fulfilled => "Fulfilled"@,
        PromiseState::Rejected => "Rejected"@,
    }
}

/// `pattern` stands in `text` at position `at`.
pub open spec fn occurs_at(text: Seq<char>, pattern: Seq<char>, at: int) -> bool {
    0 <= at && at + pattern.len() <= text.len() && text.subrange(at, at + pattern.len())
        == pattern
}

/// `at` is the first position at which `pattern` stands in `text`.
pub open spec fn first_at(text: Seq<char>, pattern: Seq<char>, at: int) -> bool {
    occurs_at(text, pattern, at) && forall|before: int|
        0 <= before < at ==> !occurs_at(text, pattern, before)
}

/// `text` with the first `pattern` in it replaced by `with`.
pub open spec fn replaced_once(text: Seq<char>, pattern: Seq<char>, with: Seq<char>) -> Seq<char> {
    if exists|at: int| first_at(text, pattern, at) {
        let at = choose|at: int| first_at(text, pattern, at);
        text.subrange(0, at) + with + text.subrange(at + pattern.len(), text.len() as int)
    } else {
        text
    }
}

/// The text `text` in quotes, with the characters escaped that Rust's `Debug`
/// escapes.
pub uninterp spec fn debug_quoted(text: Seq<char>) -> Seq<char>;

/// How a script value is shown.
pub open spec fn inspected(value: ScriptValue) -> Seq<char>
    decreases value,
{
    match value {
        ScriptValue::Text(text) => "\""@ + text@ + "\""@,
        ScriptValue::Function(source) => replaced_once(source@, "function"@, "ƒ"@),
        ScriptValue::Promise(state) => "[Promise] <"@ + state_name(state) + ">"@,
        ScriptValue::NativeError(text) => "[Native Error] "@ + debug_quoted(text@),
        ScriptValue::Primitive(text) => text@,
        ScriptValue::Array(items) => "["@ + listed(items@, items@.len()) + "]"@,
        ScriptValue::Object(properties) => "{"@ + described(properties@, properties@.len()) + "}"@,
    }
}

/// The first `count` of `items`, each shown, with `, ` between them.
pub open spec fn listed(items: Seq<ScriptValue>, count: nat) -> Seq<char>
    decreases items, count,
{
    if count == 0 || count > items.len() {
        Seq::<char>::empty()
    } else if count == 1 {
        inspected(items[0])
    } else {
        listed(items, (count - 1) as nat) + ", "@ + inspected(items[count - 1])
    }
}

/// The first `count` of `properties`, each shown as its name, a colon and
/// its value, with `, ` between them.
pub open spec fn described(properties: Seq<Property>, count: nat) -> Seq<char>
    decreases properties, count,
{
    if count == 0 || count > properties.len() {
        Seq::<char>::empty()
    } else if count == 1 {
        properties[0].name@ + ": "@ + inspected(properties[0].value)
    } else {
        described(properties, (count - 1) as nat) + ", "@ + properties[count - 1].name@ + ": "@
            + inspected(properties[count - 1].value)
    }
}

/// Renders a script value: strings in quotes, functions by their source with
/// the keyword abbreviated, promises by their state, arrays and objects by
/// their own properties, and everything else by its string form.
pub fn inspect_v8_value(value: &ScriptValue) -> (shown: String)
    ensures
        shown@ == inspected(*value),
    decreases value,
{
    match value {
        ScriptValue::Text(text) => {
            let mut shown = "\"".to_string();
            shown.append(text.as_str());
            shown.append("\"");
            shown
        },
        ScriptValue::Function(source) => replace_once(source.as_str(), "function", "ƒ"),
        ScriptValue::Promise(state) => {
            let mut shown = "[Promise] <".to_string();
            match state {
                PromiseState::Pending => shown.append("Pending"),
                PromiseState::Fulfilled => shown.append("Fulfilled"),
                PromiseState::Rejected => shown.append("Rejected"),
            }
            shown.append(">");
            shown
        },
        ScriptValue::NativeError(text) => {
            let mut shown = "[Native Error] ".to_string();
            let quoted = quote(text.as_str());
            shown.append(quoted.as_str());
            shown
        },
        ScriptValue::Primitive(text) => text.clone(),
        ScriptValue::Array(items) => {
            let mut shown = "[".to_string();
            let mut i: usize = 0;
            while i < items.len()
                invariant
                    i <= items@.len(),
                    *value == ScriptValue::Array(*items),
                    shown@ == "["@ + listed(items@, i as nat),
                decreases items@.len() - i,
            {
                if i > 0 {
                    shown.append(", ");
                }
                proof {
                    vstd::std_specs::vec::axiom_vec_index_decreases(*items, i as int);
                    assert(value->Array_0 == *items);
                }
                let item = inspect_v8_value(&items[i]);
                shown.append(item.as_str());
                proof {
                    assert(shown@ =~= "["@ + listed(items@, (i + 1) as nat));
                }
                i += 1;
            }
            shown.append("]");
            shown
        },
        ScriptValue::Object(properties) => {
            let mut shown = "{".to_string();
            let mut i: usize = 0;
            while i < properties.len()
                invariant
                    i <= properties@.len(),
                    *value == ScriptValue::Object(*properties),
                    shown@ == "{"@ + described(properties@, i as nat),
                decreases properties@.len() - i,
            {
                if i > 0 {
                    shown.append(", ");
                }
                shown.append(properties[i].name.as_str());
                shown.append(": ");
                proof {
                    vstd::std_specs::vec::axiom_vec_index_decreases(*properties, i as int);
                    assert(value->Object_0 == *properties);
                }
                let item = inspect_v8_value(&properties[i].value);
                shown.append(item.as_str());
                proof {
                    assert(shown@ =~= "{"@ + described(properties@, (i + 1) as nat));
                }
                i += 1;
            }
            shown.append("}");
            shown
        },
    }
}

/// How the console shows an argument: a string as it is, anything else as
/// `inspected` shows it.
pub open spec fn argument_text(value: ScriptValue) -> Seq<char> {
    match value {
        ScriptValue::Text(text) => text@,
        _ => inspected(value),
    }
}

/// Renders one argument of a console call.
pub fn console_argument(value: &ScriptValue) -> (shown: String)
    ensures
        shown@ == argument_text(*value),
{
    match value {
        ScriptValue::Text(text) => text.clone(),
        _ => inspect_v8_value(value),
    }
}

/// The console's logger: formats the line for a call at `level` with the
/// arguments `values`.
pub fn logger_output(level: &str, values: &Vec<ScriptValue>) -> (line: String)
    ensures
        line@ == logger_text(level@, values@.map_values(|v: ScriptValue| argument_text(v))),
{
    let mut shown: Vec<String> = Vec::new();
    let mut i: usize = 0;
    while i < values.len()
        invariant
            i <= values@.len(),
            shown@.len() == i,
            forall|j: int| 0 <= j < i ==> shown@[j]@ == argument_text(values@[j]),
        decreases values@.len() - i,
    {
        shown.push(console_argument(&values[i]));
        i += 1;
    }
    assert(shown@.map_values(|arg: String| arg@) =~= values@.map_values(
        |v: ScriptValue| argument_text(v),
    ));
    logger_line(level, &shown)
}

/// Calls `str::replacen` with a count of one. Trusted: the first place at which
/// `pattern` stands in `text` is replaced by `with`, and a text without the
/// pattern comes back as it is.
#[verifier::external_body]
fn replace_once(text: &str, pattern: &str, with: &str) -> (out: String)
    ensures
        out@ == replaced_once(text@, pattern@, with@),
{
    text.replacen(pattern, with, 1)
}

/// Renders a string with its `Debug` form. Trusted: the result depends on the
/// text alone.
#[verifier::external_body]
fn quote(text: &str) -> (out: String)
    ensures
        out@ == debug_quoted(text@),
{
    format!("{:?}", text)
}

} // verus!
