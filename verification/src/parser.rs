//! The build tool's wire format: one JSON record per line, of which only the
//! compiler messages with a rendered text are diagnostics.

use vstd::prelude::*;
use serde_json::Value;
use crate::diagnostic::{lemma_filter_push, severity_of, Severity};

verus! {

/// `serde_json::Value`, a parsed JSON document. Nothing inside it is visible
/// here: what it holds is read through `json_members` and `json_text`.
#[verifier::external_type_specification]
#[verifier::external_body]
pub struct ExValue(Value);

/// The document that `serde_json::from_str::<Value>` reads from `text`, or
/// `None` where it reports an error. Which texts are JSON, and what they
/// hold, is left to that function.
pub uninterp spec fn json_parsed(text: Seq<char>) -> Option<Value>;

/// What a `serde_json::Value` holds as an object: its members by key. A
/// value that is no object has none.
pub uninterp spec fn json_members(value: Value) -> Map<Seq<char>, Value>;

/// What a `serde_json::Value` holds as a string: its text. `None` for a
/// value that is no string.
pub uninterp spec fn json_text(value: Value) -> Option<Seq<char>>;

/// Calls `serde_json::from_str::<Value>` and drops the error's detail.
/// Trusted: the outcome is the one that `json_parsed` names for this text.
#[verifier::external_body]
fn parse_document(line: &str) -> (doc: Option<Value>)
    ensures
        doc == json_parsed(line@),
{
    serde_json::from_str::<Value>(line).ok()
}

/// Calls `serde_json::Value::get` with a string key. Trusted: it hands out
/// the member under `key` where the value is an object that has one, and
/// `None` otherwise.
#[verifier::external_body]
fn member<'a>(value: &'a Value, key: &str) -> (found: Option<&'a Value>)
    ensures
        match found {
            Some(inner) => json_members(*value).contains_key(key@) && *inner == json_members(
                *value,
            )[key@],
            None => !json_members(*value).contains_key(key@),
        },
{
    value.get(key)
}

/// Calls `serde_json::Value::as_str`. Trusted: it hands out the text of a
/// JSON string, and `None` for any other value.
#[verifier::external_body]
fn text_of<'a>(value: &'a Value) -> (found: Option<&'a str>)
    ensures
        match found {
            Some(text) => json_text(*value) == Some(text@),
            None => json_text(*value) is None,
        },
{
    value.as_str()
}

/// Calls `str::eq`. Trusted: two string slices are equal exactly when they
/// hold the same characters.
#[verifier::external_body]
fn same_text(left: &str, right: &str) -> (same: bool)
    ensures
        same == (left@ == right@),
{
    left == right
}

/// The text of the member `key` of `value`, where `value` is an object whose
/// member `key` is a string.
pub open spec fn member_text(value: Value, key: Seq<char>) -> Option<Seq<char>> {
    if json_members(value).contains_key(key) {
        json_text(json_members(value)[key])
    } else {
        None
    }
}

/// The level and the rendered text that a record carries. A record counts
/// only if its `reason` is `compiler-message` and its `message` has a
/// `rendered` string; a `message` without a `level` string has level `error`.
pub open spec fn record_fields(doc: Value) -> Option<(Seq<char>, Seq<char>)> {
    if member_text(doc, "reason"@) == Some("compiler-message"@) && json_members(doc).contains_key(
        "message"@,
    ) {
        let message = json_members(doc)["message"@];
        match member_text(message, "rendered"@) {
            Some(rendered) => Some(
                (
                    match member_text(message, "level"@) {
                        Some(level) => level,
                        None => "error"@,
                    },
                    rendered,
                ),
            ),
            None => None,
        }
    } else {
        None
    }
}

/// The level and the rendered text that a line carries: those of the record
/// it parses to, and nothing where it does not parse.
pub open spec fn line_fields(line: Seq<char>) -> Option<(Seq<char>, Seq<char>)> {
    match json_parsed(line) {
        Some(doc) => record_fields(doc),
        None => None,
    }
}

/// A level and a rendered text, as mathematical values.
pub open spec fn pair_view(pair: (String, String)) -> (Seq<char>, Seq<char>) {
    (pair.0@, pair.1@)
}

/// The views of a run of messages, in the same order.
pub open spec fn pair_views(messages: Seq<(String, String)>) -> Seq<(Seq<char>, Seq<char>)> {
    messages.map_values(|pair: (String, String)| pair_view(pair))
}

/// The characters of each line, in the same order.
pub open spec fn line_views(lines: Seq<String>) -> Seq<Seq<char>> {
    lines.map_values(|line: String| line@)
}

/// The messages that a run of lines carries, in the order of the lines.
pub open spec fn output_fields(lines: Seq<Seq<char>>) -> Seq<(Seq<char>, Seq<char>)> {
    lines.filter_map(|line: Seq<char>| line_fields(line))
}

/// The messages of `messages` whose level stands for `severity`.
pub open spec fn with_level(messages: Seq<(Seq<char>, Seq<char>)>, severity: Severity) -> Seq<
    (Seq<char>, Seq<char>),
> {
    messages.filter(|m: (Seq<char>, Seq<char>)| severity_of(m.0) == severity)
}

/// The messages that the warning filter lets through.
pub open spec fn filtered_messages(
    messages: Seq<(Seq<char>, Seq<char>)>,
    ignore_warnings: bool,
) -> Seq<(Seq<char>, Seq<char>)> {
    if ignore_warnings {
        messages.filter(|m: (Seq<char>, Seq<char>)| m.0 != "warning"@)
    } else {
        messages
    }
}

/// The severity that the level name `level` stands for.
pub fn classify(level: &str) -> (severity: Severity)
    ensures
        severity == severity_of(level@),
{
    if same_text(level, "warning") {
        Severity::Warning
    } else if same_text(level, "error") {
        Severity::Error
    } else {
        Severity::Other
    }
}

/// The text of the member `key` of `value`, if it is a string.
fn member_string<'a>(value: &'a Value, key: &str) -> (found: Option<&'a str>)
    ensures
        match found {
            Some(text) => member_text(*value, key@) == Some(text@),
            None => member_text(*value, key@) is None,
        },
{
    match member(value, key) {
        Some(inner) => text_of(inner),
        None => None,
    }
}

/// Reads the level and the rendered text out of a parsed record.
pub fn read_record(doc: &Value) -> (fields: Option<(String, String)>)
    ensures
        match fields {
            Some(pair) => record_fields(*doc) == Some(pair_view(pair)),
            None => record_fields(*doc) is None,
        },
{
    let relevant = match member_string(doc, "reason") {
        Some(reason) => same_text(reason, "compiler-message"),
        None => false,
    };
    if !relevant {
        return None;
    }
    match member(doc, "message") {
        Some(message) => {
            let level = match member_string(message, "level") {
                Some(level) => level,
                None => "error",
            };
            match member_string(message, "rendered") {
                Some(rendered) => Some((level.to_owned(), rendered.to_owned())),
                None => None,
            }
        },
        None => None,
    }
}

/// Reads the level and the rendered text out of one line of build output.
/// A line that is no JSON, or no compiler message with a rendered text,
/// gives `None`.
pub fn parse_line(line: &str) -> (fields: Option<(String, String)>)
    ensures
        match fields {
            Some(pair) => line_fields(line@) == Some(pair_view(pair)),
            None => line_fields(line@) is None,
        },
{
    match parse_document(line) {
        Some(doc) => read_record(&doc),
        None => None,
    }
}

/// Collects the messages of a whole build output, line by line.
pub fn parse_build_output(lines: &Vec<String>) -> (messages: Vec<(String, String)>)
    ensures
        pair_views(messages@) == output_fields(line_views(lines@)),
{
    let mut messages: Vec<(String, String)> = Vec::new();
    let ghost read = |line: Seq<char>| line_fields(line);
    let ghost all = line_views(lines@);
    proof {
        assert(all.take(0) =~= Seq::<Seq<char>>::empty());
        assert(pair_views(messages@) =~= output_fields(all.take(0)));
    }
    let mut i: usize = 0;
    while i < lines.len()
        invariant
            i <= lines.len(),
            all == line_views(lines@),
            pair_views(messages@) == output_fields(all.take(i as int)),
        decreases lines.len() - i,
    {
        let found = parse_line(lines[i].as_str());
        proof {
            assert(all.take(i + 1).drop_last() =~= all.take(i as int));
            assert(all.take(i + 1).last() == lines@[i as int]@);
        }
        match found {
            Some(pair) => {
                proof {
                    assert(pair_views(messages@.push(pair)) =~= pair_views(messages@) + seq![
                        pair_view(pair),
                    ]);
                }
                messages.push(pair);
            },
            None => {},
        }
        i = i + 1;
    }
    proof {
        assert(all.take(i as int) =~= all);
    }
    messages
}

/// Each message has exactly one severity, so the three classes add up to the
/// whole.
pub proof fn lemma_levels_partition(messages: Seq<(Seq<char>, Seq<char>)>)
    ensures
        with_level(messages, Severity::Warning).len() + with_level(messages, Severity::Error).len()
            + with_level(messages, Severity::Other).len() == messages.len(),
    decreases messages.len(),
{
    reveal(Seq::filter);
    if messages.len() > 0 {
        lemma_levels_partition(messages.drop_last());
    }
}

/// Counts the messages by severity: warnings, errors, and the rest.
pub fn check_messages(messages: &Vec<(String, String)>) -> (totals: (usize, usize, usize))
    ensures
        totals.0 == with_level(pair_views(messages@), Severity::Warning).len(),
        totals.1 == with_level(pair_views(messages@), Severity::Error).len(),
        totals.2 == with_level(pair_views(messages@), Severity::Other).len(),
        totals.0 + totals.1 + totals.2 == messages@.len(),
{
    let ghost all = pair_views(messages@);
    let mut warnings: usize = 0;
    let mut errors: usize = 0;
    let mut i: usize = 0;
    proof {
        reveal(Seq::filter);
        assert(all.take(0) =~= Seq::<(Seq<char>, Seq<char>)>::empty());
    }
    while i < messages.len()
        invariant
            i <= messages.len(),
            all == pair_views(messages@),
            warnings == with_level(all.take(i as int), Severity::Warning).len(),
            errors == with_level(all.take(i as int), Severity::Error).len(),
        decreases messages.len() - i,
    {
        let severity = classify(messages[i].0.as_str());
        proof {
            let next = all[i as int];
            assert(all.take(i + 1) =~= all.take(i as int).push(next));
            lemma_filter_push(
                all.take(i as int),
                next,
                |m: (Seq<char>, Seq<char>)| severity_of(m.0) == Severity::Warning,
            );
            lemma_filter_push(
                all.take(i as int),
                next,
                |m: (Seq<char>, Seq<char>)| severity_of(m.0) == Severity::Error,
            );
            lemma_levels_partition(all.take(i + 1));
        }
        match severity {
            Severity::Warning => {
                warnings = warnings + 1;
            },
            Severity::Error => {
                errors = errors + 1;
            },
            Severity::Other => {},
        }
        i = i + 1;
    }
    proof {
        assert(all.take(i as int) =~= all);
        lemma_levels_partition(all);
    }
    let others = messages.len() - warnings - errors;
    (warnings, errors, others)
}

/// Copies of the messages that the warning filter lets through, in order:
/// all of them when the filter is off, those whose level is not `warning`
/// when it is on.
pub fn filter_messages(messages: &Vec<(String, String)>, ignore_warnings: bool) -> (shown: Vec<
    (String, String),
>)
    ensures
        pair_views(shown@) == filtered_messages(pair_views(messages@), ignore_warnings),
{
    let ghost all = pair_views(messages@);
    let ghost keep = |m: (Seq<char>, Seq<char>)| m.0 != "warning"@;
    let mut shown: Vec<(String, String)> = Vec::new();
    let mut i: usize = 0;
    proof {
        reveal(Seq::filter);
        assert(all.take(0) =~= Seq::<(Seq<char>, Seq<char>)>::empty());
        assert(pair_views(shown@) =~= filtered_messages(all.take(0), ignore_warnings));
    }
    while i < messages.len()
        invariant
            i <= messages.len(),
            all == pair_views(messages@),
            keep == |m: (Seq<char>, Seq<char>)| m.0 != "warning"@,
            pair_views(shown@) == filtered_messages(all.take(i as int), ignore_warnings),
        decreases messages.len() - i,
    {
        let message = &messages[i];
        proof {
            assert(all.take(i + 1) =~= all.take(i as int).push(pair_view(*message)));
            lemma_filter_push(all.take(i as int), pair_view(*message), keep);
        }
        let hidden = ignore_warnings && same_text(message.0.as_str(), "warning");
        if !hidden {
            let copy = (message.0.clone(), message.1.clone());
            proof {
                assert(pair_views(shown@.push(copy)) =~= pair_views(shown@).push(
                    pair_view(*message),
                ));
            }
            shown.push(copy);
        }
        i = i + 1;
    }
    proof {
        assert(all.take(i as int) =~= all);
    }
    shown
}

} // verus!
