//! Reading the parameters of requests and notifications.
//!
//! Parameters arrive as structured values. The functions here read the
//! members that the session itself needs; a value of another shape gives
//! nothing.

use vstd::prelude::*;
use crate::json::JsonValue;
use crate::source::{Position, Range, TextEdit};
use crate::uri::{as_path, spec_as_path, spec_document_uri};
use crate::text::opt_view;

verus! {

/// The position that a value holds: its members `line` and `character`.
pub open spec fn spec_position(v: JsonValue) -> Option<Position> {
    match (v.spec_get("line"@), v.spec_get("character"@)) {
        (Some(line), Some(character)) => match (line.spec_u32(), character.spec_u32()) {
            (Some(line), Some(character)) => Some(Position { line, character }),
            _ => None,
        },
        _ => None,
    }
}

/// The position that a value holds.
pub fn position(v: &JsonValue) -> (r: Option<Position>)
    ensures
        r == spec_position(*v),
{
    let line = match v.get("line") {
        Some(x) => x.as_u32(),
        None => None,
    };
    let character = match v.get("character") {
        Some(x) => x.as_u32(),
        None => None,
    };
    match (line, character) {
        (Some(line), Some(character)) => Some(Position { line, character }),
        _ => None,
    }
}

/// The range that a value holds: its members `start` and `end`.
pub open spec fn spec_range(v: JsonValue) -> Option<Range> {
    match (v.spec_get("start"@), v.spec_get("end"@)) {
        (Some(start), Some(end)) => match (spec_position(start), spec_position(end)) {
            (Some(start), Some(end)) => Some(Range { start, end }),
            _ => None,
        },
        _ => None,
    }
}

/// The range that a value holds.
pub fn range(v: &JsonValue) -> (r: Option<Range>)
    ensures
        r == spec_range(*v),
{
    let start = match v.get("start") {
        Some(x) => position(x),
        None => None,
    };
    let end = match v.get("end") {
        Some(x) => position(x),
        None => None,
    };
    match (start, end) {
        (Some(start), Some(end)) => Some(Range { start, end }),
        _ => None,
    }
}

/// The change that a value holds: its text, and its range where it has one
/// that is not null.
pub open spec fn spec_change(v: JsonValue) -> Option<(Option<Range>, Seq<char>)> {
    match v.spec_get("text"@) {
        Some(text) => match text.spec_str() {
            Some(text) => match v.spec_get("range"@) {
                None => Some((None, text)),
                Some(JsonValue::Null) => Some((None, text)),
                Some(r) => match spec_range(r) {
                    Some(r) => Some((Some(r), text)),
                    None => None,
                },
            },
            None => None,
        },
        None => None,
    }
}

/// The change that a value holds.
pub fn change(v: &JsonValue) -> (r: Option<TextEdit>)
    ensures
        match r {
            Some(edit) => spec_change(*v) == Some((edit.range, edit.text@)),
            None => spec_change(*v) is None,
        },
{
    let text = match v.get("text") {
        Some(t) => match t.as_str() {
            Some(t) => t,
            None => { return None; },
        },
        None => { return None; },
    };
    match v.get("range") {
        None => Some(TextEdit { range: None, text: text.to_owned() }),
        Some(r) => if r.is_null() {
            Some(TextEdit { range: None, text: text.to_owned() })
        } else {
            match range(r) {
                Some(r) => Some(TextEdit { range: Some(r), text: text.to_owned() }),
                None => None,
            }
        },
    }
}

/// Whether the edits are the changes that the values hold, one for one.
pub open spec fn changes_match(values: Seq<JsonValue>, edits: Seq<TextEdit>) -> bool {
    &&& edits.len() == values.len()
    &&& forall|i: int|
        0 <= i < values.len() ==> spec_change(#[trigger] values[i]) == Some(
            (edits[i].range, edits[i].text@),
        )
}

/// Whether every value holds a change.
pub open spec fn all_changes(values: Seq<JsonValue>) -> bool {
    forall|i: int| 0 <= i < values.len() ==> spec_change(#[trigger] values[i]) is Some
}

/// The changes that the values hold; nothing as soon as one holds none.
pub fn changes(values: &Vec<JsonValue>) -> (r: Option<Vec<TextEdit>>)
    ensures
        match r {
            Some(edits) => changes_match(values@, edits@),
            None => !all_changes(values@),
        },
{
    let mut out: Vec<TextEdit> = Vec::new();
    let mut i: usize = 0;
    while i < values.len()
        invariant
            i <= values.len(),
            changes_match(values@.take(i as int), out@),
        decreases values.len() - i,
    {
        match change(&values[i]) {
            Some(edit) => {
                out.push(edit);
                assert forall|k: int| 0 <= k < i + 1 implies spec_change(
                    #[trigger] values@.take(i + 1)[k],
                ) == Some((out@[k].range, out@[k].text@)) by {
                    if k < i {
                        assert(values@.take(i as int)[k] == values@[k]);
                    }
                }
            },
            None => {
                assert(spec_change(values@[i as int]) is None);
                return None;
            },
        }
        i += 1;
    }
    assert(values@.take(values.len() as int) =~= values@);
    Some(out)
}

/// The member `textDocument` of the parameters.
pub open spec fn spec_text_document(params: JsonValue) -> Option<JsonValue> {
    params.spec_get("textDocument"@)
}

/// The URI of the document that the parameters are about.
pub open spec fn spec_params_uri(params: JsonValue) -> Option<Seq<char>> {
    match spec_text_document(params) {
        Some(doc) => spec_document_uri(doc),
        None => None,
    }
}

/// Whether `path` may be the store path of the document that the parameters
/// are about: none where the parameters name no document.
pub open spec fn params_path(params: JsonValue, path: Option<Seq<char>>) -> bool {
    match spec_params_uri(params) {
        Some(uri) => spec_as_path(uri, path),
        None => path is None,
    }
}

/// The store path of the document that the parameters are about.
pub fn document_path(params: &JsonValue) -> (r: Option<String>)
    ensures
        params_path(*params, opt_view(r)),
{
    match params.get("textDocument") {
        Some(doc) => as_path(doc),
        None => None,
    }
}

/// The store path and the position that the parameters name.
pub fn as_path_pos(params: &JsonValue) -> (r: Option<(String, Position)>)
    ensures
        match r {
            Some((path, at)) => params_path(*params, Some(path@)) && params.spec_get("position"@)
                is Some && spec_position(params.spec_get("position"@)->0) == Some(at),
            None => params_path(*params, None) || params.spec_get("position"@) is None
                || spec_position(params.spec_get("position"@)->0) is None,
        },
{
    let path = match document_path(params) {
        Some(p) => p,
        None => { return None; },
    };
    match params.get("position") {
        Some(p) => match position(p) {
            Some(at) => Some((path, at)),
            None => None,
        },
        None => None,
    }
}

/// The text of a member that is text.
pub open spec fn spec_text_member(v: JsonValue, key: Seq<char>) -> Option<Seq<char>> {
    match v.spec_get(key) {
        Some(x) => x.spec_str(),
        None => None,
    }
}

/// The text of a member that is text.
pub fn text_member<'a>(v: &'a JsonValue, key: &str) -> (r: Option<&'a str>)
    ensures
        match r {
            Some(s) => spec_text_member(*v, key@) == Some(s@),
            None => spec_text_member(*v, key@) is None,
        },
{
    match v.get(key) {
        Some(x) => x.as_str(),
        None => None,
    }
}

} // verus!
