use tinymist::decode::{as_path_pos, change, changes, document_path, position, range, text_member};
use tinymist::json::{array, member, object, text, JsonNumber, JsonValue};
use tinymist::source::{Position, Range, TextEdit};
use tinymist::text::{chars_of, joined, reversed, same_text, starts_with, string_of};

fn obj(members: Vec<(&str, JsonValue)>) -> JsonValue {
    JsonValue::Object(members.into_iter().map(|(k, v)| (k.to_owned(), v)).collect())
}

fn num(n: u64) -> JsonValue {
    JsonValue::Number(JsonNumber::PosInt(n))
}

#[test]
fn accessors_read_their_own_shape_only() {
    let v = obj(vec![("a", num(1)), ("b", text("two")), ("a", num(3))]);
    assert_eq!(v.get("a"), Some(&num(1)));
    assert_eq!(v.get("b").and_then(|b| b.as_str()), Some("two"));
    assert_eq!(v.get("c"), None);
    assert_eq!(text("x").get("a"), None);
    assert_eq!(num(7).as_u32(), Some(7));
    assert_eq!(num(4294967295).as_u32(), Some(u32::MAX));
    assert_eq!(num(4294967296).as_u32(), None);
    assert_eq!(JsonValue::Number(JsonNumber::NegInt(-1)).as_u32(), None);
    assert_eq!(JsonValue::Number(JsonNumber::Real("1.5".to_owned())).as_u32(), None);
    assert_eq!(text("7").as_u32(), None);
    assert!(JsonValue::Null.is_null());
    assert!(!JsonValue::Bool(false).is_null());
    assert_eq!(num(1).as_str(), None);
    assert_eq!(array(vec![num(1)]).as_array(), Some(&vec![num(1)]));
    assert_eq!(v.as_array(), None);
    assert_eq!(v.as_object().map(|m| m.len()), Some(3));
    assert_eq!(num(1).as_object(), None);
    let members = vec![("k".to_owned(), num(1))];
    assert_eq!(member(&members, "k"), Some(&num(1)));
    assert_eq!(member(&members, "K"), None);
    assert_eq!(object(members.clone()), JsonValue::Object(members));
}

#[test]
fn copies_are_deep() {
    let v = obj(vec![
        ("list", array(vec![num(1), JsonValue::Null, obj(vec![("x", text("y"))])])),
        ("n", JsonValue::Number(JsonNumber::Real("2.5e3".to_owned()))),
        ("b", JsonValue::Bool(true)),
    ]);
    assert_eq!(v.copy(), v);
    assert_eq!(v.clone(), v);
    assert_eq!(v.copy().take_member("b"), Some(JsonValue::Bool(true)));
    assert_eq!(v.copy().take_member("zzz"), None);
    assert_eq!(num(1).take_member("b"), None);
}

#[test]
fn positions_and_ranges_are_decoded() {
    let p = obj(vec![("line", num(2)), ("character", num(9))]);
    assert_eq!(position(&p), Some(Position { line: 2, character: 9 }));
    assert_eq!(position(&obj(vec![("line", num(2))])), None);
    assert_eq!(position(&obj(vec![("line", text("2")), ("character", num(9))])), None);
    let r = obj(vec![("start", p.clone()), ("end", obj(vec![("line", num(3)), ("character", num(0))]))]);
    assert_eq!(
        range(&r),
        Some(Range {
            start: Position { line: 2, character: 9 },
            end: Position { line: 3, character: 0 }
        })
    );
    assert_eq!(range(&obj(vec![("start", p)])), None);
    assert_eq!(
        change(&obj(vec![("range", r.clone()), ("text", text("new"))])),
        Some(TextEdit { range: range(&r), text: "new".to_owned() })
    );
    assert_eq!(
        change(&obj(vec![("text", text("all"))])),
        Some(TextEdit { range: None, text: "all".to_owned() })
    );
    assert_eq!(change(&obj(vec![("range", num(1)), ("text", text("all"))])), None);
    assert_eq!(change(&obj(vec![("range", r)])), None);
    assert_eq!(changes(&vec![]), Some(vec![]));
    assert_eq!(changes(&vec![obj(vec![("text", text("a"))]), num(1)]), None);
    assert_eq!(changes(&vec![obj(vec![("text", text("a"))])]).map(|v| v.len()), Some(1));
}

#[test]
fn documents_are_found_in_parameters() {
    let params = obj(vec![
        ("textDocument", obj(vec![("uri", text("untitled:/x/../y"))])),
        ("position", obj(vec![("line", num(1)), ("character", num(2))])),
    ]);
    assert_eq!(document_path(&params).as_deref(), Some("/untitled/y"));
    assert_eq!(
        as_path_pos(&params),
        Some(("/untitled/y".to_owned(), Position { line: 1, character: 2 }))
    );
    assert_eq!(as_path_pos(&obj(vec![("textDocument", obj(vec![("uri", text("untitled:/y"))]))])), None);
    assert_eq!(document_path(&obj(vec![("textDocument", obj(vec![("uri", num(1))]))])), None);
    assert_eq!(document_path(&JsonValue::Null), None);
    assert_eq!(text_member(&params, "position"), None);
    assert_eq!(text_member(&obj(vec![("k", text("v"))]), "k"), Some("v"));
}

#[test]
fn text_helpers() {
    assert_eq!(chars_of("aé😀"), vec!['a', 'é', '😀']);
    assert_eq!(string_of(&vec!['a', 'é', '😀']), "aé😀");
    assert!(same_text("abc", "abc"));
    assert!(!same_text("abc", "abd"));
    assert!(!same_text("abc", "ab"));
    assert!(starts_with(&chars_of("/a/b"), &chars_of("/a")));
    assert!(starts_with(&chars_of("/a"), &chars_of("")));
    assert!(!starts_with(&chars_of("/a"), &chars_of("/a/b")));
    assert!(!starts_with(&chars_of("/a"), &chars_of("/b")));
    assert_eq!(joined("ab", "cd"), "abcd");
    assert_eq!(reversed(vec![1, 2, 3]), vec![3, 2, 1]);
    assert_eq!(reversed(Vec::<u8>::new()), Vec::<u8>::new());
}
