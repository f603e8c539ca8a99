use tinymist::source::{
    apply_edit, apply_edits, code_units, offset_of, Position, PositionEncoding, Range, Source,
    TextEdit,
};
use tinymist::store::{DocOp, DocumentStore, StoreError};

fn chars(s: &str) -> Vec<char> {
    s.chars().collect()
}

fn pos(line: u32, character: u32) -> Position {
    Position { line, character }
}

fn edit(start: (u32, u32), end: (u32, u32), text: &str) -> TextEdit {
    TextEdit {
        range: Some(Range { start: pos(start.0, start.1), end: pos(end.0, end.1) }),
        text: text.to_owned(),
    }
}

fn apply(text: &str, e: &TextEdit, enc: PositionEncoding) -> Option<String> {
    apply_edit(&chars(text), e, enc).map(|v| v.into_iter().collect())
}

#[test]
fn code_units_by_encoding() {
    for (c, u8s, u16s) in [('a', 1, 1), ('é', 2, 1), ('€', 3, 1), ('😀', 4, 2), ('\u{7f}', 1, 1), ('\u{80}', 2, 1), ('\u{7ff}', 2, 1), ('\u{800}', 3, 1), ('\u{ffff}', 3, 1), ('\u{10000}', 4, 2)] {
        assert_eq!(code_units(c, PositionEncoding::Utf8), u8s);
        assert_eq!(code_units(c, PositionEncoding::Utf8) as usize, c.len_utf8());
        assert_eq!(code_units(c, PositionEncoding::Utf16), u16s);
        assert_eq!(code_units(c, PositionEncoding::Utf16) as usize, c.len_utf16());
        assert_eq!(code_units(c, PositionEncoding::Utf32), 1);
    }
}

#[test]
fn offsets_count_code_units() {
    let text = chars("a😀b\n€x\n");
    assert_eq!(offset_of(&text, pos(0, 0), PositionEncoding::Utf16), Some(0));
    assert_eq!(offset_of(&text, pos(0, 1), PositionEncoding::Utf16), Some(1));
    assert_eq!(offset_of(&text, pos(0, 3), PositionEncoding::Utf16), Some(2));
    assert_eq!(offset_of(&text, pos(0, 4), PositionEncoding::Utf16), Some(3));
    // inside the surrogate pair
    assert_eq!(offset_of(&text, pos(0, 2), PositionEncoding::Utf16), None);
    assert_eq!(offset_of(&text, pos(0, 5), PositionEncoding::Utf8), Some(2));
    assert_eq!(offset_of(&text, pos(0, 2), PositionEncoding::Utf32), Some(2));
    // past the end of the line
    assert_eq!(offset_of(&text, pos(0, 5), PositionEncoding::Utf16), None);
    assert_eq!(offset_of(&text, pos(1, 0), PositionEncoding::Utf8), Some(4));
    assert_eq!(offset_of(&text, pos(1, 3), PositionEncoding::Utf8), Some(5));
    assert_eq!(offset_of(&text, pos(1, 1), PositionEncoding::Utf16), Some(5));
    assert_eq!(offset_of(&text, pos(2, 0), PositionEncoding::Utf16), Some(7));
    assert_eq!(offset_of(&text, pos(3, 0), PositionEncoding::Utf16), None);
    assert_eq!(offset_of(&chars(""), pos(0, 0), PositionEncoding::Utf16), Some(0));
    assert_eq!(offset_of(&chars(""), pos(0, 1), PositionEncoding::Utf16), None);
}

#[test]
fn edits_replace_ranges() {
    let e = edit((0, 6), (0, 11), "there");
    assert_eq!(apply("hello world", &e, PositionEncoding::Utf16).as_deref(), Some("hello there"));
    assert_eq!(apply("ab", &edit((0, 1), (0, 1), "XY"), PositionEncoding::Utf8).as_deref(), Some("aXYb"));
    assert_eq!(apply("a\nb\nc", &edit((0, 1), (2, 0), ""), PositionEncoding::Utf8).as_deref(), Some("ac"));
    assert_eq!(
        apply("old", &TextEdit { range: None, text: "new text".to_owned() }, PositionEncoding::Utf8).as_deref(),
        Some("new text")
    );
    // range that ends before it starts, or names no place
    assert_eq!(apply("hello", &edit((0, 3), (0, 1), "x"), PositionEncoding::Utf8), None);
    assert_eq!(apply("hello", &edit((0, 0), (1, 0), "x"), PositionEncoding::Utf8), None);
    assert_eq!(apply("hello", &edit((0, 9), (0, 9), "x"), PositionEncoding::Utf8), None);
    // the same range means different text in different encodings
    let e = edit((0, 0), (0, 2), "");
    assert_eq!(apply("😀x", &e, PositionEncoding::Utf16).as_deref(), Some("x"));
    assert_eq!(apply("😀x", &e, PositionEncoding::Utf32).as_deref(), Some(""));
    assert_eq!(apply("😀x", &e, PositionEncoding::Utf8), None);
}

#[test]
fn reversing_an_edit_restores_the_text() {
    let first_text = "fn main() {\n    body\n}\n";
    let forward = edit((1, 4), (1, 8), "let x = 1;\nlet y = 2;");
    let edited = apply(first_text, &forward, PositionEncoding::Utf16).unwrap();
    assert_eq!(edited, "fn main() {\n    let x = 1;\nlet y = 2;\n}\n");
    let backward = edit((1, 4), (2, 10), "body");
    assert_eq!(apply(&edited, &backward, PositionEncoding::Utf16).as_deref(), Some(first_text));
}

#[test]
fn edits_apply_in_order() {
    let edits = vec![edit((0, 0), (0, 0), "b"), edit((0, 0), (0, 0), "a"), edit((0, 2), (0, 2), "c")];
    let got = apply_edits(chars(""), &edits, PositionEncoding::Utf8).unwrap();
    assert_eq!(got.into_iter().collect::<String>(), "abc");
    let bad = vec![edit((0, 0), (0, 0), "b"), edit((5, 0), (5, 0), "a")];
    assert_eq!(apply_edits(chars(""), &bad, PositionEncoding::Utf8), None);
    assert_eq!(apply_edits(chars("x"), &vec![], PositionEncoding::Utf8), Some(chars("x")));
}

#[test]
fn store_opens_changes_and_closes() {
    let mut store = DocumentStore::new();
    assert_eq!(store.create_source("/a.typ".to_owned(), "one"), Ok(()));
    assert_eq!(store.create_source("/b.typ".to_owned(), "two"), Ok(()));
    assert_eq!(store.create_source("/a.typ".to_owned(), "again"), Err(StoreError::AlreadyOpen));
    assert_eq!(store.get("/a.typ").map(|s| s.text()).as_deref(), Some("one"));
    assert_eq!(store.get("/a.typ").map(|s| s.version), Some(0));
    assert_eq!(store.len(), 2);

    let e = vec![edit((0, 3), (0, 3), "!")];
    assert_eq!(store.edit_source("/a.typ", &e, PositionEncoding::Utf16), Ok(()));
    assert_eq!(store.edit_source("/a.typ", &e, PositionEncoding::Utf16), Ok(()));
    assert_eq!(store.get("/a.typ").map(|s| s.text()).as_deref(), Some("one!!"));
    assert_eq!(store.get("/a.typ").map(|s| s.version), Some(2));
    assert_eq!(store.get("/b.typ").map(|s| s.text()).as_deref(), Some("two"));
    assert_eq!(store.edit_source("/c.typ", &e, PositionEncoding::Utf16), Err(StoreError::NotOpen));

    // a change that does not apply drops the document
    let bad = vec![edit((7, 0), (7, 0), "x")];
    assert_eq!(store.edit_source("/a.typ", &bad, PositionEncoding::Utf16), Err(StoreError::BadEdit));
    assert!(!store.contains("/a.typ"));
    assert_eq!(store.create_source("/a.typ".to_owned(), "fresh"), Ok(()));

    assert_eq!(store.remove_source("/b.typ"), Ok(()));
    assert_eq!(store.remove_source("/b.typ"), Err(StoreError::NotOpen));
    assert!(store.get("/b.typ").is_none());
    assert_eq!(store.len(), 1);
}

#[test]
fn version_saturates() {
    let mut store = DocumentStore::new();
    store.create_source("/a".to_owned(), "").unwrap();
    store.sources[0].version = u64::MAX - 1;
    store.edit_source("/a", &vec![], PositionEncoding::Utf8).unwrap();
    assert_eq!(store.sources[0].version, u64::MAX);
    store.edit_source("/a", &vec![], PositionEncoding::Utf8).unwrap();
    assert_eq!(store.sources[0].version, u64::MAX);
}

fn view(store: &DocumentStore) -> Vec<(String, u64, String)> {
    let mut v: Vec<_> = store.sources.iter().map(|s| (s.path.clone(), s.version, s.text())).collect();
    v.sort();
    v
}

#[test]
fn replay_equals_applying_in_arrival_order() {
    let ops = vec![
        DocOp::Open { path: "/a".to_owned(), text: "a0".to_owned() },
        DocOp::Open { path: "/b".to_owned(), text: "b0".to_owned() },
        DocOp::Change { path: "/a".to_owned(), changes: vec![edit((0, 2), (0, 2), "+")] },
        DocOp::Open { path: "/c".to_owned(), text: "c0".to_owned() },
        DocOp::Close { path: "/b".to_owned() },
        DocOp::Change { path: "/c".to_owned(), changes: vec![edit((0, 0), (0, 1), "C")] },
        DocOp::Change { path: "/b".to_owned(), changes: vec![] },
        DocOp::Open { path: "/a".to_owned(), text: "ignored".to_owned() },
    ];
    let mut by_hand = DocumentStore::new();
    for op in ops.clone() {
        let _ = by_hand.apply(op, PositionEncoding::Utf16);
    }
    let replayed = DocumentStore::replay(ops.clone(), PositionEncoding::Utf16);
    assert_eq!(view(&replayed), view(&by_hand));
    assert_eq!(
        view(&replayed),
        vec![("/a".to_owned(), 1, "a0+".to_owned()), ("/c".to_owned(), 1, "C0".to_owned())]
    );
    // the document at a path is what the notifications about that path leave there
    for path in ["/a", "/b", "/c"] {
        let own: Vec<DocOp> = ops
            .iter()
            .filter(|op| match op {
                DocOp::Open { path: p, .. } | DocOp::Change { path: p, .. } | DocOp::Close { path: p } => p == path,
            })
            .cloned()
            .collect();
        let alone = DocumentStore::replay(own, PositionEncoding::Utf16);
        assert_eq!(
            alone.get(path).map(|s| (s.version, s.text())),
            replayed.get(path).map(|s| (s.version, s.text()))
        );
    }
}

#[test]
fn source_keeps_its_text() {
    let s = Source::new("/p".to_owned(), "héllo\n");
    assert_eq!(s.text(), "héllo\n");
    assert_eq!(s.version, 0);
    assert_eq!(s.path, "/p");
}
