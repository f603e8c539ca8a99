use tinymist::path::clean;

#[test]
fn clean_removes_redundant_parts() {
    assert_eq!(clean("/a//b/./c/../d"), "/a/b/d");
    assert_eq!(clean("a/../.."), "..");
    assert_eq!(clean(""), ".");
    assert_eq!(clean("/.."), "/");
    assert_eq!(clean("/"), "/");
}

#[test]
fn clean_is_idempotent_on_samples() {
    for p in ["/a//b/./c/../d", "../../x/", "", "/", "a/b/../../..", "./."] {
        let once = clean(p);
        assert_eq!(clean(&once), once);
    }
}
