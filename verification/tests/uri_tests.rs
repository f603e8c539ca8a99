use tinymist::path::clean;
use tinymist::uri::{as_path_, untitled_path};

#[test]
fn test_as_path() {
    let uri = lsp_types::Url::parse("untitled:/path/to/file").unwrap();
    assert_eq!(as_path_(uri.as_str()), Some(clean("/untitled/path/to/file")));

    let uri = lsp_types::Url::parse("untitled:/path/to/file%20with%20space").unwrap();
    assert_eq!(
        as_path_(uri.as_str()),
        Some(clean("/untitled/path/to/file with space"))
    );
}

#[test]
fn untitled_uri_maps_under_synthetic_root() {
    assert_eq!(
        as_path_("untitled:/path/to/file%20with%20space").as_deref(),
        Some("/untitled/path/to/file with space")
    );
    assert_eq!(untitled_path("/a/../b").as_str(), "/untitled/b");
    assert_eq!(untitled_path("Untitled-1").as_str(), "/untitled/Untitled-1");
}

#[test]
fn file_uri_maps_to_its_path() {
    assert_eq!(as_path_("file:///tmp/a%20b/main.typ").as_deref(), Some("/tmp/a b/main.typ"));
    assert_eq!(as_path_("file:///tmp//x/./y").as_deref(), Some("/tmp/x/y"));
}

#[test]
fn text_that_is_no_uri_gives_no_path() {
    assert_eq!(as_path_("not a uri"), None);
    assert_eq!(as_path_(""), None);
}

#[test]
fn percent_decoding_is_not_the_identity() {
    assert_ne!(untitled_path("/a%20b").as_str(), "/untitled/a%20b");
}
