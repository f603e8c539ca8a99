//! From document URIs to the paths that key the document store.
//!
//! A `file:` URI names the local file it stands for. An `untitled:` URI names
//! a buffer that has no file yet; its path is placed under the synthetic root
//! `/untitled`. Either way the path is brought into normal form.

use vstd::prelude::*;
use crate::json::JsonValue;
use crate::path::{clean, is_rooted, lemma_clean_idempotent, spec_clean, split, split_chars};
use crate::text::{chars_of, opt_view, push_chars, same_text, string_of, views};

verus! {

/// The scheme and the path of the URI that `url::Url::parse` reads from the
/// text; `None` where it reads none.
pub uninterp spec fn uri_parts(text: Seq<char>) -> Option<(Seq<char>, Seq<char>)>;

/// The text that percent-decoding and lossy UTF-8 decoding make of one path
/// segment.
pub uninterp spec fn percent_decoded(segment: Seq<char>) -> Seq<char>;

/// A scheme and a path as plain values.
pub open spec fn parts_view(r: Option<(String, String)>) -> Option<(Seq<char>, Seq<char>)> {
    match r {
        Some((scheme, path)) => Some((scheme@, path@)),
        None => None,
    }
}

/// `url::Url::parse`, with the scheme and the path of the URI it returns
/// (`Url::scheme`, `Url::path`). The result is named `uri_parts` of the text;
/// nothing else is claimed of it.
#[verifier::external_body]
fn parse_uri(text: &str) -> (r: Option<(String, String)>)
    ensures
        uri_parts(text@) == parts_view(r),
{
    match lsp_types::Url::parse(text) {
        Ok(url) => Some((url.scheme().to_owned(), url.path().to_owned())),
        Err(_) => None,
    }
}

/// `url::Url::to_file_path` on the URI parsed from the text: the local path
/// it stands for, where there is one and it is valid UTF-8. What path comes
/// back depends on the platform, so nothing is claimed of it.
#[verifier::external_body]
fn file_path_of(text: &str) -> (r: Option<String>)
{
    match lsp_types::Url::parse(text) {
        Ok(url) => match url.to_file_path() {
            Ok(path) => path.to_str().map(|p| p.to_owned()),
            Err(_) => None,
        },
        Err(_) => None,
    }
}

/// `percent_encoding::percent_decode_str` followed by `decode_utf8_lossy`:
/// the result is named `percent_decoded` of the segment.
#[verifier::external_body]
fn decode_segment(segment: &str) -> (r: String)
    ensures
        r@ == percent_decoded(segment@),
{
    percent_encoding::percent_decode_str(segment).decode_utf8_lossy().into_owned()
}

/// The root under which buffers without a file are placed.
pub open spec fn untitled_root() -> Seq<char> {
    "/untitled"@
}

/// The scheme of buffers without a file.
pub open spec fn untitled_scheme() -> Seq<char> {
    "untitled"@
}

/// The path without its leading `/`, if it has one.
pub open spec fn strip_lead(path: Seq<char>) -> Seq<char> {
    if is_rooted(path) {
        path.drop_first()
    } else {
        path
    }
}

/// Each segment decoded, with a `/` in front of it.
pub open spec fn decoded_join(segments: Seq<Seq<char>>) -> Seq<char>
    decreases segments.len(),
{
    if segments.len() == 0 {
        Seq::<char>::empty()
    } else {
        decoded_join(segments.drop_last()) + seq!['/'] + percent_decoded(segments.last())
    }
}

/// The store path of the untitled buffer whose URI has the given path: the
/// decoded segments under the synthetic root, in normal form.
pub open spec fn spec_untitled_path(path: Seq<char>) -> Seq<char> {
    spec_clean(untitled_root() + decoded_join(split(strip_lead(path))))
}

/// The store path of the untitled buffer whose URI has the given path.
pub fn untitled_path(path: &str) -> (r: String)
    ensures
        r@ == spec_untitled_path(path@),
{
    let chars = chars_of(path);
    let mut body: Vec<char> = Vec::new();
    let start: usize = if chars.len() > 0 && chars[0] == '/' {
        1
    } else {
        0
    };
    let mut i: usize = start;
    while i < chars.len()
        invariant
            start <= i <= chars.len(),
            body@ == chars@.subrange(start as int, i as int),
        decreases chars.len() - i,
    {
        body.push(chars[i]);
        assert(chars@.subrange(start as int, i + 1) =~= chars@.subrange(start as int, i as int).push(
            chars@[i as int],
        ));
        i += 1;
    }
    assert(body@ =~= strip_lead(path@));
    let segments = split_chars(&body);
    let mut out = "/untitled".to_owned();
    let mut k: usize = 0;
    assert(views(segments@).take(0) =~= Seq::<Seq<char>>::empty());
    assert(out@ =~= untitled_root() + decoded_join(views(segments@).take(0)));
    while k < segments.len()
        invariant
            k <= segments.len(),
            out@ == untitled_root() + decoded_join(views(segments@).take(k as int)),
        decreases segments.len() - k,
    {
        let ghost before = views(segments@).take(k as int);
        let ghost after = views(segments@).take(k + 1);
        assert(after.drop_last() =~= before);
        assert(after.last() == segments@[k as int]@);
        let segment = string_of(&segments[k]);
        let decoded = decode_segment(segment.as_str());
        out.push('/');
        let decoded_chars = chars_of(decoded.as_str());
        push_chars(&mut out, &decoded_chars);
        assert(out@ =~= untitled_root() + decoded_join(after));
        k += 1;
    }
    assert(views(segments@).take(segments.len() as int) =~= views(segments@));
    clean(out.as_str())
}

/// The store path for what `to_file_path` gave: the path in normal form, or
/// none where it gave none.
pub fn local_path(found: Option<String>) -> (r: Option<String>)
    ensures
        opt_view(r) == match found {
            Some(p) => Some(spec_clean(p@)),
            None => None,
        },
{
    match found {
        Some(p) => Some(clean(p.as_str())),
        None => None,
    }
}

/// What `as_path_` returns for a URI: nothing where the text is no URI; for
/// an untitled buffer its path under the synthetic root; for any other URI
/// either nothing or some path in normal form.
pub open spec fn spec_as_path(uri: Seq<char>, r: Option<Seq<char>>) -> bool {
    match uri_parts(uri) {
        None => r is None,
        Some((scheme, path)) => if scheme == untitled_scheme() {
            r == Some(spec_untitled_path(path))
        } else {
            r is Some ==> spec_clean(r->0) == r->0
        },
    }
}

/// The store path that a document URI stands for.
pub fn as_path_(uri: &str) -> (r: Option<String>)
    ensures
        spec_as_path(uri@, opt_view(r)),
{
    match parse_uri(uri) {
        None => None,
        Some((scheme, path)) => {
            if same_text(scheme.as_str(), "untitled") {
                Some(untitled_path(path.as_str()))
            } else {
                let found = file_path_of(uri);
                proof {
                    if found is Some {
                        lemma_clean_idempotent(found->0@);
                    }
                }
                local_path(found)
            }
        },
    }
}

/// The URI text of a text document identifier: its member `uri`, where that
/// is text.
pub open spec fn spec_document_uri(text_document: JsonValue) -> Option<Seq<char>> {
    match text_document.spec_get("uri"@) {
        Some(v) => v.spec_str(),
        None => None,
    }
}

/// The store path of the document that a text document identifier names;
/// nothing where the identifier has no URI.
pub fn as_path(text_document: &JsonValue) -> (r: Option<String>)
    ensures
        match spec_document_uri(*text_document) {
            None => r is None,
            Some(uri) => spec_as_path(uri, opt_view(r)),
        },
{
    match text_document.get("uri") {
        None => None,
        Some(v) => match v.as_str() {
            None => None,
            Some(uri) => as_path_(uri),
        },
    }
}

} // verus!
