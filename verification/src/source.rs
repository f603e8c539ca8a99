//! The text of an open document and the edits applied to it.
//!
//! A position names a line and a column; the column counts code units of the
//! session's position encoding. An edit replaces the text between two
//! positions, or the whole text where it carries no range.

use vstd::prelude::*;
use crate::text::{chars_of, string_of};

verus! {

/// The unit in which columns are counted.
#[derive(Debug, Clone, Copy, PartialEq, Eq, Structural)]
pub enum PositionEncoding {
    Utf8,
    Utf16,
    Utf32,
}

/// A place in a text: a line, counted from zero, and a column on it.
#[derive(Debug, Clone, Copy, PartialEq, Eq, Structural)]
pub struct Position {
    pub line: u32,
    pub character: u32,
}

/// The text from `start` up to `end`.
#[derive(Debug, Clone, Copy, PartialEq, Eq, Structural)]
pub struct Range {
    pub start: Position,
    pub end: Position,
}

/// One change of a document: new text for a range, or for the whole document
/// where there is no range.
#[derive(Debug, Clone, PartialEq, Eq)]
pub struct TextEdit {
    pub range: Option<Range>,
    pub text: String,
}

/// The number of code units that a character takes in an encoding.
pub open spec fn units(c: char, encoding: PositionEncoding) -> nat {
    match encoding {
        PositionEncoding::Utf32 => 1,
        PositionEncoding::Utf16 => if (c as u32) < 0x10000 {
            1
        } else {
            2
        },
        PositionEncoding::Utf8 => if (c as u32) < 0x80 {
            1
        } else if (c as u32) < 0x800 {
            2
        } else if (c as u32) < 0x10000 {
            3
        } else {
            4
        },
    }
}

/// The number of code units that a character takes in an encoding.
pub fn code_units(c: char, encoding: PositionEncoding) -> (n: u32)
    ensures
        n == units(c, encoding),
        1 <= n <= 4,
{
    let code: u32 = c as u32;
    match encoding {
        PositionEncoding::Utf32 => 1,
        PositionEncoding::Utf16 => if code < 0x10000 {
            1
        } else {
            2
        },
        PositionEncoding::Utf8 => if code < 0x80 {
            1
        } else if code < 0x800 {
            2
        } else if code < 0x10000 {
            3
        } else {
            4
        },
    }
}

/// The index, at or after `from`, at which the line begins that lies `lines`
/// line breaks further on; none where the text has fewer line breaks.
pub open spec fn seek_line(text: Seq<char>, from: int, lines: nat) -> Option<int>
    decreases text.len() - from,
{
    if lines == 0 {
        Some(from)
    } else if from >= text.len() {
        None
    } else if text[from] == '\n' {
        seek_line(text, from + 1, (lines - 1) as nat)
    } else {
        seek_line(text, from + 1, lines)
    }
}

/// The index reached from `from` after exactly `left` code units on the same
/// line; none where the line ends before that, or where the count falls
/// inside a character.
pub open spec fn seek_column(
    text: Seq<char>,
    from: int,
    left: nat,
    encoding: PositionEncoding,
) -> Option<int>
    decreases text.len() - from,
{
    if left == 0 {
        Some(from)
    } else if from >= text.len() || text[from] == '\n' {
        None
    } else if units(text[from], encoding) > left {
        None
    } else {
        seek_column(text, from + 1, (left - units(text[from], encoding)) as nat, encoding)
    }
}

/// The index in the text that a position names.
pub open spec fn spec_offset(text: Seq<char>, at: Position, encoding: PositionEncoding) -> Option<
    int,
> {
    match seek_line(text, 0, at.line as nat) {
        Some(start) => seek_column(text, start, at.character as nat, encoding),
        None => None,
    }
}

/// The text with the part from `start` up to `end` replaced.
pub open spec fn splice(text: Seq<char>, start: int, end: int, new: Seq<char>) -> Seq<char> {
    text.subrange(0, start) + new + text.subrange(end, text.len() as int)
}

/// The text after one edit; none where a position of its range names no
/// place in the text, or where the range ends before it starts.
pub open spec fn spec_apply_edit(
    text: Seq<char>,
    range: Option<Range>,
    new: Seq<char>,
    encoding: PositionEncoding,
) -> Option<Seq<char>> {
    match range {
        None => Some(new),
        Some(r) => match (spec_offset(text, r.start, encoding), spec_offset(text, r.end, encoding)) {
            (Some(s), Some(e)) => if 0 <= s <= e <= text.len() {
                Some(splice(text, s, e, new))
            } else {
                None
            },
            _ => None,
        },
    }
}

/// The text after the edits, applied one after another; none as soon as one
/// of them fails.
pub open spec fn spec_apply_edits(
    text: Seq<char>,
    edits: Seq<TextEdit>,
    encoding: PositionEncoding,
) -> Option<Seq<char>>
    decreases edits.len(),
{
    if edits.len() == 0 {
        Some(text)
    } else {
        match spec_apply_edit(text, edits[0].range, edits[0].text@, encoding) {
            Some(next) => spec_apply_edits(next, edits.drop_first(), encoding),
            None => None,
        }
    }
}

/// A found index lies between the start of the search and the end of the
/// text.
pub proof fn lemma_seek_line_bounds(text: Seq<char>, from: int, lines: nat)
    requires
        0 <= from <= text.len(),
    ensures
        seek_line(text, from, lines) is Some ==> from <= seek_line(text, from, lines)->0
            <= text.len(),
    decreases text.len() - from,
{
    if lines != 0 && from < text.len() {
        if text[from] == '\n' {
            lemma_seek_line_bounds(text, from + 1, (lines - 1) as nat);
        } else {
            lemma_seek_line_bounds(text, from + 1, lines);
        }
    }
}

/// A found index lies between the start of the search and the end of the
/// text.
pub proof fn lemma_seek_column_bounds(
    text: Seq<char>,
    from: int,
    left: nat,
    encoding: PositionEncoding,
)
    requires
        0 <= from <= text.len(),
    ensures
        seek_column(text, from, left, encoding) is Some ==> from <= seek_column(
            text,
            from,
            left,
            encoding,
        )->0 <= text.len(),
    decreases text.len() - from,
{
    if left != 0 && from < text.len() && text[from] != '\n' && units(text[from], encoding)
        <= left {
        lemma_seek_column_bounds(
            text,
            from + 1,
            (left - units(text[from], encoding)) as nat,
            encoding,
        );
    }
}

/// Replacing a range and then putting the old text back where the new text
/// stands gives the text as it was.
pub proof fn lemma_splice_inverse(text: Seq<char>, start: int, end: int, new: Seq<char>)
    requires
        0 <= start <= end <= text.len(),
    ensures
        splice(splice(text, start, end, new), start, start + new.len(), text.subrange(start, end))
            == text,
{
    let edited = splice(text, start, end, new);
    assert(edited.len() == start + new.len() + (text.len() - end));
    assert(splice(edited, start, start + new.len(), text.subrange(start, end)) =~= text);
}

/// Applying a range edit and then its reverse gives the text as it was.
/// The reverse of an edit replaces the range that the new text takes in the
/// edited document with the text that the edit removed; the law holds
/// wherever the positions of that range name those places.
pub proof fn lemma_edit_reversal(
    text: Seq<char>,
    range: Range,
    new: Seq<char>,
    back: Range,
    encoding: PositionEncoding,
)
    requires
        spec_apply_edit(text, Some(range), new, encoding) is Some,
        spec_offset(spec_apply_edit(text, Some(range), new, encoding)->0, back.start, encoding)
            == spec_offset(text, range.start, encoding),
        spec_offset(spec_apply_edit(text, Some(range), new, encoding)->0, back.end, encoding)
            == Some(spec_offset(text, range.start, encoding)->0 + new.len()),
    ensures
        spec_apply_edit(
            spec_apply_edit(text, Some(range), new, encoding)->0,
            Some(back),
            text.subrange(
                spec_offset(text, range.start, encoding)->0,
                spec_offset(text, range.end, encoding)->0,
            ),
            encoding,
        ) == Some(text),
{
    let s = spec_offset(text, range.start, encoding)->0;
    let e = spec_offset(text, range.end, encoding)->0;
    lemma_splice_inverse(text, s, e, new);
    let edited = splice(text, s, e, new);
    assert(edited.len() == s + new.len() + (text.len() - e));
}

/// The index in the text that a position names.
pub fn offset_of(text: &Vec<char>, at: Position, encoding: PositionEncoding) -> (r: Option<usize>)
    ensures
        match r {
            Some(i) => spec_offset(text@, at, encoding) == Some(i as int) && i <= text.len(),
            None => spec_offset(text@, at, encoding) is None,
        },
{
    let mut i: usize = 0;
    let mut lines: u32 = at.line;
    while lines > 0
        invariant
            i <= text.len(),
            seek_line(text@, 0, at.line as nat) == seek_line(text@, i as int, lines as nat),
        decreases text.len() - i,
    {
        if i >= text.len() {
            return None;
        }
        if text[i] == '\n' {
            lines -= 1;
        }
        i += 1;
    }
    let mut left: u32 = at.character;
    while left > 0
        invariant
            i <= text.len(),
            spec_offset(text@, at, encoding) == seek_column(
                text@,
                i as int,
                left as nat,
                encoding,
            ),
        decreases text.len() - i,
    {
        if i >= text.len() || text[i] == '\n' {
            return None;
        }
        let n = code_units(text[i], encoding);
        if n > left {
            return None;
        }
        left -= n;
        i += 1;
    }
    Some(i)
}

/// The text after one edit.
pub fn apply_edit(text: &Vec<char>, edit: &TextEdit, encoding: PositionEncoding) -> (r: Option<
    Vec<char>,
>)
    ensures
        match r {
            Some(t) => spec_apply_edit(text@, edit.range, edit.text@, encoding) == Some(t@),
            None => spec_apply_edit(text@, edit.range, edit.text@, encoding) is None,
        },
{
    let new = chars_of(edit.text.as_str());
    match edit.range {
        None => Some(new),
        Some(range) => {
            let start = match offset_of(text, range.start, encoding) {
                Some(s) => s,
                None => { return None; },
            };
            let end = match offset_of(text, range.end, encoding) {
                Some(e) => e,
                None => { return None; },
            };
            if start > end {
                return None;
            }
            let mut out: Vec<char> = Vec::new();
            let mut i: usize = 0;
            while i < start
                invariant
                    i <= start <= text.len(),
                    out@ == text@.subrange(0, i as int),
                decreases start - i,
            {
                out.push(text[i]);
                assert(text@.subrange(0, i + 1) =~= text@.subrange(0, i as int).push(
                    text@[i as int],
                ));
                i += 1;
            }
            let mut j: usize = 0;
            while j < new.len()
                invariant
                    j <= new.len(),
                    out@ == text@.subrange(0, start as int) + new@.subrange(0, j as int),
                decreases new.len() - j,
            {
                out.push(new[j]);
                assert(new@.subrange(0, j + 1) =~= new@.subrange(0, j as int).push(new@[j as int]));
                assert(out@ =~= text@.subrange(0, start as int) + new@.subrange(0, j + 1));
                j += 1;
            }
            assert(new@.subrange(0, new.len() as int) =~= new@);
            let mut k: usize = end;
            while k < text.len()
                invariant
                    end <= k <= text.len(),
                    out@ == text@.subrange(0, start as int) + new@ + text@.subrange(
                        end as int,
                        k as int,
                    ),
                decreases text.len() - k,
            {
                out.push(text[k]);
                assert(text@.subrange(end as int, k + 1) =~= text@.subrange(
                    end as int,
                    k as int,
                ).push(text@[k as int]));
                assert(out@ =~= text@.subrange(0, start as int) + new@ + text@.subrange(
                    end as int,
                    k + 1,
                ));
                k += 1;
            }
            Some(out)
        },
    }
}

/// The text after the edits, applied one after another.
pub fn apply_edits(text: Vec<char>, edits: &Vec<TextEdit>, encoding: PositionEncoding) -> (r:
    Option<Vec<char>>)
    ensures
        match r {
            Some(t) => spec_apply_edits(text@, edits@, encoding) == Some(t@),
            None => spec_apply_edits(text@, edits@, encoding) is None,
        },
{
    let mut cur = text;
    let mut i: usize = 0;
    assert(edits@.skip(0) =~= edits@);
    while i < edits.len()
        invariant
            i <= edits.len(),
            spec_apply_edits(text@, edits@, encoding) == spec_apply_edits(
                cur@,
                edits@.skip(i as int),
                encoding,
            ),
        decreases edits.len() - i,
    {
        let ghost rest = edits@.skip(i as int);
        assert(rest[0] == edits@[i as int]);
        assert(rest.drop_first() =~= edits@.skip(i + 1));
        match apply_edit(&cur, &edits[i], encoding) {
            Some(next) => {
                cur = next;
            },
            None => {
                return None;
            },
        }
        i += 1;
    }
    Some(cur)
}

/// What a source is, as plain values.
pub struct SourceView {
    pub path: Seq<char>,
    pub version: u64,
    pub text: Seq<char>,
}

/// An open document: its path, a version that advances with each change, and
/// its text.
#[derive(Debug, Clone, PartialEq, Eq)]
pub struct Source {
    pub path: String,
    pub version: u64,
    pub chars: Vec<char>,
}

/// The version after one more change.
pub open spec fn spec_next_version(version: u64) -> u64 {
    if version < u64::MAX {
        (version + 1) as u64
    } else {
        version
    }
}

impl View for Source {
    type V = SourceView;

    open spec fn view(&self) -> SourceView {
        SourceView { path: self.path@, version: self.version, text: self.chars@ }
    }
}

impl Source {
    /// A freshly opened document.
    pub fn new(path: String, text: &str) -> (r: Source)
        ensures
            r.path == path,
            r@ == (SourceView { path: path@, version: 0, text: text@ }),
    {
        Source { path, version: 0, chars: chars_of(text) }
    }

    /// The text of the document.
    pub fn text(&self) -> (r: String)
        ensures
            r@ == self@.text,
    {
        string_of(&self.chars)
    }
}

} // verus!
