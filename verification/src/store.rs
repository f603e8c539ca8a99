//! The documents that the editor has open, by path.

use vstd::prelude::*;
use crate::source::{
    apply_edits, spec_apply_edits, spec_next_version, PositionEncoding, Source, SourceView,
    TextEdit,
};
use crate::text::{reversed, same_text};

verus! {

/// Why a change of the store was refused.
#[derive(Debug, Clone, Copy, PartialEq, Eq, Structural)]
pub enum StoreError {
    /// The path is open already.
    AlreadyOpen,
    /// The path is not open.
    NotOpen,
    /// An edit did not apply; the document was dropped and has to be opened
    /// again.
    BadEdit,
}

/// One notification of document synchronization.
#[derive(Debug, Clone, PartialEq, Eq)]
pub enum DocOp {
    Open { path: String, text: String },
    Change { path: String, changes: Vec<TextEdit> },
    Close { path: String },
}

/// The open documents. No path occurs twice.
#[derive(Debug, Clone, PartialEq, Eq)]
pub struct DocumentStore {
    pub sources: Vec<Source>,
}

/// Whether some source has the path.
pub open spec fn has_path(sources: Seq<Source>, path: Seq<char>) -> bool {
    exists|i: int| 0 <= i < sources.len() && (#[trigger] sources[i]).path@ == path
}

/// The index of a source with the path.
pub open spec fn index_of(sources: Seq<Source>, path: Seq<char>) -> int {
    choose|i: int| 0 <= i < sources.len() && (#[trigger] sources[i]).path@ == path
}

/// The store after a document was opened: unchanged where the path is open
/// already.
pub open spec fn spec_open(
    m: Map<Seq<char>, SourceView>,
    path: Seq<char>,
    text: Seq<char>,
) -> Map<Seq<char>, SourceView> {
    if m.contains_key(path) {
        m
    } else {
        m.insert(path, SourceView { path, version: 0, text })
    }
}

/// The store after a document was closed.
pub open spec fn spec_close(m: Map<Seq<char>, SourceView>, path: Seq<char>) -> Map<
    Seq<char>,
    SourceView,
> {
    m.remove(path)
}

/// The store after a document was changed: unchanged where the path is not
/// open; with the new text and the next version where all edits apply;
/// without the document where one does not.
pub open spec fn spec_change(
    m: Map<Seq<char>, SourceView>,
    path: Seq<char>,
    changes: Seq<TextEdit>,
    encoding: PositionEncoding,
) -> Map<Seq<char>, SourceView> {
    if !m.contains_key(path) {
        m
    } else {
        match spec_apply_edits(m[path].text, changes, encoding) {
            Some(text) => m.insert(
                path,
                SourceView { path, version: spec_next_version(m[path].version), text },
            ),
            None => m.remove(path),
        }
    }
}

impl DocOp {
    /// The path that the notification is about.
    pub open spec fn spec_path(&self) -> Seq<char> {
        match self {
            DocOp::Open { path, .. } => path@,
            DocOp::Change { path, .. } => path@,
            DocOp::Close { path } => path@,
        }
    }
}

/// The store after one notification.
pub open spec fn spec_apply_op(
    m: Map<Seq<char>, SourceView>,
    op: DocOp,
    encoding: PositionEncoding,
) -> Map<Seq<char>, SourceView> {
    match op {
        DocOp::Open { path, text } => spec_open(m, path@, text@),
        DocOp::Change { path, changes } => spec_change(m, path@, changes@, encoding),
        DocOp::Close { path } => spec_close(m, path@),
    }
}

/// Whether a notification is taken or why it is refused: opening what is
/// open, changing or closing what is not, and a change that does not apply
/// are refused.
pub open spec fn spec_apply_result(
    m: Map<Seq<char>, SourceView>,
    op: DocOp,
    encoding: PositionEncoding,
) -> Result<(), StoreError> {
    match op {
        DocOp::Open { path, .. } => if m.contains_key(path@) {
            Err(StoreError::AlreadyOpen)
        } else {
            Ok(())
        },
        DocOp::Change { path, changes } => if !m.contains_key(path@) {
            Err(StoreError::NotOpen)
        } else if spec_apply_edits(m[path@].text, changes@, encoding) is Some {
            Ok(())
        } else {
            Err(StoreError::BadEdit)
        },
        DocOp::Close { path } => if m.contains_key(path@) {
            Ok(())
        } else {
            Err(StoreError::NotOpen)
        },
    }
}

/// The store after the notifications were applied to `m` in order.
pub open spec fn spec_apply_ops(
    m: Map<Seq<char>, SourceView>,
    ops: Seq<DocOp>,
    encoding: PositionEncoding,
) -> Map<Seq<char>, SourceView>
    decreases ops.len(),
{
    if ops.len() == 0 {
        m
    } else {
        spec_apply_op(spec_apply_ops(m, ops.drop_last(), encoding), ops.last(), encoding)
    }
}

/// The store that the notifications build from nothing.
pub open spec fn spec_replay(ops: Seq<DocOp>, encoding: PositionEncoding) -> Map<
    Seq<char>,
    SourceView,
> {
    spec_apply_ops(Map::empty(), ops, encoding)
}

/// The notifications that are about the given path, in their order.
pub open spec fn ops_on(ops: Seq<DocOp>, path: Seq<char>) -> Seq<DocOp> {
    ops.filter(|op: DocOp| op.spec_path() == path)
}

/// A notification leaves the documents at other paths as they are.
pub proof fn lemma_op_keeps_other_paths(
    m: Map<Seq<char>, SourceView>,
    op: DocOp,
    encoding: PositionEncoding,
    other: Seq<char>,
)
    requires
        other != op.spec_path(),
    ensures
        spec_apply_op(m, op, encoding).contains_key(other) == m.contains_key(other),
        m.contains_key(other) ==> spec_apply_op(m, op, encoding)[other] == m[other],
{
}

/// What a notification does to the document at its own path depends on that
/// document alone.
pub proof fn lemma_op_is_local(
    m1: Map<Seq<char>, SourceView>,
    m2: Map<Seq<char>, SourceView>,
    op: DocOp,
    encoding: PositionEncoding,
)
    requires
        m1.contains_key(op.spec_path()) == m2.contains_key(op.spec_path()),
        m1.contains_key(op.spec_path()) ==> m1[op.spec_path()] == m2[op.spec_path()],
    ensures
        spec_apply_op(m1, op, encoding).contains_key(op.spec_path()) == spec_apply_op(
            m2,
            op,
            encoding,
        ).contains_key(op.spec_path()),
        spec_apply_op(m1, op, encoding).contains_key(op.spec_path()) ==> spec_apply_op(
            m1,
            op,
            encoding,
        )[op.spec_path()] == spec_apply_op(m2, op, encoding)[op.spec_path()],
{
}

/// Notifications on different paths do not touch each other: the document
/// that a run of notifications leaves at a path is the one that the
/// notifications about that path leave there by themselves.
pub proof fn lemma_replay_by_path(ops: Seq<DocOp>, encoding: PositionEncoding, path: Seq<char>)
    ensures
        spec_replay(ops, encoding).contains_key(path) == spec_replay(
            ops_on(ops, path),
            encoding,
        ).contains_key(path),
        spec_replay(ops, encoding).contains_key(path) ==> spec_replay(ops, encoding)[path]
            == spec_replay(ops_on(ops, path), encoding)[path],
    decreases ops.len(),
{
    let pred = |op: DocOp| op.spec_path() == path;
    if ops.len() == 0 {
        assert(ops.filter(pred) =~= Seq::<DocOp>::empty()) by {
            reveal(Seq::filter);
        }
    } else {
        let init = ops.drop_last();
        let last = ops.last();
        lemma_replay_by_path(init, encoding, path);
        assert(ops.filter(pred) == if pred(last) {
            init.filter(pred).push(last)
        } else {
            init.filter(pred)
        }) by {
            reveal(Seq::filter);
        }
        let before = spec_replay(init, encoding);
        let own = spec_replay(ops_on(init, path), encoding);
        if last.spec_path() == path {
            let picked = ops_on(init, path).push(last);
            assert(picked.drop_last() =~= ops_on(init, path));
            assert(picked.last() == last);
            lemma_op_is_local(before, own, last, encoding);
        } else {
            lemma_op_keeps_other_paths(before, last, encoding, path);
        }
    }
}

impl View for DocumentStore {
    type V = Map<Seq<char>, SourceView>;

    open spec fn view(&self) -> Map<Seq<char>, SourceView> {
        Map::new(
            |p: Seq<char>| has_path(self.sources@, p),
            |p: Seq<char>| self.sources@[index_of(self.sources@, p)]@,
        )
    }
}

impl DocumentStore {
    /// Whether no path occurs twice.
    pub open spec fn wf(&self) -> bool {
        forall|i: int, j: int|
            0 <= i < j < self.sources@.len() ==> (#[trigger] self.sources@[i]).path@ != (
            #[trigger] self.sources@[j]).path@
    }

    /// Whether the store is well-formed, found out by looking.
    pub fn is_wf(&self) -> (r: bool)
        ensures
            r == self.wf(),
    {
        let mut j: usize = 0;
        while j < self.sources.len()
            invariant
                j <= self.sources.len(),
                forall|a: int, b: int|
                    0 <= a < b < j ==> (#[trigger] self.sources@[a]).path@ != (
                    #[trigger] self.sources@[b]).path@,
            decreases self.sources.len() - j,
        {
            let mut i: usize = 0;
            while i < j
                invariant
                    i <= j < self.sources.len(),
                    forall|a: int|
                        0 <= a < i ==> (#[trigger] self.sources@[a]).path@
                            != self.sources@[j as int].path@,
                decreases j - i,
            {
                if same_text(self.sources[i].path.as_str(), self.sources[j].path.as_str()) {
                    assert(self.sources@[i as int].path@ == self.sources@[j as int].path@);
                    return false;
                }
                i += 1;
            }
            j += 1;
        }
        true
    }

    /// The store with no document.
    pub fn new() -> (r: DocumentStore)
        ensures
            r.wf(),
            r@ == Map::<Seq<char>, SourceView>::empty(),
    {
        let r = DocumentStore { sources: Vec::new() };
        assert(r@ =~= Map::<Seq<char>, SourceView>::empty());
        r
    }

    /// Where the document with the path stands.
    fn position(&self, path: &str) -> (r: Option<usize>)
        requires
            self.wf(),
        ensures
            match r {
                Some(i) => i < self.sources@.len() && self.sources@[i as int].path@ == path@
                    && has_path(self.sources@, path@) && index_of(self.sources@, path@) == i,
                None => !has_path(self.sources@, path@),
            },
    {
        let mut i: usize = 0;
        while i < self.sources.len()
            invariant
                self.wf(),
                i <= self.sources.len(),
                forall|k: int| 0 <= k < i ==> (#[trigger] self.sources@[k]).path@ != path@,
            decreases self.sources.len() - i,
        {
            if same_text(self.sources[i].path.as_str(), path) {
                proof {
                    assert(self.sources@[i as int].path@ == path@);
                    let k = index_of(self.sources@, path@);
                    assert(self.sources@[k].path@ == path@);
                    assert(k == i);
                }
                return Some(i);
            }
            i += 1;
        }
        None
    }

    /// The number of open documents.
    pub fn len(&self) -> (n: usize)
        ensures
            n == self.sources@.len(),
    {
        self.sources.len()
    }

    /// Whether the path is open.
    pub fn contains(&self, path: &str) -> (r: bool)
        requires
            self.wf(),
        ensures
            r == self@.contains_key(path@),
    {
        self.position(path).is_some()
    }

    /// The open document at the path.
    pub fn get(&self, path: &str) -> (r: Option<&Source>)
        requires
            self.wf(),
        ensures
            match r {
                Some(s) => self@.contains_key(path@) && self@[path@] == s@ && s.path@ == path@,
                None => !self@.contains_key(path@),
            },
    {
        match self.position(path) {
            Some(i) => Some(&self.sources[i]),
            None => None,
        }
    }

    /// Opens a document. A path that is open already is an error, and the
    /// store stays as it is.
    pub fn create_source(&mut self, path: String, text: &str) -> (r: Result<(), StoreError>)
        requires
            old(self).wf(),
        ensures
            final(self).wf(),
            final(self)@ == spec_open(old(self)@, path@, text@),
            old(self)@.contains_key(path@) ==> *final(self) == *old(self),
            r == if old(self)@.contains_key(path@) {
                Err::<(), StoreError>(StoreError::AlreadyOpen)
            } else {
                Ok(())
            },
    {
        if self.position(path.as_str()).is_some() {
            return Err(StoreError::AlreadyOpen);
        }
        let ghost key = path@;
        let source = Source::new(path, text);
        self.sources.push(source);
        proof {
            let before = old(self).sources@;
            let after = self.sources@;
            assert(after[before.len() as int].path@ == key);
            assert forall|p: Seq<char>| has_path(after, p) == (p == key || has_path(before, p)) by {
                if has_path(before, p) {
                    let i = index_of(before, p);
                    assert(after[i].path@ == p);
                }
            }
            assert forall|p: Seq<char>| has_path(after, p) implies #[trigger] self@[p] == (if p
                == key {
                SourceView { path: key, version: 0, text: text@ }
            } else {
                old(self)@[p]
            }) by {
                let i = index_of(after, p);
                if p != key {
                    let j = index_of(before, p);
                    assert(after[j].path@ == p);
                    assert(i == j);
                } else {
                    assert(i == before.len());
                }
            }
            assert(self@ =~= old(self)@.insert(
                key,
                SourceView { path: key, version: 0, text: text@ },
            ));
        }
        Ok(())
    }

    /// Closes a document. A path that is not open is an error.
    pub fn remove_source(&mut self, path: &str) -> (r: Result<(), StoreError>)
        requires
            old(self).wf(),
        ensures
            final(self).wf(),
            final(self)@ == spec_close(old(self)@, path@),
            !old(self)@.contains_key(path@) ==> *final(self) == *old(self),
            r == if old(self)@.contains_key(path@) {
                Ok::<(), StoreError>(())
            } else {
                Err(StoreError::NotOpen)
            },
    {
        match self.position(path) {
            None => {
                assert(self@ =~= old(self)@.remove(path@));
                Err(StoreError::NotOpen)
            },
            Some(at) => {
                self.sources.remove(at);
                proof {
                    self.lemma_removed(*old(self), at as int);
                }
                Ok(())
            },
        }
    }

    /// What the store is after the source at `at` left it.
    proof fn lemma_removed(&self, before: DocumentStore, at: int)
        requires
            before.wf(),
            0 <= at < before.sources@.len(),
            self.sources@ == before.sources@.remove(at),
        ensures
            self.wf(),
            self@ == before@.remove(before.sources@[at].path@),
    {
        let old_seq = before.sources@;
        let new_seq = self.sources@;
        let key = old_seq[at].path@;
        assert forall|k: int| 0 <= k < new_seq.len() implies #[trigger] new_seq[k] == old_seq[if k
            < at {
            k
        } else {
            k + 1
        }] by {}
        assert forall|p: Seq<char>| has_path(new_seq, p) == (p != key && has_path(old_seq, p)) by {
            if has_path(new_seq, p) {
                let k = index_of(new_seq, p);
                let j = if k < at {
                    k
                } else {
                    k + 1
                };
                assert(old_seq[j].path@ == p);
            }
            if p != key && has_path(old_seq, p) {
                let j = index_of(old_seq, p);
                let k = if j < at {
                    j
                } else {
                    j - 1
                };
                assert(new_seq[k].path@ == p);
            }
        }
        assert forall|p: Seq<char>| has_path(new_seq, p) implies #[trigger] self@[p]
            == before@[p] by {
            let k = index_of(new_seq, p);
            let j = if k < at {
                k
            } else {
                k + 1
            };
            assert(old_seq[j].path@ == p);
            assert(index_of(old_seq, p) == j);
        }
        assert(self@ =~= before@.remove(key));
    }

    /// Applies the changes to a document, one after another, with columns
    /// counted in the given encoding. A path that is not open is an error.
    /// Where a change does not apply, the document is dropped from the
    /// store and has to be opened again.
    pub fn edit_source(
        &mut self,
        path: &str,
        changes: &Vec<TextEdit>,
        encoding: PositionEncoding,
    ) -> (r: Result<(), StoreError>)
        requires
            old(self).wf(),
        ensures
            final(self).wf(),
            final(self)@ == spec_change(old(self)@, path@, changes@, encoding),
            !old(self)@.contains_key(path@) ==> *final(self) == *old(self),
            r == if !old(self)@.contains_key(path@) {
                Err::<(), StoreError>(StoreError::NotOpen)
            } else if spec_apply_edits(old(self)@[path@].text, changes@, encoding) is Some {
                Ok(())
            } else {
                Err(StoreError::BadEdit)
            },
    {
        let at = match self.position(path) {
            None => { return Err(StoreError::NotOpen); },
            Some(at) => at,
        };
        let source = self.sources.remove(at);
        proof {
            self.lemma_removed(*old(self), at as int);
        }
        let ghost without = *self;
        let ghost key = source.path@;
        assert(old(self)@[path@] == source@);
        match apply_edits(source.chars, changes, encoding) {
            None => Err(StoreError::BadEdit),
            Some(chars) => {
                let version = if source.version < u64::MAX {
                    source.version + 1
                } else {
                    source.version
                };
                let edited = Source { path: source.path, version, chars };
                self.sources.push(edited);
                proof {
                    let before = without.sources@;
                    let after = self.sources@;
                    assert(!has_path(before, key));
                    assert(after[before.len() as int].path@ == key);
                    assert forall|i: int, j: int| 0 <= i < j < after.len() implies (
                    #[trigger] after[i]).path@ != (#[trigger] after[j]).path@ by {
                        if j == before.len() {
                            assert(before[i].path@ != key);
                        }
                    }
                    assert forall|p: Seq<char>| has_path(after, p) == (p == key || has_path(
                        before,
                        p,
                    )) by {
                        if has_path(before, p) {
                            let i = index_of(before, p);
                            assert(after[i].path@ == p);
                        }
                    }
                    assert forall|p: Seq<char>| has_path(after, p) implies #[trigger] self@[p] == (
                    if p == key {
                        edited@
                    } else {
                        without@[p]
                    }) by {
                        let i = index_of(after, p);
                        if p != key {
                            let j = index_of(before, p);
                            assert(after[j].path@ == p);
                            assert(i == j);
                        } else {
                            assert(i == before.len());
                        }
                    }
                    assert(without@ == old(self)@.remove(key));
                    assert forall|p: Seq<char>| self@.contains_key(p) == old(self)@.insert(
                        key,
                        edited@,
                    ).contains_key(p) by {
                        assert(without@.contains_key(p) == has_path(before, p));
                    }
                    assert forall|p: Seq<char>| self@.contains_key(p) implies #[trigger] self@[p]
                        == old(self)@.insert(key, edited@)[p] by {
                        assert(has_path(after, p));
                        if p != key {
                            assert(without@.contains_key(p));
                        }
                    }
                    assert(self@ =~= old(self)@.insert(key, edited@));
                }
                Ok(())
            },
        }
    }

    /// Applies one notification of document synchronization.
    pub fn apply(&mut self, op: DocOp, encoding: PositionEncoding) -> (r: Result<(), StoreError>)
        requires
            old(self).wf(),
        ensures
            final(self).wf(),
            final(self)@ == spec_apply_op(old(self)@, op, encoding),
            r == spec_apply_result(old(self)@, op, encoding),
    {
        match op {
            DocOp::Open { path, text } => self.create_source(path, text.as_str()),
            DocOp::Change { path, changes } => self.edit_source(path.as_str(), &changes, encoding),
            DocOp::Close { path } => self.remove_source(path.as_str()),
        }
    }

    /// The store that the notifications build from nothing, applied in the
    /// order in which they arrived. Notifications that are refused leave no
    /// trace beyond what they did to the store.
    pub fn replay(ops: Vec<DocOp>, encoding: PositionEncoding) -> (r: DocumentStore)
        ensures
            r.wf(),
            r@ == spec_replay(ops@, encoding),
    {
        let mut store = DocumentStore::new();
        let mut rest = reversed(ops);
        let ghost mut done: Seq<DocOp> = Seq::empty();
        assert(ops@ =~= done + rest@.reverse());
        while rest.len() > 0
            invariant
                store.wf(),
                ops@ == done + rest@.reverse(),
                store@ == spec_replay(done, encoding),
            decreases rest.len(),
        {
            let ghost before_rest = rest@;
            let op = rest.pop().unwrap();
            proof {
                assert(before_rest =~= rest@.push(op));
                assert(before_rest.reverse() =~= seq![op] + rest@.reverse());
                assert(done.push(op).drop_last() =~= done);
                assert(done.push(op) + rest@.reverse() =~= done + before_rest.reverse());
                done = done.push(op);
            }
            let _ = store.apply(op, encoding);
        }
        assert(ops@ =~= done);
        store
    }
}

} // verus!
