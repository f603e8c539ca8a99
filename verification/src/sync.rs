//! Focus, pin and document synchronization.

use vstd::prelude::*;
use crate::decode::{
    all_changes, changes, changes_match, document_path, params_path, spec_text_document,
    spec_text_member, text_member,
};
use crate::focus::{effective_entry, spec_implicit_focus, FocusView};
use crate::json::JsonValue;
use crate::message::{
    internal_error, invalid_params, spec_internal_error, spec_invalid_params, LspResult,
};
use crate::server::TypstLanguageServer;
use crate::source::{spec_apply_edits, TextEdit};
use crate::store::{spec_change, spec_close, spec_open, StoreError};
use crate::text::opt_view;
use crate::work::{
    arg, bad_path_text, order, parse_path_or_null, spec_arg, spec_parse_path_or_null, work_views,
    Query, QueryView, WorkOrder, WorkOrderView,
};

verus! {

/// The message for parameters that name no document.
pub open spec fn bad_document_text() -> Seq<char> {
    "The parameters name no document"@
}

/// The message for opening a document that is open.
pub open spec fn already_open_text() -> Seq<char> {
    "The document is open already"@
}

/// The message for changing or closing a document that is not open.
pub open spec fn not_open_text() -> Seq<char> {
    "The document is not open"@
}

/// The message for changes that do not apply.
pub open spec fn bad_edit_text() -> Seq<char> {
    "The changes do not apply; the document has to be opened again"@
}

/// What a change of the pin does: the pin is set, and the main file is
/// forwarded to the primary compiler.
pub open spec fn pinned_spec(
    pre: TypstLanguageServer,
    post: TypstLanguageServer,
    entry: Option<Seq<char>>,
) -> bool {
    &&& post.focus@ == (FocusView { pinned: entry, ..pre.focus@ })
    &&& work_views(post.work@) == work_views(pre.work@).push(
        WorkOrderView::ChangeEntry { entry: effective_entry(post.focus@) },
    )
    &&& post == (TypstLanguageServer { focus: post.focus, work: post.work, ..pre })
}

/// What a change of the focus does: the focus is as given, and the main file
/// is forwarded to the primary compiler if it changed.
pub open spec fn focus_moved(
    pre: TypstLanguageServer,
    post: TypstLanguageServer,
    now: FocusView,
) -> bool {
    &&& post.focus@ == now
    &&& work_views(post.work@) == if effective_entry(now) != effective_entry(pre.focus@) {
        work_views(pre.work@).push(WorkOrderView::ChangeEntry { entry: effective_entry(now) })
    } else {
        work_views(pre.work@)
    }
}

/// What a change of the focus does, and that it does nothing else.
pub open spec fn focused_spec(
    pre: TypstLanguageServer,
    post: TypstLanguageServer,
    now: FocusView,
) -> bool {
    &&& focus_moved(pre, post, now)
    &&& post == (TypstLanguageServer { focus: post.focus, work: post.work, ..pre })
}

/// What opening a document at `path` does.
pub open spec fn opened(
    pre: TypstLanguageServer,
    post: TypstLanguageServer,
    path: Option<Seq<char>>,
    text: Seq<char>,
    r: LspResult<()>,
) -> bool {
    match path {
        None => post == pre && r is Err && r->Err_0.is(spec_invalid_params(), bad_document_text()),
        Some(p) => if pre.documents@.contains_key(p) {
            post == pre && r is Err && r->Err_0.is(spec_internal_error(), already_open_text())
        } else {
            &&& r is Ok
            &&& post.documents@ == spec_open(pre.documents@, p, text)
            &&& focus_moved(pre, post, spec_implicit_focus(pre.focus@, Some(p), 'o'))
            &&& post == (TypstLanguageServer {
                documents: post.documents,
                focus: post.focus,
                work: post.work,
                ..pre
            })
        },
    }
}

/// What `did_open` does: a document whose parameters hold no text or name
/// no document is refused; else the document is opened at its store path.
pub open spec fn did_open_spec(
    pre: TypstLanguageServer,
    post: TypstLanguageServer,
    params: JsonValue,
    r: LspResult<()>,
) -> bool {
    match spec_text_document(params) {
        None => opened(pre, post, None, Seq::empty(), r),
        Some(doc) => match spec_text_member(doc, "text"@) {
            None => opened(pre, post, None, Seq::empty(), r),
            Some(text) => exists|path: Option<Seq<char>>| #[trigger]
                params_path(params, path) && opened(pre, post, path, text, r),
        },
    }
}

/// What closing the document at `path` does.
pub open spec fn closed(
    pre: TypstLanguageServer,
    post: TypstLanguageServer,
    path: Option<Seq<char>>,
    r: LspResult<()>,
) -> bool {
    match path {
        None => post == pre && r is Err && r->Err_0.is(spec_invalid_params(), bad_document_text()),
        Some(p) => if !pre.documents@.contains_key(p) {
            post == pre && r is Err && r->Err_0.is(spec_internal_error(), not_open_text())
        } else {
            &&& r is Ok
            &&& post.documents@ == spec_close(pre.documents@, p)
            &&& post == (TypstLanguageServer { documents: post.documents, ..pre })
        },
    }
}

/// What changing the document at `path` does.
pub open spec fn changed(
    pre: TypstLanguageServer,
    post: TypstLanguageServer,
    path: Option<Seq<char>>,
    edits: Seq<TextEdit>,
    r: LspResult<()>,
) -> bool {
    match path {
        None => post == pre && r is Err && r->Err_0.is(spec_invalid_params(), bad_document_text()),
        Some(p) => if !pre.documents@.contains_key(p) {
            post == pre && r is Err && r->Err_0.is(spec_internal_error(), not_open_text())
        } else {
            &&& post.documents@ == spec_change(
                pre.documents@,
                p,
                edits,
                pre.const_config.position_encoding,
            )
            &&& post == (TypstLanguageServer { documents: post.documents, ..pre })
            &&& if spec_apply_edits(
                pre.documents@[p].text,
                edits,
                pre.const_config.position_encoding,
            ) is Some {
                r is Ok
            } else {
                r is Err && r->Err_0.is(spec_internal_error(), bad_edit_text())
            }
        },
    }
}

/// The member `contentChanges` of the parameters, where it is an array.
pub open spec fn spec_content_changes(params: JsonValue) -> Option<Seq<JsonValue>> {
    match params.spec_get("contentChanges"@) {
        Some(JsonValue::Array(items)) => Some(items@),
        _ => None,
    }
}

/// What `did_change` does: parameters without changes, or with a change of
/// the wrong shape, are refused; else the changes are applied in order to
/// the document at its store path.
pub open spec fn did_change_spec(
    pre: TypstLanguageServer,
    post: TypstLanguageServer,
    params: JsonValue,
    r: LspResult<()>,
) -> bool {
    match spec_content_changes(params) {
        None => changed(pre, post, None, Seq::empty(), r),
        Some(values) => if !all_changes(values) {
            changed(pre, post, None, Seq::empty(), r)
        } else {
            exists|path: Option<Seq<char>>, edits: Seq<TextEdit>|
                changes_match(values, edits) && #[trigger] params_path(params, path)
                    && #[trigger] changed(pre, post, path, edits, r)
        },
    }
}

/// What saving the document at `path` does.
pub open spec fn saved(
    pre: TypstLanguageServer,
    post: TypstLanguageServer,
    path: Option<Seq<char>>,
    r: LspResult<()>,
) -> bool {
    match path {
        None => post == pre && r is Err && r->Err_0.is(spec_invalid_params(), bad_document_text()),
        Some(p) => {
            &&& r is Ok
            &&& work_views(post.work@) == work_views(pre.work@).push(
                WorkOrderView::Background { query: QueryView::OnSaveExport { path: p } },
            )
            &&& post == (TypstLanguageServer { work: post.work, ..pre })
        },
    }
}

impl TypstLanguageServer {
    /// Forwards the main file to the primary compiler.
    fn forward_entry(&mut self)
        ensures
            work_views(final(self).work@) == work_views(old(self).work@).push(
                WorkOrderView::ChangeEntry { entry: effective_entry(old(self).focus@) },
            ),
            *final(self) == (TypstLanguageServer { work: final(self).work, ..*old(self) }),
    {
        let entry = self.focus.effective();
        order(&mut self.work, WorkOrder::ChangeEntry { entry });
    }

    /// Pins the main file to a document, or clears the pin, and forwards the
    /// main file to the primary compiler.
    pub fn pin_entry(&mut self, entry: Option<String>)
        ensures
            pinned_spec(*old(self), *final(self), opt_view(entry)),
    {
        let _ = self.focus.pin_entry(entry);
        self.forward_entry();
    }

    /// Focuses a document, or none, and says whether the main file changed.
    /// A changed main file is forwarded to the primary compiler.
    pub fn focus_entry(&mut self, entry: Option<String>) -> (changed: bool)
        ensures
            focused_spec(
                *old(self),
                *final(self),
                FocusView { focused: opt_view(entry), ..old(self).focus@ },
            ),
            changed == (effective_entry(final(self).focus@) != effective_entry(old(self).focus@)),
    {
        let changed = self.focus.focus_entry(entry);
        if changed {
            self.forward_entry();
        }
        changed
    }

    /// Focuses a document on behalf of an activity of the user. After a
    /// manual focus this does nothing.
    pub fn implicit_focus_entry(&mut self, entry: Option<String>, tag: char)
        ensures
            focused_spec(
                *old(self),
                *final(self),
                spec_implicit_focus(old(self).focus@, opt_view(entry), tag),
            ),
            old(self).focus@.ever_manual_focus ==> *final(self) == *old(self),
    {
        let changed = self.focus.implicit_focus_entry(entry, tag);
        if changed {
            self.forward_entry();
        }
    }

    /// The command `pinMain`: pins the document that the first argument
    /// names, or clears the pin where it is null.
    pub fn pin_document(&mut self, arguments: Vec<JsonValue>) -> (r: LspResult<JsonValue>)
        ensures
            match spec_parse_path_or_null(spec_arg(arguments@, 0)) {
                None => r is Err && r->Err_0.is(spec_invalid_params(), bad_path_text())
                    && *final(self) == *old(self),
                Some(entry) => r == Ok::<JsonValue, crate::message::ResponseError>(
                    JsonValue::Null,
                ) && pinned_spec(*old(self), *final(self), entry),
            },
    {
        let new_entry = match parse_path_or_null(arg(&arguments, 0)) {
            Ok(e) => e,
            Err(e) => { return Err(e); },
        };
        self.pin_entry(new_entry);
        Ok(JsonValue::Null)
    }

    /// The command `focusMain`: focuses the document that the first argument
    /// names by hand, or none where it is null.
    pub fn focus_document(&mut self, arguments: Vec<JsonValue>) -> (r: LspResult<JsonValue>)
        ensures
            match spec_parse_path_or_null(spec_arg(arguments@, 0)) {
                None => r is Err && r->Err_0.is(spec_invalid_params(), bad_path_text())
                    && *final(self) == *old(self),
                Some(entry) => r == Ok::<JsonValue, crate::message::ResponseError>(
                    JsonValue::Null,
                ) && focused_spec(
                    *old(self),
                    *final(self),
                    FocusView { focused: entry, ever_manual_focus: true, ..old(self).focus@ },
                ),
            },
    {
        let new_entry = match parse_path_or_null(arg(&arguments, 0)) {
            Ok(e) => e,
            Err(e) => { return Err(e); },
        };
        self.focus.mark_manual();
        let _ = self.focus_entry(new_entry);
        Ok(JsonValue::Null)
    }

    /// Opens a document at a store path and focuses it as an implicit focus
    /// of opening.
    pub fn open_document(&mut self, path: Option<String>, text: &str) -> (r: LspResult<()>)
        requires
            old(self).wf(),
        ensures
            final(self).wf(),
            opened(*old(self), *final(self), opt_view(path), text@, r),
    {
        let path = match path {
            Some(p) => p,
            None => { return Err(invalid_params("The parameters name no document")); },
        };
        let entry = path.clone();
        match self.documents.create_source(path, text) {
            Ok(()) => {},
            Err(_) => { return Err(internal_error("The document is open already")); },
        }
        self.implicit_focus_entry(Some(entry), 'o');
        Ok(())
    }

    /// The `textDocument/didOpen` notification.
    pub fn did_open(&mut self, params: &JsonValue) -> (r: LspResult<()>)
        requires
            old(self).wf(),
        ensures
            final(self).wf(),
            did_open_spec(*old(self), *final(self), *params, r),
    {
        let text = match params.get("textDocument") {
            Some(doc) => match text_member(doc, "text") {
                Some(t) => t,
                None => { return self.open_document(None, ""); },
            },
            None => { return self.open_document(None, ""); },
        };
        let path = document_path(params);
        let ghost p = opt_view(path);
        let r = self.open_document(path, text);
        assert(params_path(*params, p) && opened(*old(self), *self, p, text@, r));
        r
    }

    /// Closes the document at a store path.
    pub fn close_document(&mut self, path: Option<String>) -> (r: LspResult<()>)
        requires
            old(self).wf(),
        ensures
            final(self).wf(),
            closed(*old(self), *final(self), opt_view(path), r),
    {
        let path = match path {
            Some(p) => p,
            None => { return Err(invalid_params("The parameters name no document")); },
        };
        match self.documents.remove_source(path.as_str()) {
            Ok(()) => Ok(()),
            Err(_) => Err(internal_error("The document is not open")),
        }
    }

    /// The `textDocument/didClose` notification.
    pub fn did_close(&mut self, params: &JsonValue) -> (r: LspResult<()>)
        requires
            old(self).wf(),
        ensures
            final(self).wf(),
            exists|path: Option<Seq<char>>| #[trigger]
                params_path(*params, path) && closed(*old(self), *final(self), path, r),
    {
        let path = document_path(params);
        let ghost p = opt_view(path);
        let r = self.close_document(path);
        assert(params_path(*params, p) && closed(*old(self), *self, p, r));
        r
    }

    /// Applies changes to the document at a store path, in order, with
    /// columns counted in the session's position encoding.
    pub fn change_document(&mut self, path: Option<String>, edits: &Vec<TextEdit>) -> (r:
        LspResult<()>)
        requires
            old(self).wf(),
        ensures
            final(self).wf(),
            changed(*old(self), *final(self), opt_view(path), edits@, r),
    {
        let path = match path {
            Some(p) => p,
            None => { return Err(invalid_params("The parameters name no document")); },
        };
        let encoding = self.const_config.position_encoding;
        match self.documents.edit_source(path.as_str(), edits, encoding) {
            Ok(()) => Ok(()),
            Err(StoreError::BadEdit) => Err(
                internal_error("The changes do not apply; the document has to be opened again"),
            ),
            Err(_) => Err(internal_error("The document is not open")),
        }
    }

    /// The `textDocument/didChange` notification.
    pub fn did_change(&mut self, params: &JsonValue) -> (r: LspResult<()>)
        requires
            old(self).wf(),
        ensures
            final(self).wf(),
            did_change_spec(*old(self), *final(self), *params, r),
    {
        let edits = match params.get("contentChanges") {
            Some(JsonValue::Array(items)) => match changes(items) {
                Some(edits) => edits,
                None => { return self.change_document(None, &Vec::new()); },
            },
            _ => { return self.change_document(None, &Vec::new()); },
        };
        let path = document_path(params);
        let ghost p = opt_view(path);
        let r = self.change_document(path, &edits);
        assert(params_path(*params, p) && changed(*old(self), *self, p, edits@, r));
        r
    }

    /// Asks the primary compiler to export the saved document at a store
    /// path as the configuration says.
    pub fn save_document(&mut self, path: Option<String>) -> (r: LspResult<()>)
        ensures
            saved(*old(self), *final(self), opt_view(path), r),
    {
        let path = match path {
            Some(p) => p,
            None => { return Err(invalid_params("The parameters name no document")); },
        };
        order(&mut self.work, WorkOrder::Background { query: Query::OnSaveExport { path } });
        Ok(())
    }

    /// The `textDocument/didSave` notification.
    pub fn did_save(&mut self, params: &JsonValue) -> (r: LspResult<()>)
        ensures
            exists|path: Option<Seq<char>>| #[trigger]
                params_path(*params, path) && saved(*old(self), *final(self), path, r),
    {
        let path = document_path(params);
        let ghost p = opt_view(path);
        let r = self.save_document(path);
        assert(params_path(*params, p) && saved(*old(self), *self, p, r));
        r
    }
}

} // verus!
