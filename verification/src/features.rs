//! The language features: each request becomes a query for the primary
//! compiler, and formatting becomes work for the format worker.

use vstd::prelude::*;
use crate::commands::deferred;
use crate::config::FormatterMode;
use crate::decode::{document_path, params_path, position, spec_position, spec_text_member, text_member};
use crate::dispatch::RequestKind;
use crate::focus::spec_implicit_focus;
use crate::json::JsonValue;
use crate::message::{
    internal_error, invalid_params, spec_internal_error, spec_invalid_params, LspResult,
    RequestId, ResponseError,
};
use crate::server::TypstLanguageServer;
use crate::sync::{bad_document_text, focused_spec};
use crate::text::{joined, opt_view};
use crate::work::{order, provided_for, Outcome, Query, QueryView, WorkOrder, WorkOrderView};

verus! {

/// The message for parameters that lack what their method needs.
pub open spec fn bad_params_text() -> Seq<char> {
    "The parameters do not have the shape that the method takes"@
}

/// The start of the message for a document that cannot be formatted.
pub open spec fn format_failed_text() -> Seq<char> {
    "could not format document: "@
}

/// The message for a formatting request on a document that is not open.
pub open spec fn no_source_text() -> Seq<char> {
    "the document is not open"@
}

/// The message for a formatting request without a format worker.
pub open spec fn no_formatter_text() -> Seq<char> {
    "formatter thread is not available"@
}

/// Whether requests of this kind name a position in a document.
pub open spec fn needs_position(kind: RequestKind) -> bool {
    match kind {
        RequestKind::GotoDefinition | RequestKind::GotoDeclaration | RequestKind::References
        | RequestKind::Hover | RequestKind::DocumentHighlight | RequestKind::SignatureHelp
        | RequestKind::PrepareRename | RequestKind::Rename | RequestKind::Completion => true,
        _ => false,
    }
}

/// The member that requests of this kind must carry as text, if any.
pub open spec fn needed_text(kind: RequestKind) -> Option<Seq<char>> {
    match kind {
        RequestKind::Rename => Some("newName"@),
        RequestKind::SemanticTokensFullDelta => Some("previousResultId"@),
        _ => None,
    }
}

/// The tag under which requests of this kind move the focus, if they do.
pub open spec fn focus_tag(kind: RequestKind) -> Option<char> {
    match kind {
        RequestKind::Hover => Some('h'),
        RequestKind::FoldingRange => Some('f'),
        RequestKind::SemanticTokensFull | RequestKind::SemanticTokensFullDelta => Some('t'),
        _ => None,
    }
}

/// Whether the parameters have what requests of this kind must carry beside
/// the document.
pub open spec fn shape_ok(kind: RequestKind, params: JsonValue) -> bool {
    &&& needs_position(kind) ==> params.spec_get("position"@) is Some && spec_position(
        params.spec_get("position"@)->0,
    ) is Some
    &&& needed_text(kind) is Some ==> spec_text_member(params, needed_text(kind)->0) is Some
}

/// Whether a completion was asked for by the user: the trigger kind of its
/// context is 1.
pub open spec fn spec_explicit(params: JsonValue) -> bool {
    match params.spec_get("context"@) {
        Some(context) => match context.spec_get("triggerKind"@) {
            Some(kind) => kind.spec_u32() == Some(1u32),
            None => false,
        },
        None => false,
    }
}

/// The query of a language feature on the document at `path`.
pub open spec fn spec_query(
    line_folding_only: bool,
    kind: RequestKind,
    path: Seq<char>,
    params: JsonValue,
) -> QueryView {
    match kind {
        RequestKind::FoldingRange => QueryView::FoldingRange { path, line_folding_only },
        RequestKind::Completion => QueryView::Completion {
            path,
            params: params@,
            explicit: spec_explicit(params),
        },
        _ => QueryView::Document { kind, path, params: params@ },
    }
}

/// What a language feature does for the document at `path`: parameters that
/// name no document or lack what the feature needs are refused; else the
/// query is planned and, for the features that follow the user, the focus
/// moves to the document.
pub open spec fn language_on(
    pre: TypstLanguageServer,
    post: TypstLanguageServer,
    kind: RequestKind,
    params: JsonValue,
    path: Option<Seq<char>>,
    r: LspResult<Query>,
) -> bool {
    if path is Some && shape_ok(kind, params) {
        &&& r is Ok
        &&& r->Ok_0@ == spec_query(
            pre.const_config.doc_line_folding_only,
            kind,
            path->0,
            params,
        )
        &&& match focus_tag(kind) {
            Some(tag) => focused_spec(pre, post, spec_implicit_focus(pre.focus@, path, tag)),
            None => post == pre,
        }
    } else {
        post == pre && r is Err && r->Err_0.is(spec_invalid_params(), bad_params_text())
    }
}

/// The query of a workspace symbol request: the pattern is the query text,
/// and no pattern where the text is empty.
pub open spec fn plans_symbol(params: JsonValue, r: LspResult<Query>) -> bool {
    match spec_text_member(params, "query"@) {
        Some(q) => r is Ok && r->Ok_0@ == (QueryView::Symbol {
            pattern: if q.len() > 0 {
                Some(q)
            } else {
                None
            },
        }),
        None => r is Err && r->Err_0.is(spec_invalid_params(), bad_params_text()),
    }
}

/// What a language feature does.
pub open spec fn language_spec(
    pre: TypstLanguageServer,
    post: TypstLanguageServer,
    kind: RequestKind,
    params: JsonValue,
    r: LspResult<Query>,
) -> bool {
    exists|path: Option<Seq<char>>| #[trigger]
        params_path(params, path) && language_on(pre, post, kind, params, path, r)
}

/// The work order of a formatting request for the document at `path`.
pub open spec fn spec_format_order(
    pre: TypstLanguageServer,
    id: RequestId,
    path: Option<Seq<char>>,
) -> Result<WorkOrderView, (i32, Seq<char>)> {
    match path {
        None => Err((spec_invalid_params(), bad_document_text())),
        Some(p) => if !pre.documents@.contains_key(p) {
            Err((spec_internal_error(), format_failed_text() + no_source_text()))
        } else if !pre.format_thread {
            Err((spec_internal_error(), format_failed_text() + no_formatter_text()))
        } else {
            Ok(WorkOrderView::Format { id: id.key(), path: p, text: pre.documents@[p].text })
        },
    }
}

/// What `formatting` does: with the formatter disabled the request is
/// answered with null at once; else the document goes to the format worker
/// and the answer is deferred.
pub open spec fn formatting_spec(
    pre: TypstLanguageServer,
    post: TypstLanguageServer,
    id: RequestId,
    params: JsonValue,
    r: LspResult<Outcome>,
) -> bool {
    if pre.config.formatter == FormatterMode::Disable {
        post == pre && r == Ok::<Outcome, ResponseError>(Outcome::Reply(JsonValue::Null))
    } else {
        exists|path: Option<Seq<char>>| #[trigger]
            params_path(params, path) && deferred(pre, post, spec_format_order(pre, id, path), r)
    }
}

/// Whether requests of this kind name a position in a document.
fn kind_needs_position(kind: RequestKind) -> (r: bool)
    ensures
        r == needs_position(kind),
{
    match kind {
        RequestKind::GotoDefinition | RequestKind::GotoDeclaration | RequestKind::References
        | RequestKind::Hover | RequestKind::DocumentHighlight | RequestKind::SignatureHelp
        | RequestKind::PrepareRename | RequestKind::Rename | RequestKind::Completion => true,
        _ => false,
    }
}

/// Whether the parameters have what requests of this kind must carry beside
/// the document.
fn check_shape(kind: RequestKind, params: &JsonValue) -> (r: bool)
    ensures
        r == shape_ok(kind, *params),
{
    if kind_needs_position(kind) {
        let found = match params.get("position") {
            Some(p) => position(p).is_some(),
            None => false,
        };
        if !found {
            return false;
        }
    }
    match kind {
        RequestKind::Rename => text_member(params, "newName").is_some(),
        RequestKind::SemanticTokensFullDelta => text_member(params, "previousResultId").is_some(),
        _ => true,
    }
}

/// Whether a completion was asked for by the user.
fn is_explicit(params: &JsonValue) -> (r: bool)
    ensures
        r == spec_explicit(*params),
{
    match params.get("context") {
        Some(context) => match context.get("triggerKind") {
            Some(kind) => match kind.as_u32() {
                Some(n) => n == 1,
                None => false,
            },
            None => false,
        },
        None => false,
    }
}

impl TypstLanguageServer {
    /// A language feature on the document at a store path.
    fn language_at(&mut self, kind: RequestKind, params: JsonValue, path: Option<String>) -> (r:
        LspResult<Query>)
        ensures
            language_on(*old(self), *final(self), kind, params, opt_view(path), r),
    {
        let path = match path {
            Some(p) => p,
            None => {
                return Err(
                    invalid_params("The parameters do not have the shape that the method takes"),
                );
            },
        };
        if !check_shape(kind, &params) {
            return Err(
                invalid_params("The parameters do not have the shape that the method takes"),
            );
        }
        match kind {
            RequestKind::Hover => {
                self.implicit_focus_entry(Some(path.clone()), 'h');
            },
            RequestKind::FoldingRange => {
                self.implicit_focus_entry(Some(path.clone()), 'f');
            },
            RequestKind::SemanticTokensFull | RequestKind::SemanticTokensFullDelta => {
                self.implicit_focus_entry(Some(path.clone()), 't');
            },
            _ => {},
        }
        match kind {
            RequestKind::FoldingRange => {
                let line_folding_only = self.const_config.doc_line_folding_only;
                Ok(Query::FoldingRange { path, line_folding_only })
            },
            RequestKind::Completion => {
                let explicit = is_explicit(&params);
                Ok(Query::Completion { path, params, explicit })
            },
            _ => Ok(Query::Document { kind, path, params }),
        }
    }

    /// A language feature on a document: goto, references, hover, folding,
    /// selection, highlights, symbols, semantic tokens, hints, colors, code
    /// actions and lenses, completion, signature help and rename.
    pub fn language_query(&mut self, kind: RequestKind, params: JsonValue) -> (r: LspResult<Query>)
        ensures
            language_spec(*old(self), *final(self), kind, params, r),
    {
        let path = document_path(&params);
        let ghost p = opt_view(path);
        let r = self.language_at(kind, params, path);
        assert(params_path(params, p) && language_on(*old(self), *self, kind, params, p, r));
        r
    }

    /// The `workspace/symbol` request.
    pub fn symbol(&self, params: &JsonValue) -> (r: LspResult<Query>)
        ensures
            plans_symbol(*params, r),
    {
        match text_member(params, "query") {
            Some(q) => {
                let pattern = if q.unicode_len() > 0 {
                    Some(q.to_owned())
                } else {
                    None
                };
                Ok(Query::Symbol { pattern })
            },
            None => Err(
                invalid_params("The parameters do not have the shape that the method takes"),
            ),
        }
    }

    /// Hands the document at a store path to the format worker.
    fn format_at(&mut self, req_id: RequestId, path: Option<String>) -> (r: LspResult<Outcome>)
        requires
            old(self).wf(),
        ensures
            provided_for(final(self).work@, req_id, r),
            final(self).wf(),
            deferred(
                *old(self),
                *final(self),
                spec_format_order(*old(self), req_id, opt_view(path)),
                r,
            ),
    {
        let path = match path {
            Some(p) => p,
            None => { return Err(invalid_params("The parameters name no document")); },
        };
        let text = match self.documents.get(path.as_str()) {
            Some(source) => source.text(),
            None => {
                let text = joined("could not format document: ", "the document is not open");
                return Err(internal_error(text.as_str()));
            },
        };
        if !self.format_thread {
            let text = joined("could not format document: ", "formatter thread is not available");
            return Err(internal_error(text.as_str()));
        }
        order(&mut self.work, WorkOrder::Format { id: req_id, path, text });
        Ok(Outcome::Deferred)
    }

    /// The `textDocument/formatting` request.
    pub fn formatting(&mut self, req_id: RequestId, params: &JsonValue) -> (r: LspResult<Outcome>)
        requires
            old(self).wf(),
        ensures
            provided_for(final(self).work@, req_id, r),
            final(self).wf(),
            formatting_spec(*old(self), *final(self), req_id, *params, r),
    {
        if self.config.formatter == FormatterMode::Disable {
            return Ok(Outcome::Reply(JsonValue::Null));
        }
        let path = document_path(params);
        let ghost p = opt_view(path);
        let r = self.format_at(req_id, path);
        assert(params_path(*params, p) && deferred(
            *old(self),
            *self,
            spec_format_order(*old(self), req_id, p),
            r,
        ));
        r
    }
}

} // verus!
