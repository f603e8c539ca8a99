//! The commands of `workspace/executeCommand` and the resources of
//! `getResources`.
//!
//! Every command reads its positional arguments first: arguments of the
//! wrong shape are refused before anything changes. A command that needs a
//! worker leaves a work order and is answered later, by `finish_command` or
//! one of its kin applied to what the worker found.

use vstd::prelude::*;
use vstd::utf8::{decode_utf8, valid_utf8};
use crate::decode::params_path;
use crate::dispatch::{lookup, resource_routes, spec_lookup, CommandKind, ResourceKind};
use crate::json::{member_views, object, JsonValue, JsonView};
use crate::message::{
    internal_error, invalid_params, method_not_found, method_not_found_text, spec_internal_error,
    spec_invalid_params, spec_method_not_found, LspResult, RequestId, ResponseError, Serialized,
};
use crate::package::{
    parse_spec, parse_versionless, spec_of, text_from_utf8, versionless_of, PackageSpecView,
    PackageVersion, StrResult,
};
use crate::server::{TypstLanguageServer, PRIMARY};
use crate::text::{chars_of, joined, opt_view, spec_starts_with, starts_with, string_of};
use crate::uri::as_path;
use crate::work::{
    arg, bad_opts_text, bad_path_text, order, parse_opts, parse_path, parse_path_or_null,
    provided_for, spec_arg, spec_parse_opts, spec_parse_path, spec_parse_path_or_null, work_views,
    ActorId,
    ExportKind, Outcome, Query, QueryView, TemplateSource, TemplateSourceView, WorkOrder,
    WorkOrderView,
};

verus! {

/// The message for a first argument that names no template source.
pub open spec fn bad_source_text() -> Seq<char> {
    "The first parameter is not a valid source or null"@
}

/// The message for a command without the argument that holds its queries.
pub open spec fn bad_context_text() -> Seq<char> {
    "The first parameter is not a valid code context query array"@
}

/// The message for queries on a code context that cannot be read.
pub open spec fn bad_queries_text() -> Seq<char> {
    "Cannot parse code context queries"@
}

/// The start of the message for a template source that names no package.
pub open spec fn bad_template_text() -> Seq<char> {
    "failed to determine template source: failed to parse package spec: "@
}

/// The start of the message for a template source that names no package,
/// where the entry of the template was asked for.
pub open spec fn bad_entry_source_text() -> Seq<char> {
    "failed to determine template entry: failed to parse package spec: "@
}

/// The start of the message for a template that could not be set up.
pub open spec fn init_failed_text() -> Seq<char> {
    "failed to determine template source: failed to initialize template: "@
}

/// The start of the message for a template whose entry could not be read.
pub open spec fn entry_failed_text() -> Seq<char> {
    "failed to determine template entry: failed to get template entry: "@
}

/// The message for a template entry that is not UTF-8.
pub open spec fn entry_not_utf8_text() -> Seq<char> {
    "template entry is not a valid UTF-8 string"@
}

/// The start of the message for a trace that cannot be had.
pub open spec fn trace_failed_text() -> Seq<char> {
    "could not get document trace: "@
}

/// The message for a document whose project root is unknown.
pub open spec fn no_root_text() -> Seq<char> {
    "root must be determined for trace"@
}

/// The message for a document that does not lie under the project root.
pub open spec fn no_main_text() -> Seq<char> {
    "main file must be resolved"@
}

/// The message for a trace without a user-action worker.
pub open spec fn no_worker_text() -> Seq<char> {
    "user action thread is not available"@
}

/// Whether the result is the query `expected`, or, where there is none, the
/// given error.
pub open spec fn plans(
    r: LspResult<Query>,
    expected: Option<QueryView>,
    code: i32,
    message: Seq<char>,
) -> bool {
    match r {
        Ok(q) => expected == Some(q@),
        Err(e) => expected is None && e.is(code, message),
    }
}

/// The query that exports the document named by the first argument.
pub open spec fn spec_export(kind: ExportKind, arguments: Seq<JsonValue>) -> Option<QueryView> {
    match spec_parse_path(spec_arg(arguments, 0)) {
        Some(path) => Some(QueryView::OnExport { path, kind }),
        None => None,
    }
}

/// The query that measures the document named by the first argument.
pub open spec fn spec_metrics(arguments: Seq<JsonValue>) -> Option<QueryView> {
    match spec_parse_path(spec_arg(arguments, 0)) {
        Some(path) => Some(QueryView::DocumentMetrics { path }),
        None => None,
    }
}

/// What `export_svg` and `export_png` return: options of the wrong shape are
/// refused first, then a first argument that is no path.
pub open spec fn plans_paged_export(
    r: LspResult<Query>,
    svg: bool,
    arguments: Seq<JsonValue>,
) -> bool {
    match spec_parse_opts(spec_arg(arguments, 1)) {
        None => r is Err && r->Err_0.is(spec_invalid_params(), bad_opts_text()),
        Some(opts) => plans(
            r,
            spec_export(
                if svg {
                    ExportKind::Svg { page: opts.page }
                } else {
                    ExportKind::Png { page: opts.page }
                },
                arguments,
            ),
            spec_invalid_params(),
            bad_path_text(),
        ),
    }
}

/// What `get_resources` returns: the query for the symbols at the path of the
/// symbols; an unknown method at any other path; a refusal where the first
/// argument is no path.
pub open spec fn plans_resource(r: LspResult<Query>, arguments: Seq<JsonValue>) -> bool {
    match spec_parse_path(spec_arg(arguments, 0)) {
        None => r is Err && r->Err_0.is(spec_invalid_params(), bad_path_text()),
        Some(path) => match spec_lookup(resource_routes(), path) {
            Some(ResourceKind::Symbols) => r is Ok && r->Ok_0@ == QueryView::SymbolResources,
            _ => r is Err && r->Err_0.is(spec_method_not_found(), method_not_found_text()),
        },
    }
}

/// What `interact_code_context` returns.
pub open spec fn plans_code_context(r: LspResult<Query>, arguments: Seq<JsonValue>) -> bool {
    match spec_arg(arguments, 0) {
        None => r is Err && r->Err_0.is(spec_invalid_params(), bad_context_text()),
        Some(first) => match (first.spec_get("textDocument"@), first.spec_get("query"@)) {
            (Some(doc), Some(JsonValue::Array(items))) => exists|path: Option<Seq<char>>| #[trigger]
                params_path(first, path) && match path {
                    Some(p) => r is Ok && r->Ok_0@ == (QueryView::InteractCodeContext {
                        path: p,
                        query: JsonValue::Array(items)@,
                    }),
                    None => r is Err && r->Err_0.is(spec_invalid_params(), bad_queries_text()),
                },
            _ => r is Err && r->Err_0.is(spec_invalid_params(), bad_queries_text()),
        },
    }
}

/// The package that the text names as the source of a template: the text
/// as a full specification; failing that, as a specification without
/// version; failing both, the message of the first failure.
pub open spec fn spec_template_source(text: Seq<char>) -> Result<TemplateSourceView, Seq<char>> {
    match spec_of(text) {
        Ok((namespace, name, (major, minor, patch))) => Ok(
            TemplateSourceView::Package(
                PackageSpecView { namespace, name, version: PackageVersion { major, minor, patch } },
            ),
        ),
        Err(e) => match versionless_of(text) {
            Ok((namespace, name)) => Ok(TemplateSourceView::Latest(namespace, name)),
            Err(_) => Err(e),
        },
    }
}

/// The package that the text names as the source of a template.
pub fn parse_template_source(text: &str) -> (r: StrResult<TemplateSource>)
    ensures
        match r {
            Ok(t) => spec_template_source(text@) == Ok::<TemplateSourceView, Seq<char>>(t@),
            Err(e) => spec_template_source(text@) == Err::<TemplateSourceView, Seq<char>>(e@),
        },
{
    match parse_spec(text) {
        Ok(spec) => Ok(TemplateSource::Package(spec)),
        Err(e) => match parse_versionless(text) {
            Ok(spec) => Ok(TemplateSource::Latest(spec)),
            Err(_) => Err(e),
        },
    }
}

/// Where the last `/` of the text stands.
pub open spec fn last_slash(p: Seq<char>) -> Option<int>
    decreases p.len(),
{
    if p.len() == 0 {
        None
    } else if p.last() == '/' {
        Some(p.len() - 1)
    } else {
        last_slash(p.drop_last())
    }
}

/// The directory of a path: the root for a file in the root, the text
/// before the last `/` for any other, none for a path without `/`.
pub open spec fn spec_parent(p: Seq<char>) -> Option<Seq<char>> {
    match last_slash(p) {
        None => None,
        Some(k) => if k == 0 {
            Some(seq!['/'])
        } else {
            Some(p.take(k))
        },
    }
}

/// Whether `path` lies under the directory `root`.
pub open spec fn under(root: Seq<char>, path: Seq<char>) -> bool {
    spec_starts_with(path, root) && ((root.len() > 0 && root.last() == '/') || (path.len()
        > root.len() && path[root.len() as int] == '/'))
}

/// The directory of a path.
pub fn parent(path: &Vec<char>) -> (r: Option<Vec<char>>)
    ensures
        match r {
            Some(d) => spec_parent(path@) == Some(d@),
            None => spec_parent(path@) is None,
        },
{
    let mut n: usize = path.len();
    assert(path@.take(n as int) =~= path@);
    while n > 0
        invariant
            n <= path.len(),
            last_slash(path@) == last_slash(path@.take(n as int)),
        decreases n,
    {
        let ghost cur = path@.take(n as int);
        assert(cur.last() == path@[n - 1]);
        assert(cur.drop_last() =~= path@.take(n - 1));
        if path[n - 1] == '/' {
            let mut out: Vec<char> = Vec::new();
            if n == 1 {
                out.push('/');
                assert(out@ =~= seq!['/']);
                return Some(out);
            }
            let mut i: usize = 0;
            while i < n - 1
                invariant
                    i <= n - 1 < path.len(),
                    out@ == path@.take(i as int),
                decreases n - 1 - i,
            {
                out.push(path[i]);
                assert(path@.take(i + 1) =~= path@.take(i as int).push(path@[i as int]));
                i += 1;
            }
            return Some(out);
        }
        n -= 1;
    }
    None
}

/// Whether `path` lies under the directory `root`.
pub fn is_under(root: &Vec<char>, path: &Vec<char>) -> (r: bool)
    ensures
        r == under(root@, path@),
{
    if !starts_with(path, root) {
        return false;
    }
    (root.len() > 0 && root[root.len() - 1] == '/') || (path.len() > root.len()
        && path[root.len()] == '/')
}

/// The root of the project of a document: the configured root path, or,
/// without one, the directory of the document.
pub open spec fn spec_root(configured: Option<Seq<char>>, path: Seq<char>) -> Option<Seq<char>> {
    match configured {
        Some(root) => Some(root),
        None => spec_parent(path),
    }
}

/// What a trace of the document at `path` needs, or why it cannot be had:
/// the root of the project must be known, the document must lie under it,
/// and a user-action worker must run.
pub open spec fn spec_trace(
    configured: Option<Seq<char>>,
    worker: bool,
    path: Seq<char>,
) -> Result<(Seq<char>, Seq<char>), Seq<char>> {
    match spec_root(configured, path) {
        None => Err(trace_failed_text() + no_root_text()),
        Some(root) => if !under(root, path) {
            Err(trace_failed_text() + no_main_text())
        } else if !worker {
            Err(trace_failed_text() + no_worker_text())
        } else {
            Ok((root, path))
        },
    }
}

/// What a command that is answered later does: with arguments of the wrong
/// shape the error is returned and nothing changes; else the work order is
/// queued and the answer is deferred.
pub open spec fn deferred(
    pre: TypstLanguageServer,
    post: TypstLanguageServer,
    planned: Result<WorkOrderView, (i32, Seq<char>)>,
    r: LspResult<Outcome>,
) -> bool {
    match planned {
        Ok(item) => {
            &&& r == Ok::<Outcome, ResponseError>(Outcome::Deferred)
            &&& work_views(post.work@) == work_views(pre.work@).push(item)
            &&& post == (TypstLanguageServer { work: post.work, ..pre })
        },
        Err((code, message)) => r is Err && r->Err_0.is(code, message) && post == pre,
    }
}

/// The work order of `get_document_trace`.
pub open spec fn spec_trace_order(
    pre: TypstLanguageServer,
    id: RequestId,
    arguments: Seq<JsonValue>,
) -> Result<WorkOrderView, (i32, Seq<char>)> {
    match spec_parse_path(spec_arg(arguments, 0)) {
        None => Err((spec_invalid_params(), bad_path_text())),
        Some(path) => match spec_trace(pre.config@.root_path, pre.user_action_thread, path) {
            Ok((root, main)) => Ok(WorkOrderView::Trace { id: id.key(), root, main }),
            Err(message) => Err((spec_internal_error(), message)),
        },
    }
}

/// The text of the first argument, which names the source of a template.
pub open spec fn spec_source_arg(arguments: Seq<JsonValue>) -> Option<Seq<char>> {
    match spec_arg(arguments, 0) {
        Some(v) => v.spec_str(),
        None => None,
    }
}

/// The work order of `init_template`.
pub open spec fn spec_init_order(id: RequestId, arguments: Seq<JsonValue>) -> Result<
    WorkOrderView,
    (i32, Seq<char>),
> {
    match spec_source_arg(arguments) {
        None => Err((spec_invalid_params(), bad_source_text())),
        Some(source) => match spec_parse_path_or_null(spec_arg(arguments, 1)) {
            None => Err((spec_invalid_params(), bad_path_text())),
            Some(dir) => match spec_template_source(source) {
                Err(e) => Err((spec_invalid_params(), bad_template_text() + e)),
                Ok(template) => Ok(WorkOrderView::InitTemplate { id: id.key(), template, dir }),
            },
        },
    }
}

/// The work order of `do_get_template_entry`.
pub open spec fn spec_entry_order(id: RequestId, arguments: Seq<JsonValue>) -> Result<
    WorkOrderView,
    (i32, Seq<char>),
> {
    match spec_source_arg(arguments) {
        None => Err((spec_invalid_params(), bad_source_text())),
        Some(source) => match spec_template_source(source) {
            Err(e) => Err((spec_invalid_params(), bad_entry_source_text() + e)),
            Ok(template) => Ok(WorkOrderView::GetTemplateEntry { id: id.key(), template }),
        },
    }
}

/// The orders that clear the caches: the memoized results, the primary
/// compiler, then each compiler for tasks.
pub open spec fn clear_orders(dedicates: Seq<ActorId>) -> Seq<WorkOrderView> {
    seq![WorkOrderView::EvictMemo, WorkOrderView::ClearCache { actor: PRIMARY }] + Seq::new(
        dedicates.len(),
        |i: int| WorkOrderView::ClearCache { actor: dedicates[i] },
    )
}

impl TypstLanguageServer {
    /// Plans the export of the document that the first argument names, in
    /// the given format.
    pub fn export(&self, kind: ExportKind, arguments: Vec<JsonValue>) -> (r: LspResult<Query>)
        ensures
            plans(r, spec_export(kind, arguments@), spec_invalid_params(), bad_path_text()),
    {
        match parse_path(arg(&arguments, 0)) {
            Ok(path) => Ok(Query::OnExport { path, kind }),
            Err(e) => Err(e),
        }
    }

    /// Plans the export of a document as PDF.
    pub fn export_pdf(&self, arguments: Vec<JsonValue>) -> (r: LspResult<Query>)
        ensures
            plans(
                r,
                spec_export(ExportKind::Pdf, arguments@),
                spec_invalid_params(),
                bad_path_text(),
            ),
    {
        self.export(ExportKind::Pdf, arguments)
    }

    /// Plans the export of a document as SVG, of the pages that the second
    /// argument selects.
    pub fn export_svg(&self, arguments: Vec<JsonValue>) -> (r: LspResult<Query>)
        ensures
            plans_paged_export(r, true, arguments@),
    {
        match parse_opts(arg(&arguments, 1)) {
            Ok(opts) => self.export(ExportKind::Svg { page: opts.page }, arguments),
            Err(e) => Err(e),
        }
    }

    /// Plans the export of a document as PNG, of the pages that the second
    /// argument selects.
    pub fn export_png(&self, arguments: Vec<JsonValue>) -> (r: LspResult<Query>)
        ensures
            plans_paged_export(r, false, arguments@),
    {
        match parse_opts(arg(&arguments, 1)) {
            Ok(opts) => self.export(ExportKind::Png { page: opts.page }, arguments),
            Err(e) => Err(e),
        }
    }

    /// Plans the queries on the code context of a document that the first
    /// argument holds.
    pub fn interact_code_context(&self, arguments: Vec<JsonValue>) -> (r: LspResult<Query>)
        ensures
            plans_code_context(r, arguments@),
    {
        let mut arguments = arguments;
        if arguments.len() == 0 {
            return Err(
                invalid_params("The first parameter is not a valid code context query array"),
            );
        }
        let first = arguments.remove(0);
        let path = match first.get("textDocument") {
            Some(doc) => as_path(doc),
            None => { return Err(invalid_params("Cannot parse code context queries")); },
        };
        let ghost p = opt_view(path);
        assert(params_path(first, p));
        match first.take_member("query") {
            Some(JsonValue::Array(items)) => match path {
                Some(path) => Ok(
                    Query::InteractCodeContext { path, query: JsonValue::Array(items) },
                ),
                None => Err(invalid_params("Cannot parse code context queries")),
            },
            _ => Err(invalid_params("Cannot parse code context queries")),
        }
    }

    /// Plans the measuring of the document that the first argument names.
    pub fn get_document_metrics(&self, arguments: Vec<JsonValue>) -> (r: LspResult<Query>)
        ensures
            plans(r, spec_metrics(arguments@), spec_invalid_params(), bad_path_text()),
    {
        match parse_path(arg(&arguments, 0)) {
            Ok(path) => Ok(Query::DocumentMetrics { path }),
            Err(e) => Err(e),
        }
    }

    /// Plans the report on the server.
    pub fn get_server_info(&self, _arguments: Vec<JsonValue>) -> (r: LspResult<Query>)
        ensures
            r is Ok,
            r->Ok_0@ == QueryView::ServerInfo,
    {
        Ok(Query::ServerInfo)
    }

    /// Plans the fetching of the resource at the virtual path that the first
    /// argument names.
    pub fn get_resources(&self, arguments: Vec<JsonValue>) -> (r: LspResult<Query>)
        requires
            self.wf(),
        ensures
            plans_resource(r, arguments@),
    {
        let u = match parse_path(arg(&arguments, 0)) {
            Ok(u) => u,
            Err(e) => { return Err(e); },
        };
        proof {
            reveal(crate::server::tables_built);
        }
        match lookup(&self.resources_routes, u.as_str()) {
            Some(ResourceKind::Symbols) => self.resources_alt_symbols(arguments),
            Some(ResourceKind::Tutorial) => self.resource_tutoral(arguments),
            None => Err(method_not_found()),
        }
    }

    /// The resource `/symbols`: the catalogue of symbols.
    pub fn resources_alt_symbols(&self, _arguments: Vec<JsonValue>) -> (r: LspResult<Query>)
        ensures
            r is Ok,
            r->Ok_0@ == QueryView::SymbolResources,
    {
        Ok(Query::SymbolResources)
    }

    /// The resource `/tutorial`, which is not served.
    pub fn resource_tutoral(&self, _arguments: Vec<JsonValue>) -> (r: LspResult<Query>)
        ensures
            r is Err,
            r->Err_0.is(spec_method_not_found(), method_not_found_text()),
    {
        Err(method_not_found())
    }

    /// Has every cache dropped: the memoized results and the cache of each
    /// compiler.
    pub fn clear_cache(&mut self, _arguments: Vec<JsonValue>) -> (r: LspResult<JsonValue>)
        ensures
            r == Ok::<JsonValue, ResponseError>(JsonValue::Null),
            work_views(final(self).work@) == work_views(old(self).work@) + clear_orders(
                old(self).dedicates@,
            ),
            *final(self) == (TypstLanguageServer { work: final(self).work, ..*old(self) }),
    {
        order(&mut self.work, WorkOrder::EvictMemo);
        order(&mut self.work, WorkOrder::ClearCache { actor: PRIMARY });
        let mut i: usize = 0;
        assert(work_views(self.work@) =~= work_views(old(self).work@) + clear_orders(
            old(self).dedicates@,
        ).take(2));
        while i < self.dedicates.len()
            invariant
                i <= self.dedicates.len(),
                work_views(self.work@) == work_views(old(self).work@) + clear_orders(
                    old(self).dedicates@,
                ).take(2 + i),
                *self == (TypstLanguageServer { work: self.work, ..*old(self) }),
            decreases self.dedicates.len() - i,
        {
            let actor = self.dedicates[i];
            order(&mut self.work, WorkOrder::ClearCache { actor });
            assert(work_views(self.work@) =~= work_views(old(self).work@) + clear_orders(
                old(self).dedicates@,
            ).take(3 + i));
            i += 1;
        }
        assert(clear_orders(old(self).dedicates@).take(2 + i) =~= clear_orders(
            old(self).dedicates@,
        ));
        Ok(JsonValue::Null)
    }

    /// Hands the tracing of a document to the user-action worker.
    pub fn get_document_trace(&mut self, req_id: RequestId, arguments: Vec<JsonValue>) -> (r:
        LspResult<Outcome>)
        ensures
            provided_for(final(self).work@, req_id, r),
            deferred(
                *old(self),
                *final(self),
                spec_trace_order(*old(self), req_id, arguments@),
                r,
            ),
    {
        let path = match parse_path(arg(&arguments, 0)) {
            Ok(p) => p,
            Err(e) => { return Err(e); },
        };
        let path_chars = chars_of(path.as_str());
        let root = match &self.config.compile.root_path {
            Some(root) => Some(chars_of(root.as_str())),
            None => parent(&path_chars),
        };
        let root = match root {
            Some(root) => root,
            None => {
                let text = joined("could not get document trace: ", "root must be determined for trace");
                return Err(internal_error(text.as_str()));
            },
        };
        if !is_under(&root, &path_chars) {
            let text = joined("could not get document trace: ", "main file must be resolved");
            return Err(internal_error(text.as_str()));
        }
        if !self.user_action_thread {
            let text = joined(
                "could not get document trace: ",
                "user action thread is not available",
            );
            return Err(internal_error(text.as_str()));
        }
        order(&mut self.work, WorkOrder::Trace { id: req_id, root: string_of(&root), main: path });
        Ok(Outcome::Deferred)
    }

    /// Hands the setting up of a project from a template to the primary
    /// compiler.
    pub fn init_template(&mut self, req_id: RequestId, arguments: Vec<JsonValue>) -> (r: LspResult<
        Outcome,
    >)
        ensures
            provided_for(final(self).work@, req_id, r),
            deferred(*old(self), *final(self), spec_init_order(req_id, arguments@), r),
    {
        let from_source = match arg(&arguments, 0) {
            Some(v) => match v.as_str() {
                Some(s) => s,
                None => {
                    return Err(invalid_params("The first parameter is not a valid source or null"));
                },
            },
            None => {
                return Err(invalid_params("The first parameter is not a valid source or null"));
            },
        };
        let dir = match parse_path_or_null(arg(&arguments, 1)) {
            Ok(p) => p,
            Err(e) => { return Err(e); },
        };
        // Without a version in the source, the worker looks up the latest one.
        let template = match parse_template_source(from_source) {
            Ok(t) => t,
            Err(e) => {
                let text = joined(
                    "failed to determine template source: failed to parse package spec: ",
                    e.as_str(),
                );
                return Err(invalid_params(text.as_str()));
            },
        };
        order(&mut self.work, WorkOrder::InitTemplate { id: req_id, template, dir });
        Ok(Outcome::Deferred)
    }

    /// Hands the reading of the entry file of a template to the primary
    /// compiler.
    pub fn do_get_template_entry(&mut self, req_id: RequestId, arguments: Vec<JsonValue>) -> (r:
        LspResult<Outcome>)
        ensures
            provided_for(final(self).work@, req_id, r),
            deferred(*old(self), *final(self), spec_entry_order(req_id, arguments@), r),
    {
        let from_source = match arg(&arguments, 0) {
            Some(v) => match v.as_str() {
                Some(s) => s,
                None => {
                    return Err(invalid_params("The first parameter is not a valid source or null"));
                },
            },
            None => {
                return Err(invalid_params("The first parameter is not a valid source or null"));
            },
        };
        let template = match parse_template_source(from_source) {
            Ok(t) => t,
            Err(e) => {
                let text = joined(
                    "failed to determine template entry: failed to parse package spec: ",
                    e.as_str(),
                );
                return Err(invalid_params(text.as_str()));
            },
        };
        order(&mut self.work, WorkOrder::GetTemplateEntry { id: req_id, template });
        Ok(Outcome::Deferred)
    }
}

/// The answer to `doInitTemplate` for what the worker found: the path of
/// the entry file as the member `entryPath`, or, where the worker failed, an
/// internal error with the worker's message.
pub fn finish_init_template(found: StrResult<String>) -> (r: LspResult<JsonValue>)
    ensures
        match found {
            Ok(path) => r is Ok && r->Ok_0@ == JsonView::Object(
                seq![("entryPath"@, JsonView::Text(path@))],
            ),
            Err(e) => r is Err && r->Err_0.is(spec_internal_error(), init_failed_text() + e@),
        },
{
    match found {
        Ok(path) => {
            let mut members: Vec<(String, JsonValue)> = Vec::new();
            members.push(("entryPath".to_owned(), JsonValue::Text(path)));
            let r = object(members);
            assert(member_views(members@) =~= seq![("entryPath"@, JsonView::Text(path@))]);
            Ok(r)
        },
        Err(e) => {
            let text = joined(
                "failed to determine template source: failed to initialize template: ",
                e.as_str(),
            );
            Err(internal_error(text.as_str()))
        },
    }
}

/// The answer to `doGetTemplateEntry` for what the worker found: the text
/// of the entry file; a refusal where its bytes are not UTF-8; or, where the
/// worker failed, an internal error with the worker's message.
pub fn finish_template_entry(found: StrResult<Vec<u8>>) -> (r: LspResult<JsonValue>)
    ensures
        match found {
            Ok(bytes) => if valid_utf8(bytes@) {
                r is Ok && r->Ok_0@ == JsonView::Text(decode_utf8(bytes@))
            } else {
                r is Err && r->Err_0.is(spec_invalid_params(), entry_not_utf8_text())
            },
            Err(e) => r is Err && r->Err_0.is(spec_internal_error(), entry_failed_text() + e@),
        },
{
    match found {
        Ok(bytes) => match text_from_utf8(bytes) {
            Ok(text) => Ok(JsonValue::Text(text)),
            Err(_) => Err(invalid_params("template entry is not a valid UTF-8 string")),
        },
        Err(e) => {
            let text = joined(
                "failed to determine template entry: failed to get template entry: ",
                e.as_str(),
            );
            Err(internal_error(text.as_str()))
        },
    }
}

/// The message for a result that could not be serialised, by command.
pub open spec fn spec_unserialized(kind: CommandKind, detail: Seq<char>) -> Seq<char> {
    match kind {
        CommandKind::ExportPdf | CommandKind::ExportSvg | CommandKind::ExportPng
        | CommandKind::InitTemplate => "Cannot serialize path"@,
        CommandKind::InteractCodeContext => "Cannot serialize responses"@,
        _ => "Cannot serialize response "@ + detail,
    }
}

/// The answer to a command for what the compiler found: the serialised
/// result; an internal error with the compiler's message where the query
/// failed; an internal error where the result could not be serialised.
pub fn finish_command(kind: CommandKind, found: StrResult<Serialized>) -> (r: LspResult<JsonValue>)
    ensures
        match found {
            Ok(Ok(value)) => r == Ok::<JsonValue, ResponseError>(value),
            Ok(Err(detail)) => r is Err && r->Err_0.is(
                spec_internal_error(),
                spec_unserialized(kind, detail@),
            ),
            Err(e) => r is Err && r->Err_0.is(spec_internal_error(), e@),
        },
{
    match found {
        Ok(Ok(value)) => Ok(value),
        Ok(Err(detail)) => match kind {
            CommandKind::ExportPdf | CommandKind::ExportSvg | CommandKind::ExportPng
            | CommandKind::InitTemplate => Err(internal_error("Cannot serialize path")),
            CommandKind::InteractCodeContext => Err(internal_error("Cannot serialize responses")),
            _ => {
                let text = joined("Cannot serialize response ", detail.as_str());
                Err(internal_error(text.as_str()))
            },
        },
        Err(e) => Err(internal_error(e.as_str())),
    }
}

} // verus!
