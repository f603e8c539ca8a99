//! What the session asks of its workers, and how command arguments are read.
//!
//! The session computes nothing about documents itself. It hands queries to
//! the compiler, formatting to the format worker and traces to the
//! user-action worker, as work orders that whoever drives the session carries
//! out. A work order that carries a request identifier is answered later,
//! through the host, by the worker's result.

use vstd::prelude::*;
use crate::config::FormatterMode;
use crate::dispatch::RequestKind;
use crate::json::{JsonValue, JsonView};
use crate::message::{invalid_params, spec_invalid_params, IdKey, LspResult, RequestId};
use crate::package::{PackageSpec, PackageSpecView, VersionlessPackageSpec};
use crate::path::{clean, spec_clean};
use crate::text::{opt_view, same_text};

verus! {

/// Which pages an export takes.
#[derive(Debug, Clone, Copy, PartialEq, Eq, Structural)]
pub enum PageSelection {
    First,
    Merged,
}

/// The format of an export.
#[derive(Debug, Clone, Copy, PartialEq, Eq, Structural)]
pub enum ExportKind {
    Pdf,
    Svg { page: PageSelection },
    Png { page: PageSelection },
}

/// The options of an export.
#[derive(Debug, Clone, Copy, PartialEq, Eq, Structural)]
pub struct ExportOpts {
    pub page: PageSelection,
}

/// The package that a template comes from: with its version, or with the
/// version left to be resolved to the latest.
#[derive(Debug, Clone, PartialEq, Eq)]
pub enum TemplateSource {
    Package(PackageSpec),
    Latest(VersionlessPackageSpec),
}

/// A template source as plain values.
pub enum TemplateSourceView {
    Package(PackageSpecView),
    Latest(Seq<char>, Seq<char>),
}

impl View for TemplateSource {
    type V = TemplateSourceView;

    open spec fn view(&self) -> TemplateSourceView {
        match self {
            TemplateSource::Package(s) => TemplateSourceView::Package(s@),
            TemplateSource::Latest(s) => TemplateSourceView::Latest(s.namespace@, s.name@),
        }
    }
}

/// A question to the compiler.
#[derive(Debug, Clone, PartialEq, Eq)]
pub enum Query {
    OnExport { path: String, kind: ExportKind },
    OnSaveExport { path: String },
    InteractCodeContext { path: String, query: JsonValue },
    DocumentMetrics { path: String },
    ServerInfo,
    SymbolResources,
    FoldingRange { path: String, line_folding_only: bool },
    Completion { path: String, params: JsonValue, explicit: bool },
    Symbol { pattern: Option<String> },
    /// Any other language feature on a document; the worker reads positions
    /// and ranges from the parameters.
    Document { kind: RequestKind, path: String, params: JsonValue },
}

/// A question to the compiler as plain values.
pub enum QueryView {
    OnExport { path: Seq<char>, kind: ExportKind },
    OnSaveExport { path: Seq<char> },
    InteractCodeContext { path: Seq<char>, query: JsonView },
    DocumentMetrics { path: Seq<char> },
    ServerInfo,
    SymbolResources,
    FoldingRange { path: Seq<char>, line_folding_only: bool },
    Completion { path: Seq<char>, params: JsonView, explicit: bool },
    Symbol { pattern: Option<Seq<char>> },
    Document { kind: RequestKind, path: Seq<char>, params: JsonView },
}

impl View for Query {
    type V = QueryView;

    open spec fn view(&self) -> QueryView {
        match self {
            Query::OnExport { path, kind } => QueryView::OnExport { path: path@, kind: *kind },
            Query::OnSaveExport { path } => QueryView::OnSaveExport { path: path@ },
            Query::InteractCodeContext { path, query } => QueryView::InteractCodeContext {
                path: path@,
                query: query@,
            },
            Query::DocumentMetrics { path } => QueryView::DocumentMetrics { path: path@ },
            Query::ServerInfo => QueryView::ServerInfo,
            Query::SymbolResources => QueryView::SymbolResources,
            Query::FoldingRange { path, line_folding_only } => QueryView::FoldingRange {
                path: path@,
                line_folding_only: *line_folding_only,
            },
            Query::Completion { path, params, explicit } => QueryView::Completion {
                path: path@,
                params: params@,
                explicit: *explicit,
            },
            Query::Symbol { pattern } => QueryView::Symbol { pattern: opt_view(*pattern) },
            Query::Document { kind, path, params } => QueryView::Document {
                kind: *kind,
                path: path@,
                params: params@,
            },
        }
    }
}

/// A compiler of the session.
pub type ActorId = u32;

/// Work for the workers of the session.
#[derive(Debug, Clone, PartialEq, Eq)]
pub enum WorkOrder {
    /// The primary compiler answers the query; the request is answered with
    /// what it finds.
    Query { id: RequestId, query: Query },
    /// The primary compiler runs the query; nobody awaits the result.
    Background { query: Query },
    /// The primary compiler takes a new main file.
    ChangeEntry { entry: Option<String> },
    /// The primary compiler takes new settings.
    ChangeConfig { values: Vec<(String, JsonValue)> },
    /// The primary compiler learns that the editor is ready.
    Initialized { params: JsonValue },
    /// All memoized results are dropped.
    EvictMemo,
    /// A compiler drops its cache.
    ClearCache { actor: ActorId },
    /// The format worker formats the document and answers the request.
    Format { id: RequestId, path: String, text: String },
    /// The format worker takes new settings.
    ChangeFormatConfig { mode: FormatterMode, width: u32 },
    /// The user-action worker traces the compilation of `main` under `root`
    /// and answers the request.
    Trace { id: RequestId, root: String, main: String },
    /// The primary compiler sets up a project from a template and answers
    /// the request.
    InitTemplate { id: RequestId, template: TemplateSource, dir: Option<String> },
    /// The primary compiler reads the entry file of a template and answers
    /// the request.
    GetTemplateEntry { id: RequestId, template: TemplateSource },
}

/// A work order as plain values.
pub enum WorkOrderView {
    Query { id: IdKey, query: QueryView },
    Background { query: QueryView },
    ChangeEntry { entry: Option<Seq<char>> },
    ChangeConfig { values: JsonView },
    Initialized { params: JsonView },
    EvictMemo,
    ClearCache { actor: ActorId },
    Format { id: IdKey, path: Seq<char>, text: Seq<char> },
    ChangeFormatConfig { mode: FormatterMode, width: u32 },
    Trace { id: IdKey, root: Seq<char>, main: Seq<char> },
    InitTemplate { id: IdKey, template: TemplateSourceView, dir: Option<Seq<char>> },
    GetTemplateEntry { id: IdKey, template: TemplateSourceView },
}

impl View for WorkOrder {
    type V = WorkOrderView;

    open spec fn view(&self) -> WorkOrderView {
        match self {
            WorkOrder::Query { id, query } => WorkOrderView::Query { id: id.key(), query: query@ },
            WorkOrder::Background { query } => WorkOrderView::Background { query: query@ },
            WorkOrder::ChangeEntry { entry } => WorkOrderView::ChangeEntry {
                entry: opt_view(*entry),
            },
            WorkOrder::ChangeConfig { values } => WorkOrderView::ChangeConfig {
                values: JsonView::Object(crate::json::member_views(values@)),
            },
            WorkOrder::Initialized { params } => WorkOrderView::Initialized { params: params@ },
            WorkOrder::EvictMemo => WorkOrderView::EvictMemo,
            WorkOrder::ClearCache { actor } => WorkOrderView::ClearCache { actor: *actor },
            WorkOrder::Format { id, path, text } => WorkOrderView::Format {
                id: id.key(),
                path: path@,
                text: text@,
            },
            WorkOrder::ChangeFormatConfig { mode, width } => WorkOrderView::ChangeFormatConfig {
                mode: *mode,
                width: *width,
            },
            WorkOrder::Trace { id, root, main } => WorkOrderView::Trace {
                id: id.key(),
                root: root@,
                main: main@,
            },
            WorkOrder::InitTemplate { id, template, dir } => WorkOrderView::InitTemplate {
                id: id.key(),
                template: template@,
                dir: opt_view(*dir),
            },
            WorkOrder::GetTemplateEntry { id, template } => WorkOrderView::GetTemplateEntry {
                id: id.key(),
                template: template@,
            },
        }
    }
}

/// The views of work orders.
pub open spec fn work_views(work: Seq<WorkOrder>) -> Seq<WorkOrderView> {
    Seq::new(work.len(), |i: int| work[i]@)
}

/// The request that a work order carries, if it carries one: the request
/// that its worker's result answers.
pub open spec fn carried_by(item: WorkOrderView) -> Option<IdKey> {
    match item {
        WorkOrderView::Query { id, .. } => Some(id),
        WorkOrderView::Format { id, .. } => Some(id),
        WorkOrderView::Trace { id, .. } => Some(id),
        WorkOrderView::InitTemplate { id, .. } => Some(id),
        WorkOrderView::GetTemplateEntry { id, .. } => Some(id),
        _ => None,
    }
}

/// Whether a deferred answer is provided for: where the outcome of a
/// handler is a deferred answer, the newest work order carries the request.
pub open spec fn provided_for(work: Seq<WorkOrder>, id: RequestId, r: LspResult<Outcome>) -> bool {
    r == Ok::<Outcome, crate::message::ResponseError>(Outcome::Deferred) ==> work.len() > 0
        && carried_by(work.last()@) == Some(id.key())
}

/// Puts a work order at the end of the queue.
pub fn order(queue: &mut Vec<WorkOrder>, item: WorkOrder)
    ensures
        work_views(final(queue)@) == work_views(old(queue)@).push(item@),
        final(queue)@ == old(queue)@.push(item),
{
    queue.push(item);
    assert(work_views(queue@) =~= work_views(old(queue)@).push(item@));
}

/// What a handler makes of a request.
#[derive(Debug, Clone, PartialEq, Eq)]
pub enum Outcome {
    /// The request is answered with this result at once.
    Reply(JsonValue),
    /// A work order carries the request; its worker's result answers it.
    Deferred,
}

/// The argument at a position, if there is one.
pub open spec fn spec_arg(arguments: Seq<JsonValue>, at: int) -> Option<JsonValue> {
    if 0 <= at < arguments.len() {
        Some(arguments[at])
    } else {
        None
    }
}

/// The argument at a position, if there is one.
pub fn arg(arguments: &Vec<JsonValue>, at: usize) -> (r: Option<&JsonValue>)
    ensures
        r == match spec_arg(arguments@, at as int) {
            Some(v) => Some(&v),
            None => None,
        },
{
    if at < arguments.len() {
        Some(&arguments[at])
    } else {
        None
    }
}

/// The message for an argument that is no path.
pub open spec fn bad_path_text() -> Seq<char> {
    "The first parameter is not a valid path"@
}

/// The message for export options that cannot be read.
pub open spec fn bad_opts_text() -> Seq<char> {
    "The third argument is not a valid object"@
}

/// The path that an argument names, in normal form.
pub open spec fn spec_parse_path(v: Option<JsonValue>) -> Option<Seq<char>> {
    match v {
        Some(JsonValue::Text(s)) => Some(spec_clean(s@)),
        _ => None,
    }
}

/// Whether the result is the value `expected`, or, where there is none, the
/// error for parameters of the wrong shape with the given message.
pub open spec fn parsed_text(
    r: LspResult<String>,
    expected: Option<Seq<char>>,
    message: Seq<char>,
) -> bool {
    match r {
        Ok(p) => expected == Some(p@),
        Err(e) => expected is None && e.is(spec_invalid_params(), message),
    }
}

/// Reads an argument as a path. Anything but text is refused.
pub fn parse_path(v: Option<&JsonValue>) -> (r: LspResult<String>)
    ensures
        parsed_text(
            r,
            spec_parse_path(
                match v {
                    Some(x) => Some(*x),
                    None => None,
                },
            ),
            bad_path_text(),
        ),
{
    match v {
        Some(JsonValue::Text(s)) => Ok(clean(s.as_str())),
        _ => Err(invalid_params("The first parameter is not a valid path")),
    }
}

/// What `parse_path_or_null` makes of an argument: no path for null, the
/// path for text, a refusal for anything else.
pub open spec fn spec_parse_path_or_null(v: Option<JsonValue>) -> Option<Option<Seq<char>>> {
    match v {
        Some(JsonValue::Null) => Some(None),
        Some(JsonValue::Text(s)) => Some(Some(spec_clean(s@))),
        _ => None,
    }
}

/// Reads an argument as a path or as null.
pub fn parse_path_or_null(v: Option<&JsonValue>) -> (r: LspResult<Option<String>>)
    ensures
        match r {
            Ok(p) => spec_parse_path_or_null(
                match v {
                    Some(x) => Some(*x),
                    None => None,
                },
            ) == Some(opt_view(p)),
            Err(e) => spec_parse_path_or_null(
                match v {
                    Some(x) => Some(*x),
                    None => None,
                },
            ) is None && e.is(spec_invalid_params(), bad_path_text()),
        },
{
    match v {
        Some(JsonValue::Null) => Ok(None),
        v => match parse_path(v) {
            Ok(p) => Ok(Some(p)),
            Err(e) => Err(e),
        },
    }
}

/// The page selection that a value names.
pub open spec fn spec_page(v: JsonValue) -> Option<PageSelection> {
    match v.spec_str() {
        Some(s) => if s == "first"@ {
            Some(PageSelection::First)
        } else if s == "merged"@ {
            Some(PageSelection::Merged)
        } else {
            None
        },
        None => None,
    }
}

/// The export options that an argument holds: the first page where there is
/// no argument; else what the member `page` of the object names.
pub open spec fn spec_parse_opts(v: Option<JsonValue>) -> Option<ExportOpts> {
    match v {
        None => Some(ExportOpts { page: PageSelection::First }),
        Some(opts) => match opts.spec_get("page"@) {
            Some(page) => match spec_page(page) {
                Some(page) => Some(ExportOpts { page }),
                None => None,
            },
            None => None,
        },
    }
}

/// Reads the options of an export.
pub fn parse_opts(v: Option<&JsonValue>) -> (r: LspResult<ExportOpts>)
    ensures
        match r {
            Ok(opts) => spec_parse_opts(
                match v {
                    Some(x) => Some(*x),
                    None => None,
                },
            ) == Some(opts),
            Err(e) => spec_parse_opts(
                match v {
                    Some(x) => Some(*x),
                    None => None,
                },
            ) is None && e.is(spec_invalid_params(), bad_opts_text()),
        },
{
    match v {
        None => Ok(ExportOpts { page: PageSelection::First }),
        Some(opts) => {
            let page = match opts.get("page") {
                Some(page) => match page.as_str() {
                    Some(s) => if same_text(s, "first") {
                        Some(PageSelection::First)
                    } else if same_text(s, "merged") {
                        Some(PageSelection::Merged)
                    } else {
                        None
                    },
                    None => None,
                },
                None => None,
            };
            match page {
                Some(page) => Ok(ExportOpts { page }),
                None => Err(invalid_params("The third argument is not a valid object")),
            }
        },
    }
}

} // verus!
