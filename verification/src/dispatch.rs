//! The dispatch tables: which handler serves which method, command or
//! resource.
//!
//! A table is a list of routes. A name is served by the first route that
//! carries it; a name that no route carries is unknown.

use vstd::prelude::*;
use crate::path::{clean, spec_clean};
use crate::text::same_text;

verus! {

/// The handlers of requests.
#[derive(Debug, Clone, Copy, PartialEq, Eq, Structural)]
pub enum RequestKind {
    Shutdown,
    Completion,
    SemanticTokensFull,
    SemanticTokensFullDelta,
    DocumentHighlight,
    DocumentSymbol,
    Formatting,
    SelectionRange,
    InlayHint,
    DocumentColor,
    ColorPresentation,
    Hover,
    CodeAction,
    CodeLens,
    FoldingRange,
    SignatureHelp,
    PrepareRename,
    Rename,
    GotoDefinition,
    GotoDeclaration,
    References,
    WorkspaceSymbol,
    ExecuteCommand,
}

/// The handlers of notifications.
#[derive(Debug, Clone, Copy, PartialEq, Eq, Structural)]
pub enum NotifyKind {
    DidOpen,
    DidClose,
    DidChange,
    DidSave,
    DidChangeConfiguration,
}

/// The handlers of commands.
#[derive(Debug, Clone, Copy, PartialEq, Eq, Structural)]
pub enum CommandKind {
    ExportPdf,
    ExportSvg,
    ExportPng,
    ClearCache,
    PinMain,
    FocusMain,
    InitTemplate,
    GetTemplateEntry,
    InteractCodeContext,
    GetDocumentTrace,
    GetDocumentMetrics,
    GetServerInfo,
    GetResources,
}

/// The handlers of resources.
#[derive(Debug, Clone, Copy, PartialEq, Eq, Structural)]
pub enum ResourceKind {
    Symbols,
    Tutorial,
}

/// One entry of a table: a name and the handler that serves it.
#[derive(Debug, Clone, PartialEq, Eq)]
pub struct Route<K> {
    pub name: String,
    pub kind: K,
}

/// A table as plain values.
pub open spec fn routes<K>(table: Seq<Route<K>>) -> Seq<(Seq<char>, K)> {
    Seq::new(table.len(), |i: int| (table[i].name@, table[i].kind))
}

/// The handler of the first route with the name.
pub open spec fn spec_lookup<K>(table: Seq<(Seq<char>, K)>, name: Seq<char>) -> Option<K>
    decreases table.len(),
{
    if table.len() == 0 {
        None
    } else if table[0].0 == name {
        Some(table[0].1)
    } else {
        spec_lookup(table.drop_first(), name)
    }
}

/// The handler that serves the name.
pub fn lookup<K: Copy>(table: &Vec<Route<K>>, name: &str) -> (r: Option<K>)
    ensures
        r == spec_lookup(routes(table@), name@),
{
    let mut i: usize = 0;
    assert(routes(table@).skip(0) =~= routes(table@));
    while i < table.len()
        invariant
            i <= table.len(),
            spec_lookup(routes(table@), name@) == spec_lookup(
                routes(table@).skip(i as int),
                name@,
            ),
        decreases table.len() - i,
    {
        let ghost rest = routes(table@).skip(i as int);
        assert(rest[0] == routes(table@)[i as int]);
        assert(rest.drop_first() =~= routes(table@).skip(i + 1));
        if same_text(table[i].name.as_str(), name) {
            return Some(table[i].kind);
        }
        i += 1;
    }
    None
}

/// Whether two tables hold the same routes in the same order, with `same`
/// to tell whether two handlers are the same.
pub fn same_routes<K: Copy, F: Fn(K, K) -> bool>(a: &Vec<Route<K>>, b: &Vec<Route<K>>, same: F) -> (r:
    bool)
    requires
        forall|x: K, y: K| call_requires(same, (x, y)),
        forall|x: K, y: K, out: bool| call_ensures(same, (x, y), out) ==> out == (x == y),
    ensures
        r == (routes(a@) == routes(b@)),
{
    if a.len() != b.len() {
        assert(routes(a@).len() != routes(b@).len());
        return false;
    }
    let mut i: usize = 0;
    while i < a.len()
        invariant
            i <= a.len(),
            a.len() == b.len(),
            forall|x: K, y: K| call_requires(same, (x, y)),
            forall|x: K, y: K, out: bool| call_ensures(same, (x, y), out) ==> out == (x == y),
            forall|k: int| 0 <= k < i ==> routes(a@)[k] == routes(b@)[k],
        decreases a.len() - i,
    {
        if !same_text(a[i].name.as_str(), b[i].name.as_str()) || !same(a[i].kind, b[i].kind) {
            assert(routes(a@)[i as int] != routes(b@)[i as int]);
            return false;
        }
        i += 1;
    }
    assert(routes(a@) =~= routes(b@));
    true
}

/// Whether both are the same handler of requests.
pub fn same_request(x: RequestKind, y: RequestKind) -> (r: bool)
    ensures
        r == (x == y),
{
    x == y
}

/// Whether both are the same handler of notifications.
pub fn same_notify(x: NotifyKind, y: NotifyKind) -> (r: bool)
    ensures
        r == (x == y),
{
    x == y
}

/// Whether both are the same handler of commands.
pub fn same_command(x: CommandKind, y: CommandKind) -> (r: bool)
    ensures
        r == (x == y),
{
    x == y
}

/// Whether both are the same handler of resources.
pub fn same_resource(x: ResourceKind, y: ResourceKind) -> (r: bool)
    ensures
        r == (x == y),
{
    x == y
}

/// Adds a route at the end of a table.
fn route<K>(table: &mut Vec<Route<K>>, name: &str, kind: K)
    ensures
        routes(final(table)@) == routes(old(table)@).push((name@, kind)),
{
    table.push(Route { name: name.to_owned(), kind });
    assert(routes(table@) =~= routes(old(table)@).push((name@, kind)));
}

/// The table of requests.
pub open spec fn regular_routes() -> Seq<(Seq<char>, RequestKind)> {
    seq![
        ("shutdown"@, RequestKind::Shutdown),
        ("textDocument/completion"@, RequestKind::Completion),
        ("textDocument/semanticTokens/full"@, RequestKind::SemanticTokensFull),
        ("textDocument/semanticTokens/full/delta"@, RequestKind::SemanticTokensFullDelta),
        ("textDocument/documentHighlight"@, RequestKind::DocumentHighlight),
        ("textDocument/documentSymbol"@, RequestKind::DocumentSymbol),
        ("textDocument/formatting"@, RequestKind::Formatting),
        ("textDocument/selectionRange"@, RequestKind::SelectionRange),
        ("textDocument/inlayHint"@, RequestKind::InlayHint),
        ("textDocument/documentColor"@, RequestKind::DocumentColor),
        ("textDocument/colorPresentation"@, RequestKind::ColorPresentation),
        ("textDocument/hover"@, RequestKind::Hover),
        ("textDocument/codeAction"@, RequestKind::CodeAction),
        ("textDocument/codeLens"@, RequestKind::CodeLens),
        ("textDocument/foldingRange"@, RequestKind::FoldingRange),
        ("textDocument/signatureHelp"@, RequestKind::SignatureHelp),
        ("textDocument/prepareRename"@, RequestKind::PrepareRename),
        ("textDocument/rename"@, RequestKind::Rename),
        ("textDocument/definition"@, RequestKind::GotoDefinition),
        ("textDocument/declaration"@, RequestKind::GotoDeclaration),
        ("textDocument/references"@, RequestKind::References),
        ("workspace/symbol"@, RequestKind::WorkspaceSymbol),
        ("workspace/executeCommand"@, RequestKind::ExecuteCommand),
    ]
}

/// The table of notifications.
pub open spec fn notify_routes() -> Seq<(Seq<char>, NotifyKind)> {
    seq![
        ("textDocument/didOpen"@, NotifyKind::DidOpen),
        ("textDocument/didClose"@, NotifyKind::DidClose),
        ("textDocument/didChange"@, NotifyKind::DidChange),
        ("textDocument/didSave"@, NotifyKind::DidSave),
        ("workspace/didChangeConfiguration"@, NotifyKind::DidChangeConfiguration),
    ]
}

/// The table of commands.
pub open spec fn exec_routes() -> Seq<(Seq<char>, CommandKind)> {
    seq![
        ("tinymist.exportPdf"@, CommandKind::ExportPdf),
        ("tinymist.exportSvg"@, CommandKind::ExportSvg),
        ("tinymist.exportPng"@, CommandKind::ExportPng),
        ("tinymist.doClearCache"@, CommandKind::ClearCache),
        ("tinymist.pinMain"@, CommandKind::PinMain),
        ("tinymist.focusMain"@, CommandKind::FocusMain),
        ("tinymist.doInitTemplate"@, CommandKind::InitTemplate),
        ("tinymist.doGetTemplateEntry"@, CommandKind::GetTemplateEntry),
        ("tinymist.interactCodeContext"@, CommandKind::InteractCodeContext),
        ("tinymist.getDocumentTrace"@, CommandKind::GetDocumentTrace),
        ("tinymist.getDocumentMetrics"@, CommandKind::GetDocumentMetrics),
        ("tinymist.getServerInfo"@, CommandKind::GetServerInfo),
        ("tinymist.getResources"@, CommandKind::GetResources),
    ]
}

/// The table of resources, keyed by their paths in normal form.
pub open spec fn resource_routes() -> Seq<(Seq<char>, ResourceKind)> {
    seq![
        (spec_clean("/symbols"@), ResourceKind::Symbols),
        (spec_clean("/tutorial"@), ResourceKind::Tutorial),
    ]
}

/// Builds the table of requests.
pub fn get_regular_cmds() -> (r: Vec<Route<RequestKind>>)
    ensures
        routes(r@) == regular_routes(),
{
    let mut t: Vec<Route<RequestKind>> = Vec::new();
    assert(routes(t@) =~= Seq::<(Seq<char>, RequestKind)>::empty());
    route(&mut t, "shutdown", RequestKind::Shutdown);
    route(&mut t, "textDocument/completion", RequestKind::Completion);
    route(&mut t, "textDocument/semanticTokens/full", RequestKind::SemanticTokensFull);
    route(&mut t, "textDocument/semanticTokens/full/delta", RequestKind::SemanticTokensFullDelta);
    route(&mut t, "textDocument/documentHighlight", RequestKind::DocumentHighlight);
    route(&mut t, "textDocument/documentSymbol", RequestKind::DocumentSymbol);
    route(&mut t, "textDocument/formatting", RequestKind::Formatting);
    route(&mut t, "textDocument/selectionRange", RequestKind::SelectionRange);
    route(&mut t, "textDocument/inlayHint", RequestKind::InlayHint);
    route(&mut t, "textDocument/documentColor", RequestKind::DocumentColor);
    route(&mut t, "textDocument/colorPresentation", RequestKind::ColorPresentation);
    route(&mut t, "textDocument/hover", RequestKind::Hover);
    route(&mut t, "textDocument/codeAction", RequestKind::CodeAction);
    route(&mut t, "textDocument/codeLens", RequestKind::CodeLens);
    route(&mut t, "textDocument/foldingRange", RequestKind::FoldingRange);
    route(&mut t, "textDocument/signatureHelp", RequestKind::SignatureHelp);
    route(&mut t, "textDocument/prepareRename", RequestKind::PrepareRename);
    route(&mut t, "textDocument/rename", RequestKind::Rename);
    route(&mut t, "textDocument/definition", RequestKind::GotoDefinition);
    route(&mut t, "textDocument/declaration", RequestKind::GotoDeclaration);
    route(&mut t, "textDocument/references", RequestKind::References);
    route(&mut t, "workspace/symbol", RequestKind::WorkspaceSymbol);
    route(&mut t, "workspace/executeCommand", RequestKind::ExecuteCommand);
    assert(routes(t@) =~= regular_routes());
    t
}

/// Builds the table of notifications.
pub fn get_notify_cmds() -> (r: Vec<Route<NotifyKind>>)
    ensures
        routes(r@) == notify_routes(),
{
    let mut t: Vec<Route<NotifyKind>> = Vec::new();
    assert(routes(t@) =~= Seq::<(Seq<char>, NotifyKind)>::empty());
    route(&mut t, "textDocument/didOpen", NotifyKind::DidOpen);
    route(&mut t, "textDocument/didClose", NotifyKind::DidClose);
    route(&mut t, "textDocument/didChange", NotifyKind::DidChange);
    route(&mut t, "textDocument/didSave", NotifyKind::DidSave);
    route(&mut t, "workspace/didChangeConfiguration", NotifyKind::DidChangeConfiguration);
    assert(routes(t@) =~= notify_routes());
    t
}

/// Builds the table of commands.
pub fn get_exec_commands() -> (r: Vec<Route<CommandKind>>)
    ensures
        routes(r@) == exec_routes(),
{
    let mut t: Vec<Route<CommandKind>> = Vec::new();
    assert(routes(t@) =~= Seq::<(Seq<char>, CommandKind)>::empty());
    route(&mut t, "tinymist.exportPdf", CommandKind::ExportPdf);
    route(&mut t, "tinymist.exportSvg", CommandKind::ExportSvg);
    route(&mut t, "tinymist.exportPng", CommandKind::ExportPng);
    route(&mut t, "tinymist.doClearCache", CommandKind::ClearCache);
    route(&mut t, "tinymist.pinMain", CommandKind::PinMain);
    route(&mut t, "tinymist.focusMain", CommandKind::FocusMain);
    route(&mut t, "tinymist.doInitTemplate", CommandKind::InitTemplate);
    route(&mut t, "tinymist.doGetTemplateEntry", CommandKind::GetTemplateEntry);
    route(&mut t, "tinymist.interactCodeContext", CommandKind::InteractCodeContext);
    route(&mut t, "tinymist.getDocumentTrace", CommandKind::GetDocumentTrace);
    route(&mut t, "tinymist.getDocumentMetrics", CommandKind::GetDocumentMetrics);
    route(&mut t, "tinymist.getServerInfo", CommandKind::GetServerInfo);
    route(&mut t, "tinymist.getResources", CommandKind::GetResources);
    assert(routes(t@) =~= exec_routes());
    t
}

/// Builds the table of resources.
pub fn get_resources_routes() -> (r: Vec<Route<ResourceKind>>)
    ensures
        routes(r@) == resource_routes(),
{
    let mut t: Vec<Route<ResourceKind>> = Vec::new();
    assert(routes(t@) =~= Seq::<(Seq<char>, ResourceKind)>::empty());
    let symbols = clean("/symbols");
    route(&mut t, symbols.as_str(), ResourceKind::Symbols);
    let tutorial = clean("/tutorial");
    route(&mut t, tutorial.as_str(), ResourceKind::Tutorial);
    assert(routes(t@) =~= resource_routes());
    t
}

} // verus!
