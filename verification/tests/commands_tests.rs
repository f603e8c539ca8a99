use tinymist::commands::{
    finish_command, finish_init_template, finish_template_entry, is_under, parent,
    parse_template_source,
};
use tinymist::config::ConstConfig;
use tinymist::dispatch::{CommandKind, RequestKind};
use tinymist::host::LspHost;
use tinymist::json::{JsonNumber, JsonValue};
use tinymist::message::{RequestId, ResponseError};
use tinymist::package::{PackageSpec, PackageVersion, VersionlessPackageSpec};
use tinymist::server::TypstLanguageServer;
use tinymist::source::PositionEncoding;
use tinymist::work::{
    parse_opts, parse_path, parse_path_or_null, ExportKind, ExportOpts, Outcome, PageSelection,
    Query, TemplateSource, WorkOrder,
};

fn text(s: &str) -> JsonValue {
    JsonValue::Text(s.to_owned())
}

fn obj(members: Vec<(&str, JsonValue)>) -> JsonValue {
    JsonValue::Object(members.into_iter().map(|(k, v)| (k.to_owned(), v)).collect())
}

fn num(n: u64) -> JsonValue {
    JsonValue::Number(JsonNumber::PosInt(n))
}

fn err(code: i32, message: &str) -> ResponseError {
    ResponseError { code, message: message.to_owned(), data: None }
}

fn server() -> TypstLanguageServer {
    let cc = ConstConfig {
        position_encoding: PositionEncoding::Utf8,
        cfg_change_registration: false,
        tokens_dynamic_registration: false,
        tokens_overlapping_token_support: false,
        tokens_multiline_token_support: false,
        doc_line_folding_only: true,
        doc_fmt_dynamic_registration: false,
    };
    TypstLanguageServer::new(LspHost::new(), cc, JsonValue::Null)
}

const BAD_PATH: &str = "The first parameter is not a valid path";

#[test]
fn arguments_are_read_as_paths() {
    assert_eq!(parse_path(Some(&text("/a/./b/../c.typ"))), Ok("/a/c.typ".to_owned()));
    assert_eq!(parse_path(Some(&JsonValue::Null)), Err(err(-32602, BAD_PATH)));
    assert_eq!(parse_path(Some(&num(1))), Err(err(-32602, BAD_PATH)));
    assert_eq!(parse_path(None), Err(err(-32602, BAD_PATH)));
    assert_eq!(parse_path_or_null(Some(&JsonValue::Null)), Ok(None));
    assert_eq!(parse_path_or_null(Some(&text("a//b"))), Ok(Some("a/b".to_owned())));
    assert_eq!(parse_path_or_null(None), Err(err(-32602, BAD_PATH)));
    assert_eq!(parse_path_or_null(Some(&JsonValue::Bool(true))), Err(err(-32602, BAD_PATH)));
}

#[test]
fn export_options_default_to_the_first_page() {
    let bad = Err(err(-32602, "The third argument is not a valid object"));
    assert_eq!(parse_opts(None), Ok(ExportOpts { page: PageSelection::First }));
    assert_eq!(
        parse_opts(Some(&obj(vec![("page", text("merged"))]))),
        Ok(ExportOpts { page: PageSelection::Merged })
    );
    assert_eq!(
        parse_opts(Some(&obj(vec![("page", text("first"))]))),
        Ok(ExportOpts { page: PageSelection::First })
    );
    assert_eq!(parse_opts(Some(&obj(vec![("page", text("last"))]))), bad);
    assert_eq!(parse_opts(Some(&obj(vec![]))), bad);
    assert_eq!(parse_opts(Some(&JsonValue::Null)), bad);
}

#[test]
fn export_commands_plan_queries() {
    let srv = server();
    assert_eq!(
        srv.export_pdf(vec![text("/doc//main.typ")]),
        Ok(Query::OnExport { path: "/doc/main.typ".to_owned(), kind: ExportKind::Pdf })
    );
    assert_eq!(
        srv.export_svg(vec![text("/m.typ")]),
        Ok(Query::OnExport {
            path: "/m.typ".to_owned(),
            kind: ExportKind::Svg { page: PageSelection::First }
        })
    );
    assert_eq!(
        srv.export_png(vec![text("/m.typ"), obj(vec![("page", text("merged"))])]),
        Ok(Query::OnExport {
            path: "/m.typ".to_owned(),
            kind: ExportKind::Png { page: PageSelection::Merged }
        })
    );
    assert_eq!(
        srv.export(ExportKind::Pdf, vec![]),
        Err(err(-32602, BAD_PATH))
    );
    assert_eq!(srv.export_pdf(vec![num(3)]), Err(err(-32602, BAD_PATH)));
    // the options are looked at first
    assert_eq!(
        srv.export_svg(vec![num(3), num(4)]),
        Err(err(-32602, "The third argument is not a valid object"))
    );
    assert_eq!(srv.export_png(vec![num(3)]), Err(err(-32602, BAD_PATH)));
}

#[test]
fn metrics_server_info_and_resources() {
    let srv = server();
    assert_eq!(
        srv.get_document_metrics(vec![text("/m.typ")]),
        Ok(Query::DocumentMetrics { path: "/m.typ".to_owned() })
    );
    assert_eq!(srv.get_document_metrics(vec![]), Err(err(-32602, BAD_PATH)));
    assert_eq!(srv.get_server_info(vec![]), Ok(Query::ServerInfo));
    assert_eq!(srv.get_resources(vec![text("/symbols")]), Ok(Query::SymbolResources));
    assert_eq!(srv.get_resources(vec![text("//symbols/.")]), Ok(Query::SymbolResources));
    assert_eq!(srv.get_resources(vec![text("/tutorial")]), Err(err(-32601, "Method not found")));
    assert_eq!(srv.get_resources(vec![text("/other")]), Err(err(-32601, "Method not found")));
    assert_eq!(srv.get_resources(vec![]), Err(err(-32602, BAD_PATH)));
    assert_eq!(srv.resources_alt_symbols(vec![]), Ok(Query::SymbolResources));
    assert_eq!(srv.resource_tutoral(vec![]), Err(err(-32601, "Method not found")));
    assert_eq!(srv.primary(), 0);
    assert_eq!(srv.const_config().position_encoding, PositionEncoding::Utf8);
}

#[test]
fn code_context_needs_a_document_and_queries() {
    let srv = server();
    let queries = JsonValue::Array(vec![obj(vec![("kind", text("modeAt"))])]);
    let arg = obj(vec![
        ("textDocument", obj(vec![("uri", text("file:///w/a.typ"))])),
        ("query", queries.clone()),
    ]);
    assert_eq!(
        srv.interact_code_context(vec![arg]),
        Ok(Query::InteractCodeContext { path: "/w/a.typ".to_owned(), query: queries.clone() })
    );
    assert_eq!(
        srv.interact_code_context(vec![]),
        Err(err(-32602, "The first parameter is not a valid code context query array"))
    );
    let bad = Err(err(-32602, "Cannot parse code context queries"));
    assert_eq!(srv.interact_code_context(vec![obj(vec![("query", queries.clone())])]), bad);
    assert_eq!(
        srv.interact_code_context(vec![obj(vec![
            ("textDocument", obj(vec![("uri", text("file:///w/a.typ"))])),
            ("query", text("modeAt")),
        ])]),
        bad
    );
    assert_eq!(
        srv.interact_code_context(vec![obj(vec![
            ("textDocument", obj(vec![("uri", text("no uri"))])),
            ("query", queries),
        ])]),
        bad
    );
}

#[test]
fn clear_cache_fans_out_to_every_compiler() {
    let mut srv = server();
    srv.dedicates = vec![4, 9];
    assert_eq!(srv.clear_cache(vec![]), Ok(JsonValue::Null));
    assert_eq!(
        srv.take_work(),
        vec![
            WorkOrder::EvictMemo,
            WorkOrder::ClearCache { actor: 0 },
            WorkOrder::ClearCache { actor: 4 },
            WorkOrder::ClearCache { actor: 9 },
        ]
    );
}

#[test]
fn pin_and_focus_documents() {
    let mut srv = server();
    assert_eq!(srv.pin_document(vec![]), Err(err(-32602, BAD_PATH)));
    assert_eq!(srv.focus_document(vec![num(1)]), Err(err(-32602, BAD_PATH)));
    assert!(srv.take_work().is_empty());
    assert!(!srv.focus.ever_manual_focus);

    assert_eq!(srv.focus_document(vec![text("/b.ext")]), Ok(JsonValue::Null));
    assert!(srv.focus.ever_manual_focus);
    assert_eq!(srv.take_work(), vec![WorkOrder::ChangeEntry { entry: Some("/b.ext".to_owned()) }]);
    // the same focus again changes no main file
    assert_eq!(srv.focus_document(vec![text("/b.ext")]), Ok(JsonValue::Null));
    assert!(srv.take_work().is_empty());
    assert_eq!(srv.pin_document(vec![text("/a.ext")]), Ok(JsonValue::Null));
    assert_eq!(srv.take_work(), vec![WorkOrder::ChangeEntry { entry: Some("/a.ext".to_owned()) }]);
    assert_eq!(srv.pin_document(vec![JsonValue::Null]), Ok(JsonValue::Null));
    assert_eq!(srv.take_work(), vec![WorkOrder::ChangeEntry { entry: Some("/b.ext".to_owned()) }]);
    assert_eq!(srv.focus_document(vec![JsonValue::Null]), Ok(JsonValue::Null));
    assert_eq!(srv.take_work(), vec![WorkOrder::ChangeEntry { entry: None }]);
}

#[test]
fn trace_needs_root_main_and_worker() {
    let trace_err = |m: &str| Err(err(-32603, &format!("could not get document trace: {m}")));
    let id = RequestId::Number(8);
    let mut srv = server();
    assert_eq!(srv.get_document_trace(id.clone(), vec![]), Err(err(-32602, BAD_PATH)));
    assert_eq!(
        srv.get_document_trace(id.clone(), vec![text("main.typ")]),
        trace_err("root must be determined for trace")
    );
    assert_eq!(
        srv.get_document_trace(id.clone(), vec![text("/w/main.typ")]),
        trace_err("user action thread is not available")
    );
    srv.user_action_thread = true;
    assert_eq!(srv.get_document_trace(id.clone(), vec![text("/w/main.typ")]), Ok(Outcome::Deferred));
    assert_eq!(
        srv.take_work(),
        vec![WorkOrder::Trace { id: id.clone(), root: "/w".to_owned(), main: "/w/main.typ".to_owned() }]
    );
    assert_eq!(srv.get_document_trace(id.clone(), vec![text("/main.typ")]), Ok(Outcome::Deferred));
    assert_eq!(
        srv.take_work(),
        vec![WorkOrder::Trace { id: id.clone(), root: "/".to_owned(), main: "/main.typ".to_owned() }]
    );
    srv.config.compile.root_path = Some("/project".to_owned());
    assert_eq!(
        srv.get_document_trace(id.clone(), vec![text("/w/main.typ")]),
        trace_err("main file must be resolved")
    );
    assert_eq!(
        srv.get_document_trace(id.clone(), vec![text("/projects/main.typ")]),
        trace_err("main file must be resolved")
    );
    assert_eq!(
        srv.get_document_trace(id.clone(), vec![text("/project/sub/main.typ")]),
        Ok(Outcome::Deferred)
    );
    assert_eq!(
        srv.take_work(),
        vec![WorkOrder::Trace { id, root: "/project".to_owned(), main: "/project/sub/main.typ".to_owned() }]
    );
}

#[test]
fn parent_and_under() {
    let c = |s: &str| s.chars().collect::<Vec<char>>();
    assert_eq!(parent(&c("/a/b.typ")), Some(c("/a")));
    assert_eq!(parent(&c("/b.typ")), Some(c("/")));
    assert_eq!(parent(&c("b.typ")), None);
    assert_eq!(parent(&c("")), None);
    assert_eq!(parent(&c("a/b/c")), Some(c("a/b")));
    assert!(is_under(&c("/a"), &c("/a/b")));
    assert!(is_under(&c("/"), &c("/a/b")));
    assert!(!is_under(&c("/a"), &c("/ab")));
    assert!(!is_under(&c("/a"), &c("/a")));
    assert!(!is_under(&c("/a/b"), &c("/a")));
}

fn spec(ns: &str, name: &str, v: (u32, u32, u32)) -> PackageSpec {
    PackageSpec {
        namespace: ns.to_owned(),
        name: name.to_owned(),
        version: PackageVersion { major: v.0, minor: v.1, patch: v.2 },
    }
}

#[test]
fn template_sources() {
    assert_eq!(
        parse_template_source("@preview/charged-ieee:0.1.2"),
        Ok(TemplateSource::Package(spec("preview", "charged-ieee", (0, 1, 2))))
    );
    assert_eq!(
        parse_template_source("@preview/charged-ieee"),
        Ok(TemplateSource::Latest(VersionlessPackageSpec {
            namespace: "preview".to_owned(),
            name: "charged-ieee".to_owned()
        }))
    );
    // the message of the full specification is preferred
    assert_eq!(
        parse_template_source("preview/x:1.0.0"),
        Err("package specification must start with '@'".to_owned())
    );
    assert_eq!(
        parse_template_source("@preview/x:1.0"),
        Err("version number is missing patch version".to_owned())
    );
}

#[test]
fn template_commands_leave_work_orders() {
    let id = RequestId::Text("t".to_owned());
    let mut srv = server();
    let bad_source = Err(err(-32602, "The first parameter is not a valid source or null"));
    assert_eq!(srv.init_template(id.clone(), vec![]), bad_source);
    assert_eq!(srv.init_template(id.clone(), vec![JsonValue::Null, JsonValue::Null]), bad_source);
    assert_eq!(srv.do_get_template_entry(id.clone(), vec![num(1)]), bad_source);
    assert_eq!(srv.init_template(id.clone(), vec![text("@preview/x:1.0.0")]), Err(err(-32602, BAD_PATH)));
    assert_eq!(
        srv.init_template(id.clone(), vec![text("x"), JsonValue::Null]),
        Err(err(
            -32602,
            "failed to determine template source: failed to parse package spec: package specification must start with '@'"
        ))
    );
    assert_eq!(
        srv.do_get_template_entry(id.clone(), vec![text("@/x")]),
        Err(err(
            -32602,
            "failed to determine template entry: failed to parse package spec: package specification is missing namespace"
        ))
    );
    assert!(srv.take_work().is_empty());

    assert_eq!(
        srv.init_template(id.clone(), vec![text("@preview/x:1.0.0"), text("/tmp/new/")]),
        Ok(Outcome::Deferred)
    );
    assert_eq!(
        srv.init_template(id.clone(), vec![text("@preview/x"), JsonValue::Null]),
        Ok(Outcome::Deferred)
    );
    assert_eq!(srv.do_get_template_entry(id.clone(), vec![text("@preview/x:1.0.0")]), Ok(Outcome::Deferred));
    let latest = TemplateSource::Latest(VersionlessPackageSpec {
        namespace: "preview".to_owned(),
        name: "x".to_owned(),
    });
    assert_eq!(
        srv.take_work(),
        vec![
            WorkOrder::InitTemplate {
                id: id.clone(),
                template: TemplateSource::Package(spec("preview", "x", (1, 0, 0))),
                dir: Some("/tmp/new".to_owned()),
            },
            WorkOrder::InitTemplate { id: id.clone(), template: latest, dir: None },
            WorkOrder::GetTemplateEntry {
                id,
                template: TemplateSource::Package(spec("preview", "x", (1, 0, 0))),
            },
        ]
    );
}

#[test]
fn finishing_template_commands() {
    assert_eq!(
        finish_init_template(Ok("/tmp/new/main.typ".to_owned())),
        Ok(obj(vec![("entryPath", text("/tmp/new/main.typ"))]))
    );
    assert_eq!(
        finish_init_template(Err("directory is not empty".to_owned())),
        Err(err(
            -32603,
            "failed to determine template source: failed to initialize template: directory is not empty"
        ))
    );
    assert_eq!(finish_template_entry(Ok("#show: it => it — ü".as_bytes().to_vec())), Ok(text("#show: it => it — ü")));
    assert_eq!(
        finish_template_entry(Ok(vec![b'a', 0xc3])),
        Err(err(-32602, "template entry is not a valid UTF-8 string"))
    );
    assert_eq!(
        finish_template_entry(Err("no such package".to_owned())),
        Err(err(
            -32603,
            "failed to determine template entry: failed to get template entry: no such package"
        ))
    );
}

#[test]
fn finishing_commands() {
    assert_eq!(finish_command(CommandKind::ExportPdf, Ok(Ok(text("/out.pdf")))), Ok(text("/out.pdf")));
    assert_eq!(finish_command(CommandKind::ExportPdf, Ok(Ok(JsonValue::Null))), Ok(JsonValue::Null));
    assert_eq!(
        finish_command(CommandKind::ExportSvg, Ok(Err("detail".to_owned()))),
        Err(err(-32603, "Cannot serialize path"))
    );
    assert_eq!(
        finish_command(CommandKind::InteractCodeContext, Ok(Err("detail".to_owned()))),
        Err(err(-32603, "Cannot serialize responses"))
    );
    assert_eq!(
        finish_command(CommandKind::GetDocumentMetrics, Ok(Err("detail".to_owned()))),
        Err(err(-32603, "Cannot serialize response detail"))
    );
    assert_eq!(
        finish_command(CommandKind::GetServerInfo, Err("compiler is gone".to_owned())),
        Err(err(-32603, "compiler is gone"))
    );
}

#[test]
fn language_features_plan_queries() {
    let mut srv = server();
    let doc = obj(vec![("uri", text("untitled:Untitled-1"))]);
    let at = obj(vec![("line", num(3)), ("character", num(7))]);
    let params = obj(vec![("textDocument", doc.clone()), ("position", at.clone())]);
    assert_eq!(
        srv.language_query(RequestKind::GotoDefinition, params.clone()),
        Ok(Query::Document {
            kind: RequestKind::GotoDefinition,
            path: "/untitled/Untitled-1".to_owned(),
            params: params.clone()
        })
    );
    assert!(srv.take_work().is_empty());
    let bad = Err(err(-32602, "The parameters do not have the shape that the method takes"));
    let only_doc = obj(vec![("textDocument", doc.clone())]);
    assert_eq!(srv.language_query(RequestKind::References, only_doc.clone()), bad);
    assert_eq!(srv.language_query(RequestKind::Rename, params.clone()), bad);
    assert_eq!(srv.language_query(RequestKind::CodeLens, JsonValue::Null), bad);
    assert_eq!(srv.language_query(RequestKind::SemanticTokensFullDelta, only_doc.clone()), bad);
    assert!(srv.focus.focused.is_none());

    assert_eq!(
        srv.language_query(RequestKind::FoldingRange, only_doc.clone()),
        Ok(Query::FoldingRange { path: "/untitled/Untitled-1".to_owned(), line_folding_only: true })
    );
    assert_eq!(srv.focus.focused.as_deref(), Some("/untitled/Untitled-1"));
    assert!(srv.focus.ever_focused_by_activity);
    assert_eq!(
        srv.take_work(),
        vec![WorkOrder::ChangeEntry { entry: Some("/untitled/Untitled-1".to_owned()) }]
    );

    let invoked = obj(vec![
        ("textDocument", doc.clone()),
        ("position", at.clone()),
        ("context", obj(vec![("triggerKind", num(1))])),
    ]);
    assert_eq!(
        srv.language_query(RequestKind::Completion, invoked.clone()),
        Ok(Query::Completion {
            path: "/untitled/Untitled-1".to_owned(),
            params: invoked,
            explicit: true
        })
    );
    let typed = obj(vec![
        ("textDocument", doc),
        ("position", at),
        ("context", obj(vec![("triggerKind", num(2))])),
    ]);
    assert_eq!(
        srv.language_query(RequestKind::Completion, typed.clone()),
        Ok(Query::Completion {
            path: "/untitled/Untitled-1".to_owned(),
            params: typed,
            explicit: false
        })
    );
    assert_eq!(
        srv.symbol(&obj(vec![("query", text("fig"))])),
        Ok(Query::Symbol { pattern: Some("fig".to_owned()) })
    );
    assert_eq!(srv.symbol(&obj(vec![("query", text(""))])), Ok(Query::Symbol { pattern: None }));
    assert_eq!(srv.symbol(&JsonValue::Null), bad);
}

#[test]
fn saving_asks_for_an_export() {
    let mut srv = server();
    let params = obj(vec![("textDocument", obj(vec![("uri", text("file:///w/a.typ"))]))]);
    assert_eq!(srv.did_save(&params), Ok(()));
    assert_eq!(
        srv.take_work(),
        vec![WorkOrder::Background { query: Query::OnSaveExport { path: "/w/a.typ".to_owned() } }]
    );
    assert_eq!(srv.did_save(&JsonValue::Null), Err(err(-32602, "The parameters name no document")));
}

#[test]
fn document_notifications_report_how_they_fared() {
    let mut srv = server();
    let open = |uri: &str, t: &str| {
        obj(vec![("textDocument", obj(vec![("uri", text(uri)), ("text", text(t))]))])
    };
    assert_eq!(srv.did_open(&open("file:///a.typ", "abc")), Ok(()));
    assert_eq!(
        srv.did_open(&open("file:///a.typ", "again")),
        Err(err(-32603, "The document is open already"))
    );
    assert_eq!(srv.documents.get("/a.typ").map(|s| s.text()).as_deref(), Some("abc"));
    assert_eq!(
        srv.did_open(&obj(vec![("textDocument", obj(vec![("uri", text("file:///b.typ"))]))])),
        Err(err(-32602, "The parameters name no document"))
    );
    let change = |uri: &str, changes: JsonValue| {
        obj(vec![("textDocument", obj(vec![("uri", text(uri))])), ("contentChanges", changes)])
    };
    let range = obj(vec![
        ("start", obj(vec![("line", num(0)), ("character", num(1))])),
        ("end", obj(vec![("line", num(0)), ("character", num(2))])),
    ]);
    let edits = JsonValue::Array(vec![
        obj(vec![("range", range), ("text", text("XX"))]),
        obj(vec![("text", text("whole"))]),
        obj(vec![("range", JsonValue::Null), ("text", text("whole again"))]),
    ]);
    assert_eq!(srv.did_change(&change("file:///a.typ", edits.clone())), Ok(()));
    assert_eq!(srv.documents.get("/a.typ").map(|s| s.text()).as_deref(), Some("whole again"));
    assert_eq!(
        srv.did_change(&change("file:///zzz.typ", edits)),
        Err(err(-32603, "The document is not open"))
    );
    assert_eq!(
        srv.did_change(&change("file:///a.typ", JsonValue::Array(vec![text("x")]))),
        Err(err(-32602, "The parameters name no document"))
    );
    let out_of_range = obj(vec![
        ("start", obj(vec![("line", num(5)), ("character", num(0))])),
        ("end", obj(vec![("line", num(5)), ("character", num(0))])),
    ]);
    assert_eq!(
        srv.did_change(&change(
            "file:///a.typ",
            JsonValue::Array(vec![obj(vec![("range", out_of_range), ("text", text("x"))])])
        )),
        Err(err(-32603, "The changes do not apply; the document has to be opened again"))
    );
    assert!(!srv.documents.contains("/a.typ"));
    assert_eq!(
        srv.did_close(&obj(vec![("textDocument", obj(vec![("uri", text("file:///a.typ"))]))])),
        Err(err(-32603, "The document is not open"))
    );
}

#[test]
fn settings_are_forwarded_and_the_formatter_is_told() {
    let mut srv = server();
    srv.format_thread = true;
    let values = vec![("formatterPrintWidth".to_owned(), num(100))];
    assert_eq!(srv.on_changed_configuration(values.clone()), Ok(()));
    assert_eq!(
        srv.take_work(),
        vec![
            WorkOrder::ChangeConfig { values },
            WorkOrder::ChangeFormatConfig {
                mode: tinymist::config::FormatterMode::Disable,
                width: 100
            },
        ]
    );
    let before = srv.config.clone();
    assert_eq!(
        srv.on_changed_configuration(vec![("semanticTokens".to_owned(), num(1))]),
        Err(err(-32602, "error applying new settings: semanticTokens must be enable or disable"))
    );
    assert_eq!(srv.config, before);
    assert!(srv.take_work().is_empty());
    assert!(srv.client.take_outbox().is_empty());
}
