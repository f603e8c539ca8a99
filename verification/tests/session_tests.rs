use tinymist::config::{ConstConfig, FormatterMode};
use tinymist::host::LspHost;
use tinymist::json::{JsonNumber, JsonValue};
use tinymist::message::{Message, Notification, Request, RequestId, Response, ResponseError};
use tinymist::reactor::{Handled, LoopEnd};
use tinymist::server::TypstLanguageServer;
use tinymist::source::PositionEncoding;
use tinymist::work::{Query, WorkOrder};

fn text(s: &str) -> JsonValue {
    JsonValue::Text(s.to_owned())
}

fn obj(members: Vec<(&str, JsonValue)>) -> JsonValue {
    JsonValue::Object(members.into_iter().map(|(k, v)| (k.to_owned(), v)).collect())
}

fn num(n: u64) -> JsonValue {
    JsonValue::Number(JsonNumber::PosInt(n))
}

fn const_config(dynamic: bool) -> ConstConfig {
    ConstConfig {
        position_encoding: PositionEncoding::Utf16,
        cfg_change_registration: dynamic,
        tokens_dynamic_registration: dynamic,
        tokens_overlapping_token_support: false,
        tokens_multiline_token_support: false,
        doc_line_folding_only: true,
        doc_fmt_dynamic_registration: dynamic,
    }
}

fn server(dynamic: bool) -> TypstLanguageServer {
    TypstLanguageServer::new(LspHost::new(), const_config(dynamic), obj(vec![("legend", JsonValue::Null)]))
}

fn request(id: i32, method: &str, params: JsonValue) -> Message {
    Message::Request(Request { id: RequestId::Number(id), method: method.to_owned(), params })
}

fn notification(method: &str, params: JsonValue) -> Message {
    Message::Notification(Notification { method: method.to_owned(), params })
}

fn doc(uri: &str) -> JsonValue {
    obj(vec![("uri", text(uri))])
}

fn execute(command: &str, arguments: Vec<JsonValue>) -> JsonValue {
    obj(vec![("command", text(command)), ("arguments", JsonValue::Array(arguments))])
}

fn error_response(id: i32, code: i32, message: &str) -> Message {
    Message::Response(Response {
        id: RequestId::Number(id),
        result: None,
        error: Some(ResponseError { code, message: message.to_owned(), data: None }),
    })
}

fn ok_response(id: i32, value: JsonValue) -> Message {
    Message::Response(Response { id: RequestId::Number(id), result: Some(value), error: None })
}

fn entries(srv: &mut TypstLanguageServer) -> Vec<Option<String>> {
    srv.take_work()
        .into_iter()
        .filter_map(|w| match w {
            WorkOrder::ChangeEntry { entry } => Some(entry),
            _ => None,
        })
        .collect()
}

#[test]
fn shutdown_ordering() {
    let mut srv = server(false);
    let end = srv.main_loop(vec![
        (1, request(1, "shutdown", JsonValue::Null)),
        (2, request(2, "textDocument/hover", obj(vec![("textDocument", doc("file:///a.typ"))]))),
        (3, notification("exit", JsonValue::Null)),
        (4, request(3, "shutdown", JsonValue::Null)),
    ]);
    assert_eq!(end, LoopEnd::Exit);
    assert!(srv.shutdown_requested);
    assert_eq!(
        srv.client.take_outbox(),
        vec![
            ok_response(1, JsonValue::Null),
            error_response(2, -32600, "Shutdown already requested."),
        ]
    );
    assert!(srv.take_work().is_empty());
}

#[test]
fn loss_of_the_stream_ends_the_loop_too() {
    let mut srv = server(false);
    let end = srv.main_loop(vec![(1, request(1, "shutdown", JsonValue::Null))]);
    assert_eq!(end, LoopEnd::Disconnected);
    assert_eq!(srv.main_loop(vec![]), LoopEnd::Disconnected);
}

#[test]
fn unknown_command() {
    let mut srv = server(false);
    let handled = srv.on_message(0, request(7, "workspace/executeCommand", execute("nonesuch", vec![])));
    assert_eq!(handled, Handled::Done(Ok(())));
    assert_eq!(srv.client.take_outbox(), vec![error_response(7, -32601, "Method not found")]);
    assert!(srv.take_work().is_empty());
}

#[test]
fn unknown_request_is_answered_with_method_not_found() {
    let mut srv = server(false);
    srv.on_message(0, request(9, "textDocument/nonesuch", JsonValue::Null));
    assert_eq!(srv.client.take_outbox(), vec![error_response(9, -32601, "Method not found")]);
}

#[test]
fn unknown_notification_is_ignored() {
    let mut srv = server(false);
    let before = server(false);
    assert_eq!(srv.on_message(0, notification("$/setTrace", JsonValue::Null)), Handled::Done(Ok(())));
    assert_eq!(srv, before);
}

#[test]
fn uri_normalization() {
    let mut srv = server(false);
    let uri = "untitled:/path/to/file%20with%20space";
    let open = obj(vec![(
        "textDocument",
        obj(vec![("uri", text(uri)), ("text", text("hello"))]),
    )]);
    srv.on_message(0, notification("textDocument/didOpen", open));
    assert_eq!(srv.documents.len(), 1);
    assert_eq!(srv.documents.sources[0].path, "/untitled/path/to/file with space");
    assert!(srv.documents.contains("/untitled/path/to/file with space"));
    srv.on_message(1, notification("textDocument/didClose", obj(vec![("textDocument", doc(uri))])));
    assert_eq!(srv.documents.len(), 0);
}

fn settings(tokens: &str) -> JsonValue {
    obj(vec![("settings", obj(vec![("semanticTokens", text(tokens))]))])
}

fn registrations(outbox: &[Message], method: &str) -> usize {
    outbox
        .iter()
        .filter(|m| matches!(m, Message::Request(r) if r.method == method))
        .count()
}

#[test]
fn config_diff_to_dynamic_register() {
    let mut srv = server(true);
    srv.on_message(0, notification("workspace/didChangeConfiguration", settings("disable")));
    assert!(srv.client.take_outbox().is_empty());
    assert!(!srv.sema_tokens_registered);

    srv.on_message(1, notification("workspace/didChangeConfiguration", settings("enable")));
    let out = srv.client.take_outbox();
    assert_eq!(out.len(), 1);
    assert_eq!(registrations(&out, "client/registerCapability"), 1);
    match &out[0] {
        Message::Request(r) => {
            let regs = r.params.get("registrations").and_then(|v| v.as_array()).unwrap();
            assert_eq!(regs.len(), 1);
            let id = regs[0].get("id").and_then(|v| v.as_str()).unwrap();
            assert!(id.contains("semanticTokens"));
            assert_eq!(
                regs[0].get("method").and_then(|v| v.as_str()),
                Some("textDocument/semanticTokens")
            );
            assert_eq!(regs[0].get("registerOptions"), Some(&obj(vec![("legend", JsonValue::Null)])));
        }
        other => panic!("unexpected message {other:?}"),
    }
    assert!(srv.sema_tokens_registered);

    srv.on_message(2, notification("workspace/didChangeConfiguration", settings("enable")));
    assert!(srv.client.take_outbox().is_empty());

    srv.on_message(3, notification("workspace/didChangeConfiguration", settings("disable")));
    let out = srv.client.take_outbox();
    assert_eq!(out.len(), 1);
    assert_eq!(registrations(&out, "client/unregisterCapability"), 1);
    assert!(!srv.sema_tokens_registered);
}

#[test]
fn no_registration_without_dynamic_registration() {
    let mut srv = server(false);
    srv.on_message(0, notification("workspace/didChangeConfiguration", settings("disable")));
    srv.on_message(1, notification("workspace/didChangeConfiguration", settings("enable")));
    assert!(srv.client.take_outbox().is_empty());
    assert!(!srv.sema_tokens_registered);
}

#[test]
fn registration_is_not_noted_when_it_cannot_be_sent() {
    let mut srv = server(true);
    srv.on_message(0, notification("workspace/didChangeConfiguration", settings("disable")));
    srv.client.close();
    assert!(srv.enable_sema_token_caps(true).is_err());
    assert!(!srv.sema_tokens_registered);
}

#[test]
fn pin_precedence() {
    let mut srv = server(false);
    srv.on_message(0, request(1, "workspace/executeCommand", execute("tinymist.pinMain", vec![text("/a.ext")])));
    assert_eq!(entries(&mut srv), vec![Some("/a.ext".to_owned())]);
    srv.on_message(1, request(2, "workspace/executeCommand", execute("tinymist.focusMain", vec![text("/b.ext")])));
    assert!(entries(&mut srv).is_empty());
    assert_eq!(srv.focus.effective().as_deref(), Some("/a.ext"));
    srv.on_message(2, request(3, "workspace/executeCommand", execute("tinymist.pinMain", vec![JsonValue::Null])));
    assert_eq!(entries(&mut srv), vec![Some("/b.ext".to_owned())]);
    assert_eq!(srv.focus.effective().as_deref(), Some("/b.ext"));
    assert_eq!(
        srv.client.take_outbox(),
        vec![
            ok_response(1, JsonValue::Null),
            ok_response(2, JsonValue::Null),
            ok_response(3, JsonValue::Null),
        ]
    );
}

#[test]
fn implicit_focus_is_a_no_op_after_manual_focus() {
    let mut srv = server(false);
    srv.implicit_focus_entry(Some("/x.typ".to_owned()), 'h');
    assert_eq!(srv.focus.effective().as_deref(), Some("/x.typ"));
    assert!(srv.focus.ever_focused_by_activity);
    // opening a document no longer moves the focus once an activity did
    srv.implicit_focus_entry(Some("/opened.typ".to_owned()), 'o');
    assert_eq!(srv.focus.effective().as_deref(), Some("/x.typ"));
    srv.focus_document(vec![text("/manual.typ")]).unwrap();
    let before_focus = srv.focus.clone();
    srv.take_work();
    srv.implicit_focus_entry(Some("/y.typ".to_owned()), 't');
    assert_eq!(srv.focus, before_focus);
    assert!(srv.take_work().is_empty());
    assert_eq!(srv.focus.effective().as_deref(), Some("/manual.typ"));
}

#[test]
fn async_formatting() {
    let mut srv = server(false);
    srv.format_thread = true;
    srv.config.formatter = FormatterMode::Typstyle;
    let open = obj(vec![(
        "textDocument",
        obj(vec![("uri", text("file:///doc.typ")), ("text", text("= Title"))]),
    )]);
    srv.on_message(0, notification("textDocument/didOpen", open));
    srv.take_work();
    let params = obj(vec![("textDocument", doc("file:///doc.typ"))]);
    srv.on_message(1, request(42, "textDocument/formatting", params));
    // nothing is answered before the worker is done
    assert!(srv.client.take_outbox().is_empty());
    assert_eq!(
        srv.take_work(),
        vec![WorkOrder::Format {
            id: RequestId::Number(42),
            path: "/doc.typ".to_owned(),
            text: "= Title".to_owned(),
        }]
    );
    // the worker answers later, once
    let edits = JsonValue::Array(vec![]);
    assert!(srv.complete(RequestId::Number(42), Ok(Ok(JsonValue::Array(vec![])))));
    assert!(!srv.complete(RequestId::Number(42), Ok(Ok(JsonValue::Null))));
    assert_eq!(srv.client.take_outbox(), vec![ok_response(42, edits)]);
}

#[test]
fn formatting_is_answered_with_null_when_disabled() {
    let mut srv = server(false);
    let params = obj(vec![("textDocument", doc("file:///doc.typ"))]);
    srv.on_message(1, request(5, "textDocument/formatting", params));
    assert_eq!(srv.client.take_outbox(), vec![ok_response(5, JsonValue::Null)]);
}

#[test]
fn every_request_gets_exactly_one_response() {
    let mut srv = server(false);
    let hover = obj(vec![
        ("textDocument", doc("file:///a.typ")),
        ("position", obj(vec![("line", num(1)), ("character", num(2))])),
    ]);
    let inbox = vec![
        (0, request(1, "textDocument/hover", hover)),
        (1, request(2, "workspace/executeCommand", execute("tinymist.doClearCache", vec![]))),
        (2, request(3, "textDocument/hover", JsonValue::Null)),
        (3, request(4, "workspace/symbol", obj(vec![("query", text(""))]))),
    ];
    assert_eq!(srv.main_loop(inbox), LoopEnd::Disconnected);
    let work = srv.take_work();
    let carried: Vec<RequestId> = work
        .iter()
        .filter_map(|w| match w {
            WorkOrder::Query { id, .. } => Some(id.clone()),
            _ => None,
        })
        .collect();
    assert_eq!(carried, vec![RequestId::Number(1), RequestId::Number(4)]);
    assert!(work.contains(&WorkOrder::Query {
        id: RequestId::Number(4),
        query: Query::Symbol { pattern: None },
    }));
    for id in carried {
        assert!(srv.complete(id, Err(ResponseError { code: -32603, message: "boom".to_owned(), data: None })));
    }
    let out = srv.client.take_outbox();
    let mut ids: Vec<i32> = out
        .iter()
        .map(|m| match m {
            Message::Response(Response { id: RequestId::Number(n), .. }) => *n,
            other => panic!("unexpected message {other:?}"),
        })
        .collect();
    ids.sort();
    assert_eq!(ids, vec![1, 2, 3, 4]);
    assert!(out.contains(&error_response(3, -32602, "The parameters do not have the shape that the method takes")));
    // a second answer to any of them is dropped
    for n in 1..=4 {
        assert!(!srv.complete(RequestId::Number(n), Ok(Ok(JsonValue::Null))));
    }
    assert!(srv.client.take_outbox().is_empty());
}

#[test]
fn request_ids_are_handed_back_as_they_came() {
    let mut srv = server(false);
    let id = RequestId::Text("abc-1".to_owned());
    srv.on_message(
        0,
        Message::Request(Request { id: id.clone(), method: "shutdown".to_owned(), params: JsonValue::Null }),
    );
    assert_eq!(
        srv.client.take_outbox(),
        vec![Message::Response(Response { id, result: Some(JsonValue::Null), error: None })]
    );
}

#[test]
fn initialized_registers_what_the_client_takes() {
    let mut srv = server(true);
    srv.config.formatter = FormatterMode::Typstyle;
    srv.initialized(JsonValue::Null);
    let out = srv.client.take_outbox();
    assert_eq!(registrations(&out, "client/registerCapability"), 3);
    let ids: Vec<String> = out
        .iter()
        .map(|m| match m {
            Message::Request(r) => {
                let regs = r.params.get("registrations").and_then(|v| v.as_array()).unwrap();
                regs[0].get("id").and_then(|v| v.as_str()).unwrap().to_owned()
            }
            other => panic!("unexpected message {other:?}"),
        })
        .collect();
    assert_eq!(ids, vec!["semanticTokens", "formatting", "config"]);
    assert!(srv.sema_tokens_registered && srv.formatter_registered);
    assert_eq!(srv.take_work(), vec![WorkOrder::Initialized { params: JsonValue::Null }]);

    let mut plain = server(false);
    plain.initialized(JsonValue::Null);
    assert!(plain.client.take_outbox().is_empty());
}

#[test]
fn configuration_is_polled_when_not_sent_inline() {
    let mut srv = server(true);
    srv.on_message(0, notification("workspace/didChangeConfiguration", obj(vec![("settings", JsonValue::Null)])));
    let out = srv.client.take_outbox();
    assert_eq!(out.len(), 1);
    let id = match &out[0] {
        Message::Request(r) => {
            assert_eq!(r.method, "workspace/configuration");
            let items = r.params.get("items").and_then(|v| v.as_array()).unwrap();
            assert_eq!(items.len(), 12);
            assert_eq!(items[0], obj(vec![("section", text("tinymist.outputPath"))]));
            assert_eq!(items[1], obj(vec![("section", text("outputPath"))]));
            assert_eq!(items[11], obj(vec![("section", text("formatterPrintWidth"))]));
            r.id.clone()
        }
        other => panic!("unexpected message {other:?}"),
    };
    let mut values: Vec<JsonValue> = Vec::new();
    for i in 0..12 {
        values.push(match i {
            6 => text("disable"),     // tinymist.semanticTokens
            9 => text("typstyle"),    // formatterMode
            10 => num(80),            // tinymist.formatterPrintWidth
            _ => JsonValue::Null,
        });
    }
    srv.on_message(1, Message::Response(Response { id: id.clone(), result: Some(JsonValue::Array(values)), error: None }));
    assert_eq!(srv.config.formatter, FormatterMode::Typstyle);
    assert_eq!(srv.config.formatter_print_width, 80);
    assert!(srv.formatter_registered);
    // the reply is taken once
    let before = srv.config.clone();
    srv.on_message(2, Message::Response(Response { id, result: Some(JsonValue::Array(vec![text("x"), text("y")])), error: None }));
    assert_eq!(srv.config, before);
}

#[test]
fn attributes_are_negotiated_from_the_client_capabilities() {
    let yes = JsonValue::Bool(true);
    let caps = obj(vec![
        ("general", obj(vec![("positionEncodings", JsonValue::Array(vec![text("utf-16"), text("utf-8")]))])),
        (
            "textDocument",
            obj(vec![
                (
                    "semanticTokens",
                    obj(vec![("dynamicRegistration", yes.clone()), ("multilineTokenSupport", yes.clone())]),
                ),
                ("foldingRange", obj(vec![("lineFoldingOnly", JsonValue::Bool(false))])),
                ("formatting", obj(vec![("dynamicRegistration", JsonValue::Null)])),
            ]),
        ),
        ("workspace", obj(vec![("didChangeConfiguration", obj(vec![("dynamicRegistration", yes)]))])),
    ]);
    assert_eq!(
        ConstConfig::negotiate(&caps),
        ConstConfig {
            position_encoding: PositionEncoding::Utf8,
            cfg_change_registration: true,
            tokens_dynamic_registration: true,
            tokens_overlapping_token_support: false,
            tokens_multiline_token_support: true,
            doc_line_folding_only: false,
            doc_fmt_dynamic_registration: false,
        }
    );
    assert_eq!(
        ConstConfig::negotiate(&JsonValue::Null),
        ConstConfig {
            position_encoding: PositionEncoding::Utf16,
            cfg_change_registration: false,
            tokens_dynamic_registration: false,
            tokens_overlapping_token_support: false,
            tokens_multiline_token_support: false,
            doc_line_folding_only: true,
            doc_fmt_dynamic_registration: false,
        }
    );
    let only_32 = obj(vec![("general", obj(vec![("positionEncodings", JsonValue::Array(vec![text("utf-32")]))]))]);
    assert_eq!(ConstConfig::negotiate(&only_32).position_encoding, PositionEncoding::Utf16);
}

#[test]
fn static_capabilities_stand_in_where_dynamic_registration_is_missing() {
    let mut srv = server(false);
    assert!(srv.static_capabilities().semantic_tokens);
    assert!(!srv.static_capabilities().formatting);
    srv.config.formatter = FormatterMode::Typstfmt;
    assert!(srv.static_capabilities().formatting);
    let mut dynamic = server(true);
    dynamic.config.formatter = FormatterMode::Typstfmt;
    assert!(!dynamic.static_capabilities().semantic_tokens);
    assert!(!dynamic.static_capabilities().formatting);
}

#[test]
fn compilers_for_tasks_come_and_go() {
    let mut srv = server(false);
    assert!(!srv.add_dedicate(0));
    assert!(srv.add_dedicate(3));
    assert!(srv.add_dedicate(5));
    assert!(!srv.add_dedicate(3));
    assert_eq!(srv.dedicates, vec![3, 5]);
    assert!(!srv.drop_dedicate(4));
    assert!(srv.drop_dedicate(3));
    assert!(!srv.drop_dedicate(3));
    assert_eq!(srv.dedicates, vec![5]);
}

#[test]
fn notifications_are_never_answered() {
    let mut srv = server(true);
    let open = obj(vec![("textDocument", obj(vec![("uri", text("file:///a.typ")), ("text", text("x"))]))]);
    for (i, message) in [
        notification("textDocument/didOpen", open.clone()),
        notification("textDocument/didOpen", open),
        notification("textDocument/didClose", JsonValue::Null),
        notification("workspace/didChangeConfiguration", settings("disable")),
        notification("workspace/didChangeConfiguration", settings("nonsense")),
        notification("workspace/didChangeConfiguration", JsonValue::Null),
    ]
    .into_iter()
    .enumerate()
    {
        srv.on_message(i as u64, message);
    }
    assert!(srv
        .client
        .take_outbox()
        .iter()
        .all(|m| !matches!(m, Message::Response(_))));
}

#[test]
fn well_formedness_can_be_looked_up() {
    let mut srv = server(true);
    assert!(srv.is_wf());
    srv.initialized(JsonValue::Null);
    srv.on_message(0, request(1, "textDocument/hover", JsonValue::Null));
    let open = obj(vec![("textDocument", obj(vec![("uri", text("file:///a.typ")), ("text", text("x"))]))]);
    srv.on_message(1, notification("textDocument/didOpen", open));
    assert!(srv.is_wf());

    let mut twice = server(false);
    twice.documents.sources.push(tinymist::source::Source::new("/a".to_owned(), ""));
    twice.documents.sources.push(tinymist::source::Source::new("/a".to_owned(), ""));
    assert!(!twice.documents.is_wf());
    assert!(!twice.is_wf());

    let mut renamed = server(false);
    renamed.regular_cmds[0].name = "shut-down".to_owned();
    assert!(!renamed.is_wf());
    let mut shorter = server(false);
    shorter.exec_cmds.pop();
    assert!(!shorter.is_wf());

    let mut host = LspHost::new();
    assert!(host.is_wf());
    host.send_request("a", JsonValue::Null, tinymist::host::Callback::Registration).unwrap();
    host.send_request("b", JsonValue::Null, tinymist::host::Callback::Registration).unwrap();
    assert!(host.is_wf());
    host.next_id = 1;
    assert!(!host.is_wf());
    host.next_id = 2;
    host.pending[1].id = 0;
    assert!(!host.is_wf());
    let mut host = LspHost::new();
    host.register_request(&RequestId::Number(1), "a", 0);
    host.register_request(&RequestId::Text("1".to_owned()), "a", 0);
    assert!(host.is_wf());
    host.incoming[1].id = RequestId::Number(1);
    assert!(!host.is_wf());
}

#[test]
fn messages_say_what_became_of_them() {
    let mut srv = server(false);
    let before = srv.clone();
    assert_eq!(srv.on_message(0, notification("exit", JsonValue::Null)), Handled::Exit);
    assert_eq!(srv, before);
    // a notification hands back how its handler fared
    assert_eq!(
        srv.on_message(1, notification("textDocument/didClose", JsonValue::Null)),
        Handled::Done(Err(ResponseError {
            code: -32602,
            message: "The parameters name no document".to_owned(),
            data: None
        }))
    );
    // what goes wrong with a request is in its answer
    assert_eq!(
        srv.on_message(2, request(1, "textDocument/hover", JsonValue::Null)),
        Handled::Done(Ok(()))
    );
    assert_eq!(srv.client.take_outbox().len(), 1);
    srv.shutdown();
    assert_eq!(srv.on_message(3, notification("exit", JsonValue::Null)), Handled::Exit);
}

#[test]
fn a_session_with_workers_answers_each_request_once() {
    let mut srv = server(false);
    srv.user_action_thread = true;
    let hover = |uri: &str| {
        obj(vec![
            ("textDocument", doc(uri)),
            ("position", obj(vec![("line", num(0)), ("character", num(0))])),
        ])
    };
    // requests, a notification and answers of workers, interleaved
    srv.on_message(0, request(10, "textDocument/hover", hover("file:///a.typ")));
    srv.on_message(1, request(11, "workspace/executeCommand", execute("tinymist.getDocumentTrace", vec![text("/w/a.typ")])));
    assert!(srv.complete(RequestId::Number(10), Ok(Ok(JsonValue::Null))));
    srv.on_message(2, notification("textDocument/didSave", obj(vec![("textDocument", doc("file:///a.typ"))])));
    srv.on_message(3, request(12, "shutdown", JsonValue::Null));
    srv.on_message(4, request(13, "textDocument/hover", hover("file:///a.typ")));
    // an answer to a request that never came is dropped
    assert!(!srv.complete(RequestId::Number(99), Ok(Ok(JsonValue::Null))));
    assert!(srv.complete(RequestId::Number(11), Ok(Ok(text("trace")))));
    let mut ids: Vec<i32> = srv
        .client
        .take_outbox()
        .iter()
        .map(|m| match m {
            Message::Response(Response { id: RequestId::Number(n), .. }) => *n,
            other => panic!("unexpected message {other:?}"),
        })
        .collect();
    ids.sort();
    assert_eq!(ids, vec![10, 11, 12, 13]);
    assert!(srv.client.incoming.is_empty());
}
