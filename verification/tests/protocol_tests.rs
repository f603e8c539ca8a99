use lsp_types::notification as n;
use lsp_types::notification::Notification as NotificationTrait;
use lsp_types::request as r;
use lsp_types::request::Request as RequestTrait;
use tinymist::config::Config;
use tinymist::dispatch::{
    get_exec_commands, get_notify_cmds, get_regular_cmds, get_resources_routes, lookup,
    CommandKind, NotifyKind, RequestKind, ResourceKind,
};
use tinymist::host::{Callback, HostError, LspHost, Registration, Unregistration};
use tinymist::json::{JsonNumber, JsonValue};
use tinymist::message::{
    internal_error, invalid_params, method_not_found, result_to_response,
    shutdown_already_requested, Message, RequestId, Response, ResponseError,
};

fn from_serde(v: &serde_json::Value) -> JsonValue {
    match v {
        serde_json::Value::Null => JsonValue::Null,
        serde_json::Value::Bool(b) => JsonValue::Bool(*b),
        serde_json::Value::Number(n) => {
            if let Some(u) = n.as_u64() {
                JsonValue::Number(JsonNumber::PosInt(u))
            } else if let Some(i) = n.as_i64() {
                JsonValue::Number(JsonNumber::NegInt(i))
            } else {
                JsonValue::Number(JsonNumber::Real(n.to_string()))
            }
        }
        serde_json::Value::String(s) => JsonValue::Text(s.clone()),
        serde_json::Value::Array(items) => JsonValue::Array(items.iter().map(from_serde).collect()),
        serde_json::Value::Object(m) => {
            JsonValue::Object(m.iter().map(|(k, v)| (k.clone(), from_serde(v))).collect())
        }
    }
}

/// Compares objects without regard to the order of their members.
fn same_json(a: &JsonValue, b: &JsonValue) -> bool {
    match (a, b) {
        (JsonValue::Array(x), JsonValue::Array(y)) => {
            x.len() == y.len() && x.iter().zip(y).all(|(p, q)| same_json(p, q))
        }
        (JsonValue::Object(x), JsonValue::Object(y)) => {
            x.len() == y.len()
                && x.iter().all(|(k, v)| y.iter().any(|(k2, v2)| k == k2 && same_json(v, v2)))
        }
        _ => a == b,
    }
}

#[test]
fn error_codes_are_those_of_the_protocol() {
    assert_eq!(invalid_params("x").code, lsp_server::ErrorCode::InvalidParams as i32);
    assert_eq!(invalid_params("x").code, -32602);
    assert_eq!(internal_error("x").code, lsp_server::ErrorCode::InternalError as i32);
    assert_eq!(internal_error("x").code, -32603);
    assert_eq!(method_not_found().code, lsp_server::ErrorCode::MethodNotFound as i32);
    assert_eq!(method_not_found().code, -32601);
    assert_eq!(shutdown_already_requested().code, lsp_server::ErrorCode::InvalidRequest as i32);
    assert_eq!(shutdown_already_requested().code, -32600);
    assert_eq!(invalid_params("bad shape").message, "bad shape");
    assert_eq!(internal_error("broke").message, "broke");
    assert_eq!(method_not_found().message, "Method not found");
    assert_eq!(shutdown_already_requested().message, "Shutdown already requested.");
    assert_eq!(method_not_found().data, None);
}

#[test]
fn result_to_response_covers_every_outcome() {
    let id = RequestId::Number(3);
    assert_eq!(
        result_to_response(id.clone(), Ok(Ok(JsonValue::Bool(true)))),
        Response { id: id.clone(), result: Some(JsonValue::Bool(true)), error: None }
    );
    assert_eq!(
        result_to_response(id.clone(), Ok(Err("key must be a string".to_owned()))),
        Response {
            id: id.clone(),
            result: None,
            error: Some(ResponseError {
                code: -32603,
                message: "key must be a string".to_owned(),
                data: None
            }),
        }
    );
    let e = ResponseError { code: -32602, message: "no".to_owned(), data: Some(JsonValue::Null) };
    assert_eq!(
        result_to_response(id.clone(), Err(e)),
        Response {
            id,
            result: None,
            error: Some(ResponseError { code: -32602, message: "no".to_owned(), data: None }),
        }
    );
}

#[test]
fn request_table_uses_the_protocol_method_names() {
    let table = get_regular_cmds();
    let expected = [
        (r::Shutdown::METHOD, RequestKind::Shutdown),
        (r::Completion::METHOD, RequestKind::Completion),
        (r::SemanticTokensFullRequest::METHOD, RequestKind::SemanticTokensFull),
        (r::SemanticTokensFullDeltaRequest::METHOD, RequestKind::SemanticTokensFullDelta),
        (r::DocumentHighlightRequest::METHOD, RequestKind::DocumentHighlight),
        (r::DocumentSymbolRequest::METHOD, RequestKind::DocumentSymbol),
        (r::Formatting::METHOD, RequestKind::Formatting),
        (r::SelectionRangeRequest::METHOD, RequestKind::SelectionRange),
        (r::InlayHintRequest::METHOD, RequestKind::InlayHint),
        (r::DocumentColor::METHOD, RequestKind::DocumentColor),
        (r::ColorPresentationRequest::METHOD, RequestKind::ColorPresentation),
        (r::HoverRequest::METHOD, RequestKind::Hover),
        (r::CodeActionRequest::METHOD, RequestKind::CodeAction),
        (r::CodeLensRequest::METHOD, RequestKind::CodeLens),
        (r::FoldingRangeRequest::METHOD, RequestKind::FoldingRange),
        (r::SignatureHelpRequest::METHOD, RequestKind::SignatureHelp),
        (r::PrepareRenameRequest::METHOD, RequestKind::PrepareRename),
        (r::Rename::METHOD, RequestKind::Rename),
        (r::GotoDefinition::METHOD, RequestKind::GotoDefinition),
        (r::GotoDeclaration::METHOD, RequestKind::GotoDeclaration),
        (r::References::METHOD, RequestKind::References),
        (r::WorkspaceSymbolRequest::METHOD, RequestKind::WorkspaceSymbol),
        (r::ExecuteCommand::METHOD, RequestKind::ExecuteCommand),
    ];
    assert_eq!(table.len(), expected.len());
    for (method, kind) in expected {
        assert_eq!(lookup(&table, method), Some(kind), "{method}");
    }
    assert_eq!(lookup(&table, "textDocument/nonesuch"), None);
    assert_eq!(lookup(&table, ""), None);
}

#[test]
fn notification_table_uses_the_protocol_method_names() {
    let table = get_notify_cmds();
    let expected = [
        (n::DidOpenTextDocument::METHOD, NotifyKind::DidOpen),
        (n::DidCloseTextDocument::METHOD, NotifyKind::DidClose),
        (n::DidChangeTextDocument::METHOD, NotifyKind::DidChange),
        (n::DidSaveTextDocument::METHOD, NotifyKind::DidSave),
        (n::DidChangeConfiguration::METHOD, NotifyKind::DidChangeConfiguration),
    ];
    assert_eq!(table.len(), expected.len());
    for (method, kind) in expected {
        assert_eq!(lookup(&table, method), Some(kind), "{method}");
    }
    assert_eq!(lookup(&table, n::Exit::METHOD), None);
    assert_eq!(n::Exit::METHOD, "exit");
}

#[test]
fn command_and_resource_tables() {
    let table = get_exec_commands();
    assert_eq!(table.len(), 13);
    assert_eq!(lookup(&table, "tinymist.exportPdf"), Some(CommandKind::ExportPdf));
    assert_eq!(lookup(&table, "tinymist.exportSvg"), Some(CommandKind::ExportSvg));
    assert_eq!(lookup(&table, "tinymist.exportPng"), Some(CommandKind::ExportPng));
    assert_eq!(lookup(&table, "tinymist.doClearCache"), Some(CommandKind::ClearCache));
    assert_eq!(lookup(&table, "tinymist.pinMain"), Some(CommandKind::PinMain));
    assert_eq!(lookup(&table, "tinymist.focusMain"), Some(CommandKind::FocusMain));
    assert_eq!(lookup(&table, "tinymist.doInitTemplate"), Some(CommandKind::InitTemplate));
    assert_eq!(lookup(&table, "tinymist.doGetTemplateEntry"), Some(CommandKind::GetTemplateEntry));
    assert_eq!(lookup(&table, "tinymist.interactCodeContext"), Some(CommandKind::InteractCodeContext));
    assert_eq!(lookup(&table, "tinymist.getDocumentTrace"), Some(CommandKind::GetDocumentTrace));
    assert_eq!(lookup(&table, "tinymist.getDocumentMetrics"), Some(CommandKind::GetDocumentMetrics));
    assert_eq!(lookup(&table, "tinymist.getServerInfo"), Some(CommandKind::GetServerInfo));
    assert_eq!(lookup(&table, "tinymist.getResources"), Some(CommandKind::GetResources));
    assert_eq!(lookup(&table, "nonesuch"), None);
    assert_eq!(lookup(&table, "exportPdf"), None);

    let resources = get_resources_routes();
    assert_eq!(lookup(&resources, "/symbols"), Some(ResourceKind::Symbols));
    assert_eq!(lookup(&resources, "/tutorial"), Some(ResourceKind::Tutorial));
    assert_eq!(lookup(&resources, "/nonesuch"), None);
}

#[test]
fn registration_is_sent_as_the_protocol_types_serialise_it() {
    let mut host = LspHost::new();
    let options = from_serde(&serde_json::Value::Bool(true));
    let id = host
        .register_capability(Registration {
            id: "formatting".to_owned(),
            method: "textDocument/formatting".to_owned(),
            register_options: Some(options),
        })
        .unwrap();
    assert_eq!(id, 0);
    let wire = serde_json::to_value(lsp_types::RegistrationParams {
        registrations: vec![lsp_types::Registration {
            id: "formatting".to_owned(),
            method: "textDocument/formatting".to_owned(),
            register_options: Some(serde_json::Value::Bool(true)),
        }],
    })
    .unwrap();
    let out = host.take_outbox();
    match &out[0] {
        Message::Request(r) => {
            assert_eq!(r.id, RequestId::Number(0));
            assert_eq!(r.method, lsp_types::request::RegisterCapability::METHOD);
            assert!(same_json(&r.params, &from_serde(&wire)), "{:?}", r.params);
        }
        other => panic!("unexpected message {other:?}"),
    }

    let id = host
        .register_capability(Registration {
            id: "config".to_owned(),
            method: "workspace/didChangeConfiguration".to_owned(),
            register_options: None,
        })
        .unwrap();
    assert_eq!(id, 1);
    let wire = serde_json::to_value(lsp_types::RegistrationParams {
        registrations: vec![lsp_types::Registration {
            id: "config".to_owned(),
            method: "workspace/didChangeConfiguration".to_owned(),
            register_options: None,
        }],
    })
    .unwrap();
    match &host.take_outbox()[0] {
        Message::Request(r) => assert!(same_json(&r.params, &from_serde(&wire)), "{:?}", r.params),
        other => panic!("unexpected message {other:?}"),
    }
}

#[test]
fn unregistration_is_sent_as_the_protocol_types_serialise_it() {
    let mut host = LspHost::new();
    host.unregister_capability(Unregistration {
        id: "formatting".to_owned(),
        method: "textDocument/formatting".to_owned(),
    })
    .unwrap();
    let wire = serde_json::to_value(lsp_types::UnregistrationParams {
        unregisterations: vec![lsp_types::Unregistration {
            id: "formatting".to_owned(),
            method: "textDocument/formatting".to_owned(),
        }],
    })
    .unwrap();
    match &host.take_outbox()[0] {
        Message::Request(r) => {
            assert_eq!(r.method, lsp_types::request::UnregisterCapability::METHOD);
            assert!(same_json(&r.params, &from_serde(&wire)), "{:?}", r.params);
        }
        other => panic!("unexpected message {other:?}"),
    }
}

#[test]
fn configuration_request_is_sent_as_the_protocol_types_serialise_it() {
    let sections = [
        "outputPath",
        "exportPdf",
        "rootPath",
        "semanticTokens",
        "formatterMode",
        "formatterPrintWidth",
    ];
    let items = sections
        .iter()
        .flat_map(|item| [format!("tinymist.{item}"), item.to_string()])
        .map(|section| lsp_types::ConfigurationItem { scope_uri: None, section: Some(section) })
        .collect();
    let wire = serde_json::to_value(lsp_types::ConfigurationParams { items }).unwrap();
    assert!(same_json(&Config::get_items(), &from_serde(&wire)));
    assert_eq!(lsp_types::request::WorkspaceConfiguration::METHOD, "workspace/configuration");
}

#[test]
fn host_pairs_responses_with_requests() {
    let mut host = LspHost::new();
    let a = host.send_request("one", JsonValue::Null, Callback::Configuration).unwrap();
    let b = host.send_request("two", JsonValue::Null, Callback::Registration).unwrap();
    assert_ne!(a, b);
    let reply = |n: i32| Response { id: RequestId::Number(n), result: Some(JsonValue::Null), error: None };
    assert_eq!(host.complete_request(&reply(b)), Some(Callback::Registration));
    assert_eq!(host.complete_request(&reply(b)), None);
    assert_eq!(host.complete_request(&reply(77)), None);
    assert_eq!(
        host.complete_request(&Response { id: RequestId::Text("0".to_owned()), result: None, error: None }),
        None
    );
    assert_eq!(host.complete_request(&reply(a)), Some(Callback::Configuration));
    assert!(host.pending.is_empty());
}

#[test]
fn host_answers_each_request_once() {
    let mut host = LspHost::new();
    let id = RequestId::Text("r1".to_owned());
    let reply = Response { id: id.clone(), result: Some(JsonValue::Null), error: None };
    // unknown request: dropped
    assert!(!host.respond(reply.clone()));
    host.register_request(&id, "textDocument/hover", 17);
    assert_eq!(host.incoming[0].received_at, 17);
    assert_eq!(host.incoming[0].method, "textDocument/hover");
    assert!(host.respond(reply.clone()));
    assert!(!host.respond(reply.clone()));
    assert_eq!(host.take_outbox(), vec![Message::Response(reply.clone())]);
    // a number and a text with the same digits are different requests
    host.register_request(&RequestId::Number(1), "a", 0);
    assert!(!host.respond(Response { id: RequestId::Text("1".to_owned()), result: None, error: None }));
    assert!(host.respond(Response { id: RequestId::Number(1), result: None, error: None }));
}

#[test]
fn closed_host_sends_nothing() {
    let mut host = LspHost::new();
    host.register_request(&RequestId::Number(1), "a", 0);
    host.close();
    assert!(!host.send_notification("window/logMessage", JsonValue::Null));
    assert_eq!(
        host.send_request("one", JsonValue::Null, Callback::Registration),
        Err(HostError::Closed)
    );
    assert!(!host.respond(Response { id: RequestId::Number(1), result: None, error: None }));
    assert!(host.take_outbox().is_empty());
    assert!(host.incoming.is_empty());
}

#[test]
fn host_runs_out_of_identifiers() {
    let mut host = LspHost::new();
    host.next_id = i32::MAX;
    assert_eq!(
        host.send_request("one", JsonValue::Null, Callback::Registration),
        Err(HostError::Exhausted)
    );
    assert!(host.send_notification("n", JsonValue::Bool(false)));
    assert_eq!(host.take_outbox().len(), 1);
}

#[test]
fn host_remembers_when_a_request_came() {
    let mut host = LspHost::new();
    let id = RequestId::Number(4);
    assert_eq!(host.received_at(&id), None);
    host.register_request(&id, "textDocument/hover", 120);
    host.register_request(&RequestId::Number(5), "textDocument/hover", 130);
    assert_eq!(host.received_at(&id), Some(120));
    // noted anew
    host.register_request(&id, "textDocument/hover", 140);
    assert_eq!(host.received_at(&id), Some(140));
    assert_eq!(host.incoming.len(), 2);
    host.respond(Response { id: id.clone(), result: Some(JsonValue::Null), error: None });
    assert_eq!(host.received_at(&id), None);
    assert_eq!(host.received_at(&RequestId::Number(5)), Some(130));
}
