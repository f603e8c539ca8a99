//! The reactor: one message at a time, from the editor to its handler.
//!
//! A request is noted at the host, refused after shutdown, and else handed
//! to the handler of its method; whatever the handler returns, the request
//! is answered exactly once, at once or by the worker that carries it. A
//! notification is handed to its handler and never answered. A response is
//! paired with the request of the server that it answers.

use vstd::prelude::*;
use crate::commands::{
    clear_orders, deferred, plans, plans_code_context, plans_paged_export,
    plans_resource, spec_entry_order, spec_export, spec_init_order, spec_metrics,
    spec_trace_order,
};
use crate::decode::{params_path, spec_text_member, text_member};
use crate::dispatch::{
    exec_routes, lookup, notify_routes, regular_routes, spec_lookup, CommandKind, NotifyKind,
    RequestKind,
};
use crate::features::{formatting_spec, language_spec, plans_symbol};
use crate::focus::FocusView;
use crate::host::{
    lemma_awaited_response_is_sent, quiet, request_taken, responded, Callback, LspHost,
};
use crate::json::JsonValue;
use crate::message::{
    invalid_params, method_not_found, method_not_found_text, result_to_response,
    shutdown_already_requested, shutdown_text, spec_invalid_params, spec_invalid_request,
    spec_method_not_found, spec_result_to_response, IdKey, LspResult, Message, Notification,
    Request, RequestId, Response, ResponseError, Serialized,
};
use crate::server::TypstLanguageServer;
use crate::session::{event_of, host_step, SessionEvent};
use crate::settings::{configuration_reply_spec, did_change_configuration_spec};
use crate::sync::{closed, did_change_spec, did_open_spec, focused_spec, pinned_spec, saved};
use crate::text::{reversed, same_text};
use crate::work::{
    bad_path_text, carried_by, order, provided_for, spec_arg, spec_parse_path_or_null, work_views, ExportKind, Outcome,
    Query, QueryView, WorkOrder, WorkOrderView,
};

verus! {

/// The message for parameters of `workspace/executeCommand` that cannot be read.
pub open spec fn bad_command_text() -> Seq<char> {
    "The parameters name no command with arguments"@
}

/// The method of the notification that ends the session.
pub open spec fn exit_method() -> Seq<char> {
    "exit"@
}

/// The command and the arguments that the parameters of
/// `workspace/executeCommand` hold: the member `command` as text and the
/// member `arguments` as array, or no arguments where it is absent.
pub open spec fn spec_command(params: JsonValue) -> Option<(Seq<char>, Seq<JsonValue>)> {
    match spec_text_member(params, "command"@) {
        None => None,
        Some(name) => match params.spec_get("arguments"@) {
            None => Some((name, Seq::empty())),
            Some(JsonValue::Array(items)) => Some((name, items@)),
            Some(_) => None,
        },
    }
}

/// What becomes of a planned query: it is queued for the primary compiler
/// under the request's identifier and the answer is deferred; a refusal is
/// returned and nothing changes.
pub open spec fn queried(
    pre: TypstLanguageServer,
    post: TypstLanguageServer,
    id: RequestId,
    q: LspResult<Query>,
    r: LspResult<Outcome>,
) -> bool {
    match q {
        Ok(query) => {
            &&& r == Ok::<Outcome, ResponseError>(Outcome::Deferred)
            &&& work_views(post.work@) == work_views(pre.work@).push(
                WorkOrderView::Query { id: id.key(), query: query@ },
            )
            &&& post == (TypstLanguageServer { work: post.work, ..pre })
        },
        Err(e) => r == Err::<Outcome, ResponseError>(e) && post == pre,
    }
}

/// What the query that a command plans is.
pub open spec fn planned_command(
    kind: CommandKind,
    arguments: Seq<JsonValue>,
    q: LspResult<Query>,
) -> bool {
    match kind {
        CommandKind::ExportPdf => plans(
            q,
            spec_export(ExportKind::Pdf, arguments),
            spec_invalid_params(),
            bad_path_text(),
        ),
        CommandKind::ExportSvg => plans_paged_export(q, true, arguments),
        CommandKind::ExportPng => plans_paged_export(q, false, arguments),
        CommandKind::InteractCodeContext => plans_code_context(q, arguments),
        CommandKind::GetDocumentMetrics => plans(
            q,
            spec_metrics(arguments),
            spec_invalid_params(),
            bad_path_text(),
        ),
        CommandKind::GetServerInfo => q is Ok && q->Ok_0@ == QueryView::ServerInfo,
        CommandKind::GetResources => plans_resource(q, arguments),
        _ => false,
    }
}

/// What a command does.
pub open spec fn command_spec(
    pre: TypstLanguageServer,
    post: TypstLanguageServer,
    kind: CommandKind,
    id: RequestId,
    arguments: Seq<JsonValue>,
    r: LspResult<Outcome>,
) -> bool {
    match kind {
        CommandKind::ClearCache => {
            &&& r == Ok::<Outcome, ResponseError>(Outcome::Reply(JsonValue::Null))
            &&& work_views(post.work@) == work_views(pre.work@) + clear_orders(pre.dedicates@)
            &&& post == (TypstLanguageServer { work: post.work, ..pre })
        },
        CommandKind::PinMain => match spec_parse_path_or_null(spec_arg(arguments, 0)) {
            None => r is Err && r->Err_0.is(spec_invalid_params(), bad_path_text()) && post == pre,
            Some(entry) => r == Ok::<Outcome, ResponseError>(Outcome::Reply(JsonValue::Null))
                && pinned_spec(pre, post, entry),
        },
        CommandKind::FocusMain => match spec_parse_path_or_null(spec_arg(arguments, 0)) {
            None => r is Err && r->Err_0.is(spec_invalid_params(), bad_path_text()) && post == pre,
            Some(entry) => r == Ok::<Outcome, ResponseError>(Outcome::Reply(JsonValue::Null))
                && focused_spec(
                pre,
                post,
                FocusView { focused: entry, ever_manual_focus: true, ..pre.focus@ },
            ),
        },
        CommandKind::InitTemplate => deferred(pre, post, spec_init_order(id, arguments), r),
        CommandKind::GetTemplateEntry => deferred(pre, post, spec_entry_order(id, arguments), r),
        CommandKind::GetDocumentTrace => deferred(
            pre,
            post,
            spec_trace_order(pre, id, arguments),
            r,
        ),
        _ => exists|q: LspResult<Query>| #[trigger]
            planned_command(kind, arguments, q) && queried(pre, post, id, q, r),
    }
}

/// What `on_execute_command` does: parameters of the wrong shape are
/// refused; an unknown command is an unknown method; a known command does
/// what it does. In the first two cases nothing changes.
pub open spec fn execute_spec(
    pre: TypstLanguageServer,
    post: TypstLanguageServer,
    id: RequestId,
    params: JsonValue,
    r: LspResult<Outcome>,
) -> bool {
    match spec_command(params) {
        None => r is Err && r->Err_0.is(spec_invalid_params(), bad_command_text()) && post == pre,
        Some((name, arguments)) => match spec_lookup(exec_routes(), name) {
            None => r is Err && r->Err_0.is(spec_method_not_found(), method_not_found_text())
                && post == pre,
            Some(kind) => command_spec(pre, post, kind, id, arguments, r),
        },
    }
}

/// What the handler of a request does.
pub open spec fn request_spec(
    pre: TypstLanguageServer,
    post: TypstLanguageServer,
    kind: RequestKind,
    id: RequestId,
    params: JsonValue,
    r: LspResult<Outcome>,
) -> bool {
    match kind {
        RequestKind::Shutdown => r == Ok::<Outcome, ResponseError>(
            Outcome::Reply(JsonValue::Null),
        ) && post == (TypstLanguageServer { shutdown_requested: true, ..pre }),
        RequestKind::Formatting => formatting_spec(pre, post, id, params, r),
        RequestKind::ExecuteCommand => execute_spec(pre, post, id, params, r),
        RequestKind::WorkspaceSymbol => exists|q: LspResult<Query>| #[trigger]
            plans_symbol(params, q) && queried(pre, post, id, q, r),
        _ => exists|mid: TypstLanguageServer, q: LspResult<Query>| #[trigger]
            language_spec(pre, mid, kind, params, q) && queried(mid, post, id, q, r),
    }
}

/// What noting a request does to the host.
pub open spec fn noted(pre: LspHost, post: LspHost, id: RequestId, method: Seq<char>, at: u64) -> bool {
    &&& post.awaits(id.key())
    &&& forall|k: IdKey| k != id.key() ==> post.awaits(k) == pre.awaits(k)
    &&& post.incoming@.len() > 0
    &&& post.incoming@.last().id == id
    &&& post.incoming@.last().method@ == method
    &&& post.incoming@.last().received_at == at
    &&& post.incoming@.drop_last() == if pre.awaits(id.key()) {
        pre.incoming@.remove(pre.incoming_index(id.key()))
    } else {
        pre.incoming@
    }
    &&& post.outbox == pre.outbox
    &&& post.pending == pre.pending
    &&& post.next_id == pre.next_id
    &&& post.closed == pre.closed
}

/// What answering a request does: the response goes to the host, and
/// nothing else changes.
pub open spec fn answered(
    pre: TypstLanguageServer,
    post: TypstLanguageServer,
    response: Response,
) -> bool {
    &&& exists|sent: bool| #[trigger] responded(pre.client, post.client, response, sent)
    &&& post == (TypstLanguageServer { client: post.client, ..pre })
}

/// What becomes of a handler's outcome: a deferred answer changes nothing;
/// a result or an error is answered at once.
pub open spec fn settled(
    pre: TypstLanguageServer,
    post: TypstLanguageServer,
    id: RequestId,
    r: LspResult<Outcome>,
) -> bool {
    match r {
        Ok(Outcome::Deferred) => post == pre,
        Ok(Outcome::Reply(value)) => answered(
            pre,
            post,
            Response { id, result: Some(value), error: None },
        ),
        Err(e) => exists|response: Response|
            response.is_error(id, e.code, e.message@) && #[trigger] answered(pre, post, response),
    }
}

/// What `on_request` does.
pub open spec fn on_request_spec(
    pre: TypstLanguageServer,
    post: TypstLanguageServer,
    at: u64,
    req: Request,
) -> bool {
    exists|s1: TypstLanguageServer|
        {
            &&& #[trigger] noted(pre.client, s1.client, req.id, req.method@, at)
            &&& s1 == (TypstLanguageServer { client: s1.client, ..pre })
            &&& if pre.shutdown_requested {
                exists|response: Response|
                    response.is_error(req.id, spec_invalid_request(), shutdown_text())
                        && #[trigger] answered(s1, post, response)
            } else {
                match spec_lookup(regular_routes(), req.method@) {
                    None => exists|response: Response|
                        response.is_error(
                            req.id,
                            spec_method_not_found(),
                            method_not_found_text(),
                        ) && #[trigger] answered(s1, post, response),
                    Some(kind) => exists|s2: TypstLanguageServer, r: LspResult<Outcome>| #[trigger]
                        request_spec(s1, s2, kind, req.id, req.params, r) && settled(
                            s2,
                            post,
                            req.id,
                            r,
                        ),
                }
            }
        }
}

/// Whether a request was answered exactly once or is carried by a work
/// order: either one response to it was queued and it awaits none, or none
/// was queued, it awaits one, and the newest work order carries it.
pub open spec fn answered_once_or_carried(
    pre: LspHost,
    post: LspHost,
    work: Seq<WorkOrder>,
    id: RequestId,
) -> bool {
    ||| {
        &&& post.outbox@ == pre.outbox@
        &&& post.awaits(id.key())
        &&& work.len() > 0
        &&& carried_by(work.last()@) == Some(id.key())
    }
    ||| {
        &&& post.outbox@.len() == pre.outbox@.len() + 1
        &&& post.outbox@.drop_last() == pre.outbox@
        &&& post.outbox@.last() is Response
        &&& post.outbox@.last()->Response_0.id == id
        &&& !post.awaits(id.key())
    }
}

/// What the handler of a notification does.
pub open spec fn notification_spec(
    pre: TypstLanguageServer,
    post: TypstLanguageServer,
    kind: NotifyKind,
    params: JsonValue,
    r: LspResult<()>,
) -> bool {
    match kind {
        NotifyKind::DidOpen => did_open_spec(pre, post, params, r),
        NotifyKind::DidClose => exists|path: Option<Seq<char>>| #[trigger]
            params_path(params, path) && closed(pre, post, path, r),
        NotifyKind::DidChange => did_change_spec(pre, post, params, r),
        NotifyKind::DidSave => exists|path: Option<Seq<char>>| #[trigger]
            params_path(params, path) && saved(pre, post, path, r),
        NotifyKind::DidChangeConfiguration => did_change_configuration_spec(
            pre,
            post,
            params,
            r,
        ),
    }
}

/// What `on_notification` does: an unknown notification is ignored; a known
/// one is handed to its handler.
pub open spec fn on_notification_spec(
    pre: TypstLanguageServer,
    post: TypstLanguageServer,
    not: Notification,
    r: LspResult<()>,
) -> bool {
    match spec_lookup(notify_routes(), not.method@) {
        None => r is Ok && post == pre,
        Some(kind) => notification_spec(pre, post, kind, not.params, r),
    }
}

/// What pairing a response with its request does: the request of the
/// server that is noted at `at` is struck off, and nothing else changes.
pub open spec fn struck(pre: TypstLanguageServer, post: TypstLanguageServer, at: int) -> bool {
    &&& post.client.pending@ == pre.client.pending@.remove(at)
    &&& post.client.outbox == pre.client.outbox
    &&& post.client.incoming == pre.client.incoming
    &&& post.client.next_id == pre.client.next_id
    &&& post.client.closed == pre.client.closed
    &&& post == (TypstLanguageServer { client: post.client, ..pre })
}

/// What `on_response` does: the response is paired with the request of the
/// server that it answers; a reply with the configuration is applied; any
/// other response only strikes its request off. A response that answers no
/// request of the server is dropped.
pub open spec fn on_response_spec(
    pre: TypstLanguageServer,
    post: TypstLanguageServer,
    response: Response,
) -> bool {
    match response.id {
        RequestId::Number(n) => if pre.client.expects(n) {
            let at = pre.client.pending_index(n);
            exists|s1: TypstLanguageServer|
                {
                    &&& #[trigger] struck(pre, s1, at)
                    &&& if pre.client.pending@[at].callback == Callback::Configuration {
                        configuration_reply_spec(s1, post, response)
                    } else {
                        post == s1
                    }
                }
        } else {
            post == pre
        },
        RequestId::Text(_) => post == pre,
    }
}

/// How the loop of a session ended.
#[derive(Debug, Clone, Copy, PartialEq, Eq, Structural)]
pub enum LoopEnd {
    /// The editor sent `exit`.
    Exit,
    /// The stream of messages ended without `exit`.
    Disconnected,
}

/// What became of a message.
#[derive(Debug, PartialEq, Eq)]
pub enum Handled {
    /// It was `exit`: the session ends.
    Exit,
    /// It went to its handler. For a notification this is how the handler
    /// fared; a request or a response always gives `Ok`, since what went
    /// wrong with a request is in its answer.
    Done(LspResult<()>),
}

/// Whether the message is the notification that ends the session.
pub open spec fn is_exit(msg: Message) -> bool {
    match msg {
        Message::Notification(n) => n.method@ == exit_method(),
        _ => false,
    }
}

/// What handling one message does.
pub open spec fn stepped(
    pre: TypstLanguageServer,
    post: TypstLanguageServer,
    at: u64,
    msg: Message,
) -> bool {
    match msg {
        Message::Request(req) => on_request_spec(pre, post, at, req),
        Message::Notification(n) => exists|r: LspResult<()>| #[trigger]
            on_notification_spec(pre, post, n, r),
        Message::Response(response) => on_response_spec(pre, post, response),
    }
}

/// Whether the states are those of a session that handled the messages,
/// each with the time at which it was received, one after the other, none
/// of them being `exit`: one state before each message and one after the
/// last. Each message makes its step of the session at the host, as long
/// as the connection is open.
pub open spec fn run_of(states: Seq<TypstLanguageServer>, msgs: Seq<(u64, Message)>) -> bool {
    &&& states.len() == msgs.len() + 1
    &&& forall|i: int|
        0 <= i < msgs.len() ==> !is_exit((#[trigger] msgs[i]).1) && stepped(
            states[i],
            states[i + 1],
            msgs[i].0,
            msgs[i].1,
        ) && (!states[i].client.closed ==> host_step(
            states[i].client,
            states[i + 1].client,
            event_of(msgs[i].1),
        ))
}

/// Whether `post` is the session `pre` after it handled the messages in
/// their order, none of them being `exit`.
pub open spec fn ran(
    pre: TypstLanguageServer,
    post: TypstLanguageServer,
    msgs: Seq<(u64, Message)>,
) -> bool {
    exists|states: Seq<TypstLanguageServer>| #[trigger]
        run_of(states, msgs) && states[0] == pre && states.last() == post
}

/// What `main_loop` does: the messages are handled in the order in which
/// they arrived, up to the first `exit`; what follows it is not handled.
pub open spec fn main_loop_spec(
    pre: TypstLanguageServer,
    post: TypstLanguageServer,
    inbox: Seq<(u64, Message)>,
    end: LoopEnd,
) -> bool {
    match end {
        LoopEnd::Disconnected => ran(pre, post, inbox),
        LoopEnd::Exit => exists|n: int|
            0 <= n < inbox.len() && is_exit(inbox[n].1) && #[trigger] ran(
                pre,
                post,
                inbox.take(n),
            ),
    }
}

/// The shutdown gate: a request that arrives after shutdown was requested
/// is answered with an invalid-request error and the message that shutdown
/// was already requested, and the session stays as it is but for the host.
pub proof fn lemma_shutdown_gate(
    pre: TypstLanguageServer,
    post: TypstLanguageServer,
    at: u64,
    req: Request,
)
    requires
        on_request_spec(pre, post, at, req),
        pre.shutdown_requested,
        !pre.client.closed,
    ensures
        post.client.outbox@.len() == pre.client.outbox@.len() + 1,
        post.client.outbox@.drop_last() == pre.client.outbox@,
        post.client.outbox@.last() is Response,
        post.client.outbox@.last()->Response_0.is_error(
            req.id,
            spec_invalid_request(),
            shutdown_text(),
        ),
        post == (TypstLanguageServer { client: post.client, ..pre }),
{
    let s1 = choose|s1: TypstLanguageServer|
        {
            &&& #[trigger] noted(pre.client, s1.client, req.id, req.method@, at)
            &&& s1 == (TypstLanguageServer { client: s1.client, ..pre })
            &&& exists|response: Response|
                response.is_error(req.id, spec_invalid_request(), shutdown_text())
                    && #[trigger] answered(s1, post, response)
        };
    let response = choose|response: Response|
        response.is_error(req.id, spec_invalid_request(), shutdown_text()) && #[trigger] answered(
            s1,
            post,
            response,
        );
    let sent = choose|sent: bool| #[trigger] responded(s1.client, post.client, response, sent);
    assert(sent);
    assert(s1.client.outbox@.push(Message::Response(response)).drop_last() =~= s1.client.outbox@);
}

/// An unknown command is an unknown method, and asking for it changes
/// nothing.
pub proof fn lemma_unknown_command(
    pre: TypstLanguageServer,
    post: TypstLanguageServer,
    id: RequestId,
    params: JsonValue,
    r: LspResult<Outcome>,
)
    requires
        execute_spec(pre, post, id, params, r),
        spec_command(params) is Some,
        spec_lookup(exec_routes(), (spec_command(params)->Some_0).0) is None,
    ensures
        r is Err,
        r->Err_0.is(spec_method_not_found(), method_not_found_text()),
        post == pre,
{
}

impl TypstLanguageServer {
    /// The `workspace/executeCommand` request: finds the command that the
    /// parameters name and runs it on their arguments.
    pub fn on_execute_command(&mut self, req_id: RequestId, params: JsonValue) -> (r: LspResult<
        Outcome,
    >)
        requires
            old(self).wf(),
        ensures
            provided_for(final(self).work@, req_id, r),
            final(self).wf(),
            final(self).client == old(self).client,
            execute_spec(*old(self), *final(self), req_id, params, r),
    {
        proof {
            reveal(crate::server::tables_built);
        }
        let kind = match text_member(&params, "command") {
            Some(command) => lookup(&self.exec_cmds, command),
            None => {
                return Err(invalid_params("The parameters name no command with arguments"));
            },
        };
        let arguments = match params.take_member("arguments") {
            Some(JsonValue::Array(items)) => items,
            Some(_) => {
                return Err(invalid_params("The parameters name no command with arguments"));
            },
            None => Vec::new(),
        };
        let kind = match kind {
            Some(kind) => kind,
            None => { return Err(method_not_found()); },
        };
        self.run_command(kind, req_id, arguments)
    }

    /// Runs a command.
    fn run_command(&mut self, kind: CommandKind, req_id: RequestId, arguments: Vec<JsonValue>) -> (r:
        LspResult<Outcome>)
        requires
            old(self).wf(),
        ensures
            provided_for(final(self).work@, req_id, r),
            final(self).wf(),
            final(self).client == old(self).client,
            command_spec(*old(self), *final(self), kind, req_id, arguments@, r),
    {
        match kind {
            CommandKind::ClearCache => match self.clear_cache(arguments) {
                Ok(v) => Ok(Outcome::Reply(v)),
                Err(e) => Err(e),
            },
            CommandKind::PinMain => match self.pin_document(arguments) {
                Ok(v) => Ok(Outcome::Reply(v)),
                Err(e) => Err(e),
            },
            CommandKind::FocusMain => match self.focus_document(arguments) {
                Ok(v) => Ok(Outcome::Reply(v)),
                Err(e) => Err(e),
            },
            CommandKind::InitTemplate => self.init_template(req_id, arguments),
            CommandKind::GetTemplateEntry => self.do_get_template_entry(req_id, arguments),
            CommandKind::GetDocumentTrace => self.get_document_trace(req_id, arguments),
            _ => {
                let q = match kind {
                    CommandKind::ExportPdf => self.export_pdf(arguments),
                    CommandKind::ExportSvg => self.export_svg(arguments),
                    CommandKind::ExportPng => self.export_png(arguments),
                    CommandKind::InteractCodeContext => self.interact_code_context(arguments),
                    CommandKind::GetDocumentMetrics => self.get_document_metrics(arguments),
                    CommandKind::GetServerInfo => self.get_server_info(arguments),
                    _ => self.get_resources(arguments),
                };
                assert(planned_command(kind, arguments@, q));
                let r = self.run_query(req_id, q);
                assert(planned_command(kind, arguments@, q) && queried(
                    *old(self),
                    *self,
                    req_id,
                    q,
                    r,
                ));
                r
            },
        }
    }

    /// Queues a planned query for the primary compiler.
    fn run_query(&mut self, req_id: RequestId, q: LspResult<Query>) -> (r: LspResult<Outcome>)
        ensures
            provided_for(final(self).work@, req_id, r),
            queried(*old(self), *final(self), req_id, q, r),
    {
        match q {
            Ok(query) => {
                order(&mut self.work, WorkOrder::Query { id: req_id, query });
                Ok(Outcome::Deferred)
            },
            Err(e) => Err(e),
        }
    }

    /// Hands a request to the handler of its kind.
    pub fn handle_request(&mut self, kind: RequestKind, req_id: RequestId, params: JsonValue) -> (r:
        LspResult<Outcome>)
        requires
            old(self).wf(),
        ensures
            provided_for(final(self).work@, req_id, r),
            final(self).wf(),
            final(self).client == old(self).client,
            request_spec(*old(self), *final(self), kind, req_id, params, r),
    {
        match kind {
            RequestKind::Shutdown => {
                self.shutdown();
                Ok(Outcome::Reply(JsonValue::Null))
            },
            RequestKind::Formatting => self.formatting(req_id, &params),
            RequestKind::ExecuteCommand => self.on_execute_command(req_id, params),
            RequestKind::WorkspaceSymbol => {
                let q = self.symbol(&params);
                let r = self.run_query(req_id, q);
                assert(plans_symbol(params, q) && queried(*old(self), *self, req_id, q, r));
                r
            },
            _ => {
                let q = self.language_query(kind, params);
                let ghost mid = *self;
                let r = self.run_query(req_id, q);
                assert(language_spec(*old(self), mid, kind, params, q) && queried(
                    mid,
                    *self,
                    req_id,
                    q,
                    r,
                ));
                r
            },
        }
    }

    /// Answers a request with what its handler returned, unless the answer
    /// is deferred.
    fn settle(&mut self, req_id: RequestId, r: LspResult<Outcome>)
        requires
            old(self).wf(),
            old(self).client.awaits(req_id.key()),
            provided_for(old(self).work@, req_id, r),
        ensures
            final(self).wf(),
            settled(*old(self), *final(self), req_id, r),
            !old(self).client.closed ==> request_taken(
                old(self).client,
                final(self).client,
                req_id,
            ),
            !old(self).client.closed ==> answered_once_or_carried(
                old(self).client,
                final(self).client,
                final(self).work@,
                req_id,
            ),
    {
        match r {
            Ok(Outcome::Deferred) => {},
            Ok(Outcome::Reply(value)) => {
                let response = Response::new_ok(req_id, value);
                let sent = self.client.respond(response);
                assert(responded(old(self).client, self.client, response, sent));
                proof {
                    if !old(self).client.closed {
                        lemma_awaited_response_is_sent(
                            old(self).client,
                            self.client,
                            response,
                            sent,
                        );
                    }
                }
                assert(old(self).client.outbox@.push(Message::Response(response)).drop_last()
                    =~= old(self).client.outbox@);
            },
            Err(e) => {
                let response = Response::new_err(req_id, e.code, e.message);
                let sent = self.client.respond(response);
                assert(responded(old(self).client, self.client, response, sent));
                proof {
                    if !old(self).client.closed {
                        lemma_awaited_response_is_sent(
                            old(self).client,
                            self.client,
                            response,
                            sent,
                        );
                    }
                }
                assert(old(self).client.outbox@.push(Message::Response(response)).drop_last()
                    =~= old(self).client.outbox@);
                assert(response.is_error(req_id, e.code, e.message@) && answered(
                    *old(self),
                    *self,
                    response,
                ));
            },
        }
    }

    /// Takes a request: notes it at the host, then refuses it, answers it or
    /// leaves it to a worker.
    pub fn on_request(&mut self, request_received: u64, req: Request)
        requires
            old(self).wf(),
        ensures
            final(self).wf(),
            on_request_spec(*old(self), *final(self), request_received, req),
            !old(self).client.closed ==> request_taken(
                old(self).client,
                final(self).client,
                req.id,
            ),
            !old(self).client.closed ==> answered_once_or_carried(
                old(self).client,
                final(self).client,
                final(self).work@,
                req.id,
            ),
    {
        self.client.register_request(&req.id, req.method.as_str(), request_received);
        let ghost s1 = *self;
        assert(noted(old(self).client, s1.client, req.id, req.method@, request_received));
        if self.shutdown_requested {
            let e = shutdown_already_requested();
            self.settle(req.id, Err(e));
            return ;
        }
        proof {
            reveal(crate::server::tables_built);
        }
        let kind = match lookup(&self.regular_cmds, req.method.as_str()) {
            Some(kind) => kind,
            None => {
                let e = method_not_found();
                self.settle(req.id, Err(e));
                return ;
            },
        };
        let r = self.handle_request(kind, req.id.copy(), req.params);
        let ghost s2 = *self;
        self.settle(req.id, r);
        assert(request_spec(s1, s2, kind, req.id, req.params, r) && settled(
            s2,
            *self,
            req.id,
            r,
        ));
    }

    /// Handles an incoming notification. The result says how the handler
    /// fared; a notification is never answered.
    pub fn on_notification(&mut self, not: Notification) -> (r: LspResult<()>)
        requires
            old(self).wf(),
        ensures
            final(self).wf(),
            on_notification_spec(*old(self), *final(self), not, r),
            quiet(old(self).client, final(self).client),
    {
        proof {
            reveal(crate::server::tables_built);
        }
        let kind = match lookup(&self.notify_cmds, not.method.as_str()) {
            Some(kind) => kind,
            None => { return Ok(()); },
        };
        match kind {
            NotifyKind::DidOpen => self.did_open(&not.params),
            NotifyKind::DidClose => self.did_close(&not.params),
            NotifyKind::DidChange => self.did_change(&not.params),
            NotifyKind::DidSave => self.did_save(&not.params),
            NotifyKind::DidChangeConfiguration => self.did_change_configuration(not.params),
        }
    }

    /// Takes a response of the editor to a request of the server.
    pub fn on_response(&mut self, response: Response)
        requires
            old(self).wf(),
        ensures
            final(self).wf(),
            on_response_spec(*old(self), *final(self), response),
            quiet(old(self).client, final(self).client),
    {
        let callback = self.client.complete_request(&response);
        let ghost s1 = *self;
        match callback {
            Some(Callback::Configuration) => {
                self.on_configuration_reply(response);
            },
            _ => {},
        }
        proof {
            if callback is Some {
                let n = response.id->Number_0;
                let at = old(self).client.pending_index(n);
                assert(struck(*old(self), s1, at));
            }
        }
    }

    /// Answers a request that a work order carried, with what the worker
    /// found. The response is queued if the request still awaits one.
    pub fn complete(&mut self, id: RequestId, result: LspResult<Serialized>) -> (sent: bool)
        requires
            old(self).wf(),
        ensures
            final(self).wf(),
            exists|response: Response|
                spec_result_to_response(id, result, response) && #[trigger] responded(
                    old(self).client,
                    final(self).client,
                    response,
                    sent,
                ),
            host_step(old(self).client, final(self).client, SessionEvent::Answer(id)),
            *final(self) == (TypstLanguageServer { client: final(self).client, ..*old(self) }),
    {
        let response = result_to_response(id, result);
        let sent = self.client.respond(response);
        assert(spec_result_to_response(id, result, response) && responded(
            old(self).client,
            self.client,
            response,
            sent,
        ));
        assert(response.id == id && responded(old(self).client, self.client, response, sent));
        sent
    }

    /// Handles one message that was received at the given time, and says
    /// what became of it. The `exit` notification changes nothing and ends
    /// the session.
    pub fn on_message(&mut self, request_received: u64, msg: Message) -> (h: Handled)
        requires
            old(self).wf(),
        ensures
            final(self).wf(),
            (h is Exit) == is_exit(msg),
            h is Exit ==> *final(self) == *old(self),
            !(h is Exit) ==> stepped(*old(self), *final(self), request_received, msg),
            h is Done ==> match msg {
                Message::Notification(not) => on_notification_spec(
                    *old(self),
                    *final(self),
                    not,
                    h->Done_0,
                ),
                _ => h->Done_0 is Ok,
            },
            h is Done && !old(self).client.closed ==> host_step(
                old(self).client,
                final(self).client,
                event_of(msg),
            ),
    {
        match msg {
            Message::Notification(not) => {
                if same_text(not.method.as_str(), "exit") {
                    return Handled::Exit;
                }
                let r = self.on_notification(not);
                assert(on_notification_spec(*old(self), *self, not, r));
                Handled::Done(r)
            },
            Message::Request(req) => {
                self.on_request(request_received, req);
                Handled::Done(Ok(()))
            },
            Message::Response(response) => {
                self.on_response(response);
                Handled::Done(Ok(()))
            },
        }
    }

    /// Handles the messages of the inbox, each with the time at which it was
    /// received, in their order, until `exit` arrives or the inbox is at its
    /// end.
    pub fn main_loop(&mut self, inbox: Vec<(u64, Message)>) -> (end: LoopEnd)
        requires
            old(self).wf(),
        ensures
            final(self).wf(),
            main_loop_spec(*old(self), *final(self), inbox@, end),
    {
        let mut rest = reversed(inbox);
        let ghost mut states: Seq<TypstLanguageServer> = seq![*self];
        assert(inbox@.take(0) =~= Seq::<(u64, Message)>::empty());
        while rest.len() > 0
            invariant
                self.wf(),
                states.len() <= inbox@.len() + 1,
                rest@.len() + states.len() == inbox@.len() + 1,
                rest@ == inbox@.reverse().take(rest@.len() as int),
                run_of(states, inbox@.take(states.len() - 1)),
                states[0] == *old(self),
                states.last() == *self,
            decreases rest.len(),
        {
            let ghost done = states.len() - 1;
            let (at, msg) = rest.pop().unwrap();
            proof {
                let n = inbox@.len() as int;
                assert((at, msg) == inbox@.reverse()[n - done - 1]);
                assert((at, msg) == inbox@[done]);
                assert(rest@ =~= inbox@.reverse().take(rest@.len() as int));
            }
            let handled = self.on_message(at, msg);
            if matches!(handled, Handled::Exit) {
                assert(run_of(states, inbox@.take(done)) && states[0] == *old(self)
                    && states.last() == *self);
                assert(is_exit(inbox@[done].1) && ran(*old(self), *self, inbox@.take(done)));
                return LoopEnd::Exit;
            }
            proof {
                let before = states;
                states = states.push(*self);
                let msgs = inbox@.take(done + 1);
                assert forall|i: int| 0 <= i < msgs.len() implies !is_exit((#[trigger] msgs[i]).1)
                    && stepped(states[i], states[i + 1], msgs[i].0, msgs[i].1) && (
                !states[i].client.closed ==> host_step(
                    states[i].client,
                    states[i + 1].client,
                    event_of(msgs[i].1),
                )) by {
                    if i < done {
                        assert(inbox@.take(done)[i] == msgs[i]);
                        assert(before[i] == states[i]);
                        assert(before[i + 1] == states[i + 1]);
                    }
                }
            }
        }
        assert(inbox@.take(states.len() - 1) =~= inbox@);
        assert(run_of(states, inbox@) && states[0] == *old(self) && states.last() == *self);
        LoopEnd::Disconnected
    }
}

} // verus!
