//! The session: what the server knows between two messages.
//!
//! The session owns the host, the open documents, the configuration, the
//! focus and the ledger of registered capabilities. Its handlers never wait
//! for a worker: they change the session, queue messages for the editor at
//! the host, and queue work orders for the workers.

use vstd::prelude::*;
use crate::config::{Config, ConstConfig, FormatterMode, SemanticTokensMode};
use crate::dispatch::{
    exec_routes, get_exec_commands, get_notify_cmds, get_regular_cmds, get_resources_routes,
    notify_routes, regular_routes, resource_routes, routes, same_command, same_notify,
    same_request, same_resource, same_routes, CommandKind, NotifyKind, RequestKind,
    ResourceKind, Route,
};
use crate::focus::{FocusState, FocusView};
use crate::host::{
    lemma_request_is_no_response, quiet, register_method, send_result, sent_request,
    spec_registration_params, spec_unregistration_params, unregister_method, Callback,
    HostError, LspHost, Registration, Unregistration,
};
use crate::json::{JsonValue, JsonView};
use crate::store::DocumentStore;
use crate::work::{order, work_views, ActorId, WorkOrder, WorkOrderView};

verus! {

/// A session of the language server.
#[derive(Debug, Clone, PartialEq, Eq)]
pub struct TypstLanguageServer {
    /// The session's end of the connection to the editor.
    pub client: LspHost,
    /// Whether `shutdown` was requested.
    pub shutdown_requested: bool,
    /// The ledger: whether semantic tokens are registered with the client.
    pub sema_tokens_registered: bool,
    /// The ledger: whether the formatter is registered with the client.
    pub formatter_registered: bool,
    /// What the client pins and focuses.
    pub focus: FocusState,
    /// What the user configured.
    pub config: Config,
    /// What was settled with the client when the session began.
    pub const_config: ConstConfig,
    /// The table of commands.
    pub exec_cmds: Vec<Route<CommandKind>>,
    /// The table of notifications.
    pub notify_cmds: Vec<Route<NotifyKind>>,
    /// The table of requests.
    pub regular_cmds: Vec<Route<RequestKind>>,
    /// The table of resources.
    pub resources_routes: Vec<Route<ResourceKind>>,
    /// The options with which semantic tokens are registered.
    pub tokens_options: JsonValue,
    /// The open documents.
    pub documents: DocumentStore,
    /// The compilers for tasks, beside the primary one.
    pub dedicates: Vec<ActorId>,
    /// Whether a format worker runs.
    pub format_thread: bool,
    /// Whether a user-action worker runs.
    pub user_action_thread: bool,
    /// The work handed to the workers and not yet taken, oldest first.
    pub work: Vec<WorkOrder>,
}

/// The primary compiler, which lives as long as the session.
pub const PRIMARY: ActorId = 0;

/// The identifier under which semantic tokens are registered.
pub open spec fn tokens_id() -> Seq<char> {
    "semanticTokens"@
}

/// The method for which semantic tokens are registered.
pub open spec fn tokens_method() -> Seq<char> {
    "textDocument/semanticTokens"@
}

/// The identifier under which the formatter is registered.
pub open spec fn formatting_id() -> Seq<char> {
    "formatting"@
}

/// The method for which the formatter is registered.
pub open spec fn formatting_method() -> Seq<char> {
    "textDocument/formatting"@
}

/// The identifier under which configuration changes are registered.
pub open spec fn config_id() -> Seq<char> {
    "config"@
}

/// The method for which configuration changes are registered.
pub open spec fn config_method() -> Seq<char> {
    "workspace/didChangeConfiguration"@
}

/// What a capability asks of the client: a registration (`true`) where it is
/// to be enabled and is not registered, an unregistration (`false`) where it
/// is to be disabled and is registered, and nothing where the state is as
/// asked for or the client takes no dynamic registration.
pub open spec fn caps_step(dynamic: bool, enable: bool, registered: bool) -> Option<bool> {
    if !dynamic {
        None
    } else if enable && !registered {
        Some(true)
    } else if !enable && registered {
        Some(false)
    } else {
        None
    }
}

/// What a step of a capability does to the host and the flag of the
/// capability: nothing where nothing is asked of the client or nothing can
/// be sent; else one request is sent and the flag follows.
pub open spec fn toggled(
    pre: LspHost,
    post: LspHost,
    step: Option<bool>,
    registered: bool,
    now: bool,
    id: Seq<char>,
    method: Seq<char>,
    options: Option<JsonView>,
) -> bool {
    match step {
        None => post == pre && now == registered,
        Some(register) => if send_result(pre) is Err {
            post == pre && now == registered
        } else if register {
            now && sent_request(
                pre,
                post,
                register_method(),
                spec_registration_params(id, method, options),
                Callback::Registration,
            )
        } else {
            !now && sent_request(
                pre,
                post,
                unregister_method(),
                spec_unregistration_params(id, method),
                Callback::Unregistration,
            )
        },
    }
}

/// What a step of a capability returns: the failure to send, if there was
/// something to send and it could not be sent.
pub open spec fn toggle_result(pre: LspHost, step: Option<bool>) -> Result<(), HostError> {
    match step {
        None => Ok(()),
        Some(_) => match send_result(pre) {
            Ok(_) => Ok(()),
            Err(e) => Err(e),
        },
    }
}

/// Once a capability is in the state that was asked for, asking again sends
/// nothing: each change of the ledger costs one request, and a repeated
/// request for the same state none.
pub proof fn lemma_caps_settle(dynamic: bool, enable: bool, registered: bool)
    ensures
        caps_step(dynamic, enable, enable) is None,
        caps_step(dynamic, enable, registered) is Some ==> caps_step(dynamic, enable, registered)
            == Some(enable) && registered != enable,
{
}

/// Each change of the ledger costs exactly one request, and nothing is sent
/// without one: where the flag of a capability changed, one request was
/// queued for the client, a registration where the capability is now
/// registered and an unregistration where it is not; where the flag stayed,
/// the host is as it was.
pub proof fn lemma_one_request_per_transition(
    pre: LspHost,
    post: LspHost,
    dynamic: bool,
    enable: bool,
    registered: bool,
    now: bool,
    id: Seq<char>,
    method: Seq<char>,
    options: Option<JsonView>,
)
    requires
        toggled(
            pre,
            post,
            caps_step(dynamic, enable, registered),
            registered,
            now,
            id,
            method,
            options,
        ),
    ensures
        now == registered ==> post == pre,
        now != registered ==> now == enable && post.outbox@.len() == pre.outbox@.len() + 1
            && post.outbox@.drop_last() == pre.outbox@ && post.outbox@.last() is Request
            && post.outbox@.last()->Request_0.method@ == (if now {
            register_method()
        } else {
            unregister_method()
        }),
{
}

/// What the session asks for its semantic tokens when the editor is ready.
pub open spec fn initial_tokens_step(pre: TypstLanguageServer) -> Option<bool> {
    if pre.const_config.tokens_dynamic_registration && pre.config.semantic_tokens
        == SemanticTokensMode::Enable {
        caps_step(pre.const_config.tokens_dynamic_registration, true, pre.sema_tokens_registered)
    } else {
        None
    }
}

/// What the session asks for its formatter when the editor is ready.
pub open spec fn initial_formatter_step(pre: TypstLanguageServer) -> Option<bool> {
    if pre.const_config.doc_fmt_dynamic_registration && pre.config.formatter
        != FormatterMode::Disable {
        caps_step(pre.const_config.doc_fmt_dynamic_registration, true, pre.formatter_registered)
    } else {
        None
    }
}

/// What `initialized` does: the two capabilities take their steps, one
/// after the other; the session registers for configuration changes where
/// the client takes that and the request can be sent; and the primary
/// compiler is told.
pub open spec fn initialized_spec(
    pre: TypstLanguageServer,
    post: TypstLanguageServer,
    params: JsonView,
) -> bool {
    let cc = pre.const_config;
    let step1 = initial_tokens_step(pre);
    let step2 = initial_formatter_step(pre);
    &&& exists|h1: LspHost, h2: LspHost|
        {
            &&& #[trigger] toggled(
                pre.client,
                h1,
                step1,
                pre.sema_tokens_registered,
                post.sema_tokens_registered,
                tokens_id(),
                tokens_method(),
                Some(pre.tokens_options@),
            )
            &&& #[trigger] toggled(
                h1,
                h2,
                step2,
                pre.formatter_registered,
                post.formatter_registered,
                formatting_id(),
                formatting_method(),
                None,
            )
            &&& if cc.cfg_change_registration && send_result(h2) is Ok {
                sent_request(
                    h2,
                    post.client,
                    register_method(),
                    spec_registration_params(config_id(), config_method(), None),
                    Callback::Registration,
                )
            } else {
                post.client == h2
            }
        }
    &&& work_views(post.work@) == work_views(pre.work@).push(WorkOrderView::Initialized { params })
    &&& post == (TypstLanguageServer {
        client: post.client,
        sema_tokens_registered: post.sema_tokens_registered,
        formatter_registered: post.formatter_registered,
        work: post.work,
        ..pre
    })
}

/// The capabilities that the server announces for good when the session
/// begins: those that are switched on and that the client does not take by
/// dynamic registration.
#[derive(Debug, Clone, Copy, PartialEq, Eq, Structural)]
pub struct StaticCapabilities {
    pub semantic_tokens: bool,
    pub formatting: bool,
}

/// Whether the tables are the ones that a session is built with.
#[verifier::opaque]
pub open spec fn tables_built(
    regular_cmds: Vec<Route<RequestKind>>,
    notify_cmds: Vec<Route<NotifyKind>>,
    exec_cmds: Vec<Route<CommandKind>>,
    resources_routes: Vec<Route<ResourceKind>>,
) -> bool {
    &&& routes(regular_cmds@) == regular_routes()
    &&& routes(notify_cmds@) == notify_routes()
    &&& routes(exec_cmds@) == exec_routes()
    &&& routes(resources_routes@) == resource_routes()
}

/// Whether the compiler is one of the compilers for tasks.
pub open spec fn is_dedicate(dedicates: Seq<ActorId>, actor: ActorId) -> bool {
    exists|i: int| 0 <= i < dedicates.len() && #[trigger] dedicates[i] == actor
}

impl TypstLanguageServer {
    /// Whether the parts of the session are well-formed and the tables are
    /// the ones that a session is built with.
    pub open spec fn wf(&self) -> bool {
        &&& self.client.wf()
        &&& self.documents.wf()
        &&& tables_built(
            self.regular_cmds,
            self.notify_cmds,
            self.exec_cmds,
            self.resources_routes,
        )
    }

    /// Whether the session is well-formed, found out by looking.
    pub fn is_wf(&self) -> (r: bool)
        ensures
            r == self.wf(),
    {
        proof {
            reveal(tables_built);
        }
        self.client.is_wf() && self.documents.is_wf() && same_routes(
            &self.regular_cmds,
            &get_regular_cmds(),
            same_request,
        ) && same_routes(&self.notify_cmds, &get_notify_cmds(), same_notify) && same_routes(
            &self.exec_cmds,
            &get_exec_commands(),
            same_command,
        ) && same_routes(&self.resources_routes, &get_resources_routes(), same_resource)
    }

    /// A fresh session: nothing open, nothing registered, the default
    /// configuration, and the tables built.
    pub fn new(client: LspHost, const_config: ConstConfig, tokens_options: JsonValue) -> (r: Self)
        requires
            client.wf(),
        ensures
            r.wf(),
            r.client == client,
            r.const_config == const_config,
            r.tokens_options == tokens_options,
            !r.shutdown_requested,
            !r.sema_tokens_registered,
            !r.formatter_registered,
            r.focus@ == (FocusView {
                pinned: None,
                focused: None,
                ever_focused_by_activity: false,
                ever_manual_focus: false,
            }),
            r.config@ == crate::config::spec_default(),
            r.documents@ == Map::<Seq<char>, crate::source::SourceView>::empty(),
            r.dedicates@.len() == 0,
            !r.format_thread,
            !r.user_action_thread,
            r.work@.len() == 0,
    {
        proof {
            reveal(tables_built);
        }
        Self {
            client,
            shutdown_requested: false,
            sema_tokens_registered: false,
            formatter_registered: false,
            focus: FocusState::new(),
            config: Config::default(),
            const_config,
            exec_cmds: get_exec_commands(),
            notify_cmds: get_notify_cmds(),
            regular_cmds: get_regular_cmds(),
            resources_routes: get_resources_routes(),
            tokens_options,
            documents: DocumentStore::new(),
            dedicates: Vec::new(),
            format_thread: false,
            user_action_thread: false,
            work: Vec::new(),
        }
    }

    /// What was settled with the client when the session began.
    pub fn const_config(&self) -> (r: &ConstConfig)
        ensures
            *r == self.const_config,
    {
        &self.const_config
    }

    /// The compiler that serves whatever has no compiler of its own.
    pub fn primary(&self) -> (r: ActorId)
        ensures
            r == PRIMARY,
    {
        PRIMARY
    }

    /// The capabilities to announce in the answer to `initialize`.
    pub fn static_capabilities(&self) -> (r: StaticCapabilities)
        ensures
            r.semantic_tokens == (!self.const_config.tokens_dynamic_registration
                && self.config.semantic_tokens == SemanticTokensMode::Enable),
            r.formatting == (!self.const_config.doc_fmt_dynamic_registration
                && self.config.formatter != FormatterMode::Disable),
    {
        StaticCapabilities {
            semantic_tokens: !self.const_config.tokens_dynamic_registration
                && self.config.semantic_tokens == SemanticTokensMode::Enable,
            formatting: !self.const_config.doc_fmt_dynamic_registration && self.config.formatter
                != FormatterMode::Disable,
        }
    }

    /// Adds a compiler for tasks. The primary compiler and a compiler that
    /// is there already are not added.
    pub fn add_dedicate(&mut self, actor: ActorId) -> (added: bool)
        ensures
            added == (actor != PRIMARY && !is_dedicate(old(self).dedicates@, actor)),
            final(self).dedicates@ == if added {
                old(self).dedicates@.push(actor)
            } else {
                old(self).dedicates@
            },
            *final(self) == (TypstLanguageServer {
                dedicates: final(self).dedicates,
                ..*old(self)
            }),
    {
        if actor == PRIMARY {
            return false;
        }
        let mut i: usize = 0;
        while i < self.dedicates.len()
            invariant
                i <= self.dedicates.len(),
                *self == *old(self),
                forall|k: int| 0 <= k < i ==> self.dedicates@[k] != actor,
            decreases self.dedicates.len() - i,
        {
            if self.dedicates[i] == actor {
                return false;
            }
            i += 1;
        }
        self.dedicates.push(actor);
        true
    }

    /// Drops a compiler for tasks, at its first place in the list.
    pub fn drop_dedicate(&mut self, actor: ActorId) -> (dropped: bool)
        ensures
            dropped == is_dedicate(old(self).dedicates@, actor),
            dropped ==> final(self).dedicates@ == old(self).dedicates@.remove(
                old(self).dedicates@.index_of_first(actor)->0,
            ),
            !dropped ==> final(self).dedicates@ == old(self).dedicates@,
            *final(self) == (TypstLanguageServer {
                dedicates: final(self).dedicates,
                ..*old(self)
            }),
    {
        let mut i: usize = 0;
        while i < self.dedicates.len()
            invariant
                i <= self.dedicates.len(),
                *self == *old(self),
                forall|k: int| 0 <= k < i ==> self.dedicates@[k] != actor,
            decreases self.dedicates.len() - i,
        {
            if self.dedicates[i] == actor {
                proof {
                    old(self).dedicates@.index_of_first_ensures(actor);
                    assert(old(self).dedicates@.contains(actor));
                    let first = old(self).dedicates@.index_of_first(actor)->0;
                    if first < i {
                        assert(self.dedicates@[first] != actor);
                    }
                }
                self.dedicates.remove(i);
                return true;
            }
            i += 1;
        }
        false
    }

    /// Hands over the work that is queued for the workers, oldest first, and
    /// leaves the queue empty.
    pub fn take_work(&mut self) -> (r: Vec<WorkOrder>)
        ensures
            r == old(self).work,
            final(self).work@.len() == 0,
            *final(self) == (TypstLanguageServer { work: final(self).work, ..*old(self) }),
    {
        let mut out: Vec<WorkOrder> = Vec::new();
        std::mem::swap(&mut self.work, &mut out);
        out
    }

    /// Brings the registration of semantic tokens to the state asked for.
    pub fn enable_sema_token_caps(&mut self, enable: bool) -> (r: Result<(), HostError>)
        requires
            old(self).wf(),
        ensures
            final(self).wf(),
            quiet(old(self).client, final(self).client),
            toggled(
                old(self).client,
                final(self).client,
                caps_step(
                    old(self).const_config.tokens_dynamic_registration,
                    enable,
                    old(self).sema_tokens_registered,
                ),
                old(self).sema_tokens_registered,
                final(self).sema_tokens_registered,
                tokens_id(),
                tokens_method(),
                Some(old(self).tokens_options@),
            ),
            r == toggle_result(
                old(self).client,
                caps_step(
                    old(self).const_config.tokens_dynamic_registration,
                    enable,
                    old(self).sema_tokens_registered,
                ),
            ),
            *final(self) == (TypstLanguageServer {
                client: final(self).client,
                sema_tokens_registered: final(self).sema_tokens_registered,
                ..*old(self)
            }),
    {
        if !self.const_config.tokens_dynamic_registration {
            return Ok(());
        }
        if enable && !self.sema_tokens_registered {
            let registration = Registration {
                id: "semanticTokens".to_owned(),
                method: "textDocument/semanticTokens".to_owned(),
                register_options: Some(self.tokens_options.copy()),
            };
            let ghost params = spec_registration_params(
                registration.id@,
                registration.method@,
                crate::host::options_view(registration.register_options),
            );
            match self.client.register_capability(registration) {
                Ok(_) => {
                    proof {
                        lemma_request_is_no_response(
                            old(self).client,
                            self.client,
                            register_method(),
                            params,
                            Callback::Registration,
                        );
                    }
                    self.sema_tokens_registered = enable;
                    Ok(())
                },
                Err(e) => Err(e),
            }
        } else if !enable && self.sema_tokens_registered {
            let unregistration = Unregistration {
                id: "semanticTokens".to_owned(),
                method: "textDocument/semanticTokens".to_owned(),
            };
            match self.client.unregister_capability(unregistration) {
                Ok(_) => {
                    proof {
                        lemma_request_is_no_response(
                            old(self).client,
                            self.client,
                            unregister_method(),
                            spec_unregistration_params(tokens_id(), tokens_method()),
                            Callback::Unregistration,
                        );
                    }
                    self.sema_tokens_registered = enable;
                    Ok(())
                },
                Err(e) => Err(e),
            }
        } else {
            Ok(())
        }
    }

    /// Brings the registration of the formatter to the state asked for.
    pub fn enable_formatter_caps(&mut self, enable: bool) -> (r: Result<(), HostError>)
        requires
            old(self).wf(),
        ensures
            final(self).wf(),
            quiet(old(self).client, final(self).client),
            toggled(
                old(self).client,
                final(self).client,
                caps_step(
                    old(self).const_config.doc_fmt_dynamic_registration,
                    enable,
                    old(self).formatter_registered,
                ),
                old(self).formatter_registered,
                final(self).formatter_registered,
                formatting_id(),
                formatting_method(),
                None,
            ),
            r == toggle_result(
                old(self).client,
                caps_step(
                    old(self).const_config.doc_fmt_dynamic_registration,
                    enable,
                    old(self).formatter_registered,
                ),
            ),
            *final(self) == (TypstLanguageServer {
                client: final(self).client,
                formatter_registered: final(self).formatter_registered,
                ..*old(self)
            }),
    {
        if !self.const_config.doc_fmt_dynamic_registration {
            return Ok(());
        }
        if enable && !self.formatter_registered {
            let registration = Registration {
                id: "formatting".to_owned(),
                method: "textDocument/formatting".to_owned(),
                register_options: None,
            };
            match self.client.register_capability(registration) {
                Ok(_) => {
                    proof {
                        lemma_request_is_no_response(
                            old(self).client,
                            self.client,
                            register_method(),
                            spec_registration_params(formatting_id(), formatting_method(), None),
                            Callback::Registration,
                        );
                    }
                    self.formatter_registered = enable;
                    Ok(())
                },
                Err(e) => Err(e),
            }
        } else if !enable && self.formatter_registered {
            let unregistration = Unregistration {
                id: "formatting".to_owned(),
                method: "textDocument/formatting".to_owned(),
            };
            match self.client.unregister_capability(unregistration) {
                Ok(_) => {
                    proof {
                        lemma_request_is_no_response(
                            old(self).client,
                            self.client,
                            unregister_method(),
                            spec_unregistration_params(formatting_id(), formatting_method()),
                            Callback::Unregistration,
                        );
                    }
                    self.formatter_registered = enable;
                    Ok(())
                },
                Err(e) => Err(e),
            }
        } else {
            Ok(())
        }
    }

    /// The `initialized` notification: registers what the client takes
    /// dynamically and the configuration asks for, then tells the primary
    /// compiler. A registration that cannot be sent is passed over.
    pub fn initialized(&mut self, params: JsonValue)
        requires
            old(self).wf(),
        ensures
            final(self).wf(),
            initialized_spec(*old(self), *final(self), params@),
            quiet(old(self).client, final(self).client),
    {
        if self.const_config.tokens_dynamic_registration && matches!(
            self.config.semantic_tokens,
            SemanticTokensMode::Enable
        ) {
            let _ = self.enable_sema_token_caps(true);
        }
        let ghost h1 = self.client;
        if self.const_config.doc_fmt_dynamic_registration && !matches!(
            self.config.formatter,
            FormatterMode::Disable
        ) {
            let _ = self.enable_formatter_caps(true);
        }
        let ghost h2 = self.client;
        if self.const_config.cfg_change_registration {
            let registration = Registration {
                id: "config".to_owned(),
                method: "workspace/didChangeConfiguration".to_owned(),
                register_options: None,
            };
            let sent = self.client.register_capability(registration);
            proof {
                if sent is Ok {
                    lemma_request_is_no_response(
                        h2,
                        self.client,
                        register_method(),
                        spec_registration_params(config_id(), config_method(), None),
                        Callback::Registration,
                    );
                }
            }
        }
        order(&mut self.work, WorkOrder::Initialized { params });
        proof {
            let pre = *old(self);
            let step1 = initial_tokens_step(pre);
            let step2 = initial_formatter_step(pre);
            assert(toggled(
                pre.client,
                h1,
                step1,
                pre.sema_tokens_registered,
                self.sema_tokens_registered,
                tokens_id(),
                tokens_method(),
                Some(pre.tokens_options@),
            ));
            assert(toggled(
                h1,
                h2,
                step2,
                pre.formatter_registered,
                self.formatter_registered,
                formatting_id(),
                formatting_method(),
                None,
            ));
        }
    }

    /// The `shutdown` request: from now on requests are refused.
    pub fn shutdown(&mut self)
        ensures
            *final(self) == (TypstLanguageServer { shutdown_requested: true, ..*old(self) }),
    {
        self.shutdown_requested = true;
    }
}

} // verus!
