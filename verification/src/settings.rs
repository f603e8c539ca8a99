//! Configuration changes: the settings are checked and taken over as a
//! whole, forwarded to the compiler, and the registered capabilities follow
//! the new configuration.

use vstd::prelude::*;
use crate::config::{
    is_values_map, spec_fault, spec_items_params, spec_merged, spec_message, Config, ConfigView,
    FormatterMode, SemanticTokensMode,
};
use crate::host::{
    lemma_request_is_no_response, quiet, send_result, sent_request, Callback, LspHost,
};
use crate::json::{member_views, JsonValue, JsonView};
use crate::message::{invalid_params, spec_invalid_params, LspResult, Response};
use crate::text::joined;
use crate::server::{
    caps_step, formatting_id, formatting_method, toggled, tokens_id, tokens_method,
    TypstLanguageServer,
};
use crate::work::{order, work_views, WorkOrder, WorkOrderView};

verus! {

/// The start of the message of a refused update.
pub open spec fn refused_text() -> Seq<char> {
    "error applying new settings: "@
}

/// The method that asks the editor for the configuration.
pub open spec fn configuration_method() -> Seq<char> {
    "workspace/configuration"@
}

/// What a change of the option asks for the semantic tokens: a step of the
/// capability where the option changed, nothing where it did not.
pub open spec fn tokens_step(
    dynamic: bool,
    registered: bool,
    before: SemanticTokensMode,
    now: SemanticTokensMode,
) -> Option<bool> {
    if now != before {
        caps_step(dynamic, now == SemanticTokensMode::Enable, registered)
    } else {
        None
    }
}

/// What a change of the option asks for the formatter.
pub open spec fn formatter_step(
    dynamic: bool,
    registered: bool,
    before: FormatterMode,
    now: FormatterMode,
) -> Option<bool> {
    if now != before {
        caps_step(dynamic, now != FormatterMode::Disable, registered)
    } else {
        None
    }
}

/// Whether the format worker is told of the new configuration: where one
/// runs and the formatter or its print width changed.
pub open spec fn tells_formatter(pre: TypstLanguageServer, now: ConfigView) -> bool {
    pre.format_thread && (now.formatter != pre.config@.formatter || now.formatter_print_width
        != pre.config@.formatter_print_width)
}

/// What a valid update of the configuration does.
pub open spec fn config_applied(
    pre: TypstLanguageServer,
    post: TypstLanguageServer,
    values: Seq<(String, JsonValue)>,
) -> bool {
    let now = spec_merged(pre.config@, values);
    &&& post.config@ == now
    &&& exists|h1: LspHost|
        {
            &&& #[trigger] toggled(
                pre.client,
                h1,
                tokens_step(
                    pre.const_config.tokens_dynamic_registration,
                    pre.sema_tokens_registered,
                    pre.config@.semantic_tokens,
                    now.semantic_tokens,
                ),
                pre.sema_tokens_registered,
                post.sema_tokens_registered,
                tokens_id(),
                tokens_method(),
                Some(pre.tokens_options@),
            )
            &&& toggled(
                h1,
                post.client,
                formatter_step(
                    pre.const_config.doc_fmt_dynamic_registration,
                    pre.formatter_registered,
                    pre.config@.formatter,
                    now.formatter,
                ),
                pre.formatter_registered,
                post.formatter_registered,
                formatting_id(),
                formatting_method(),
                None,
            )
        }
    &&& work_views(post.work@) == if tells_formatter(pre, now) {
        work_views(pre.work@).push(
            WorkOrderView::ChangeConfig { values: JsonView::Object(member_views(values)) },
        ).push(
            WorkOrderView::ChangeFormatConfig {
                mode: now.formatter,
                width: now.formatter_print_width,
            },
        )
    } else {
        work_views(pre.work@).push(
            WorkOrderView::ChangeConfig { values: JsonView::Object(member_views(values)) },
        )
    }
    &&& post == (TypstLanguageServer {
        config: post.config,
        client: post.client,
        sema_tokens_registered: post.sema_tokens_registered,
        formatter_registered: post.formatter_registered,
        work: post.work,
        ..pre
    })
}

/// What `on_changed_configuration` does: an update with a fault is refused
/// and changes nothing; a valid one is applied.
pub open spec fn config_changed_spec(
    pre: TypstLanguageServer,
    post: TypstLanguageServer,
    values: Seq<(String, JsonValue)>,
    r: LspResult<()>,
) -> bool {
    match spec_fault(pre.config@, values) {
        Some(e) => post == pre && r is Err && r->Err_0.is(
            spec_invalid_params(),
            refused_text() + spec_message(e),
        ),
        None => r is Ok && config_applied(pre, post, values),
    }
}

/// The settings that the parameters carry inline.
pub open spec fn spec_settings(params: JsonValue) -> Option<Seq<(String, JsonValue)>> {
    match params.spec_get("settings"@) {
        Some(JsonValue::Object(members)) => Some(members@),
        _ => None,
    }
}

/// What asking the editor for the configuration does: the request is sent
/// where it can be, and nothing else changes.
pub open spec fn asked_configuration(pre: TypstLanguageServer, post: TypstLanguageServer) -> bool {
    &&& if send_result(pre.client) is Ok {
        sent_request(
            pre.client,
            post.client,
            configuration_method(),
            spec_items_params(),
            Callback::Configuration,
        )
    } else {
        post.client == pre.client
    }
    &&& post == (TypstLanguageServer { client: post.client, ..pre })
}

/// What `did_change_configuration` does.
pub open spec fn did_change_configuration_spec(
    pre: TypstLanguageServer,
    post: TypstLanguageServer,
    params: JsonValue,
    r: LspResult<()>,
) -> bool {
    match spec_settings(params) {
        Some(values) => config_changed_spec(pre, post, values, r),
        None => r is Ok && asked_configuration(pre, post),
    }
}

/// What the reply to the request for the configuration does: a reply with
/// an error, without a result or with a result that is no array changes
/// nothing; else the returned values are applied as settings.
pub open spec fn configuration_reply_spec(
    pre: TypstLanguageServer,
    post: TypstLanguageServer,
    response: Response,
) -> bool {
    match (response.error, response.result) {
        (None, Some(JsonValue::Array(values))) => exists|
            map: Seq<(String, JsonValue)>,
            r: LspResult<()>,
        |
            is_values_map(values@, map) && #[trigger] config_changed_spec(pre, post, map, r),
        _ => post == pre,
    }
}

impl TypstLanguageServer {
    /// Lets the semantic tokens follow a change of their option.
    fn follow_tokens(&mut self, before: SemanticTokensMode)
        requires
            old(self).wf(),
        ensures
            final(self).wf(),
            quiet(old(self).client, final(self).client),
            toggled(
                old(self).client,
                final(self).client,
                tokens_step(
                    old(self).const_config.tokens_dynamic_registration,
                    old(self).sema_tokens_registered,
                    before,
                    old(self).config.semantic_tokens,
                ),
                old(self).sema_tokens_registered,
                final(self).sema_tokens_registered,
                tokens_id(),
                tokens_method(),
                Some(old(self).tokens_options@),
            ),
            *final(self) == (TypstLanguageServer {
                client: final(self).client,
                sema_tokens_registered: final(self).sema_tokens_registered,
                ..*old(self)
            }),
    {
        let now = self.config.semantic_tokens;
        if now != before {
            let _ = self.enable_sema_token_caps(now == SemanticTokensMode::Enable);
        }
    }

    /// Lets the formatter follow a change of its option.
    fn follow_formatter(&mut self, before: FormatterMode)
        requires
            old(self).wf(),
        ensures
            final(self).wf(),
            quiet(old(self).client, final(self).client),
            toggled(
                old(self).client,
                final(self).client,
                formatter_step(
                    old(self).const_config.doc_fmt_dynamic_registration,
                    old(self).formatter_registered,
                    before,
                    old(self).config.formatter,
                ),
                old(self).formatter_registered,
                final(self).formatter_registered,
                formatting_id(),
                formatting_method(),
                None,
            ),
            *final(self) == (TypstLanguageServer {
                client: final(self).client,
                formatter_registered: final(self).formatter_registered,
                ..*old(self)
            }),
    {
        let now = self.config.formatter;
        if now != before {
            let _ = self.enable_formatter_caps(now != FormatterMode::Disable);
        }
    }

    /// Takes the settings over into the configuration, if they are valid.
    fn take_settings(&mut self, values: &Vec<(String, JsonValue)>) -> (r: Result<
        (),
        crate::config::ConfigError,
    >)
        ensures
            r == match spec_fault(old(self).config@, values@) {
                Some(e) => Err::<(), crate::config::ConfigError>(e),
                None => Ok(()),
            },
            r is Err ==> *final(self) == *old(self),
            r is Ok ==> final(self).config@ == spec_merged(old(self).config@, values@),
            *final(self) == (TypstLanguageServer { config: final(self).config, ..*old(self) }),
    {
        self.config.update_by_map(values)
    }

    /// Lets the capabilities and the format worker follow a change of the
    /// configuration from what it was before.
    #[verifier::rlimit(40)]
    fn follow_settings(
        &mut self,
        tokens_before: SemanticTokensMode,
        formatter_before: FormatterMode,
        width_before: u32,
    )
        requires
            old(self).wf(),
        ensures
            final(self).wf(),
            quiet(old(self).client, final(self).client),
            exists|h1: LspHost|
                {
                    &&& #[trigger] toggled(
                        old(self).client,
                        h1,
                        tokens_step(
                            old(self).const_config.tokens_dynamic_registration,
                            old(self).sema_tokens_registered,
                            tokens_before,
                            old(self).config.semantic_tokens,
                        ),
                        old(self).sema_tokens_registered,
                        final(self).sema_tokens_registered,
                        tokens_id(),
                        tokens_method(),
                        Some(old(self).tokens_options@),
                    )
                    &&& toggled(
                        h1,
                        final(self).client,
                        formatter_step(
                            old(self).const_config.doc_fmt_dynamic_registration,
                            old(self).formatter_registered,
                            formatter_before,
                            old(self).config.formatter,
                        ),
                        old(self).formatter_registered,
                        final(self).formatter_registered,
                        formatting_id(),
                        formatting_method(),
                        None,
                    )
                },
            work_views(final(self).work@) == if old(self).format_thread && (
            old(self).config.formatter != formatter_before
                || old(self).config.formatter_print_width != width_before) {
                work_views(old(self).work@).push(
                    WorkOrderView::ChangeFormatConfig {
                        mode: old(self).config.formatter,
                        width: old(self).config.formatter_print_width,
                    },
                )
            } else {
                work_views(old(self).work@)
            },
            *final(self) == (TypstLanguageServer {
                client: final(self).client,
                sema_tokens_registered: final(self).sema_tokens_registered,
                formatter_registered: final(self).formatter_registered,
                work: final(self).work,
                ..*old(self)
            }),
    {
        self.follow_tokens(tokens_before);
        let ghost h1 = self.client;
        self.follow_formatter(formatter_before);
        let mode = self.config.formatter;
        let width = self.config.formatter_print_width;
        if self.format_thread && (mode != formatter_before || width != width_before) {
            order(&mut self.work, WorkOrder::ChangeFormatConfig { mode, width });
        }
        proof {
            assert(toggled(
                old(self).client,
                h1,
                tokens_step(
                    old(self).const_config.tokens_dynamic_registration,
                    old(self).sema_tokens_registered,
                    tokens_before,
                    old(self).config.semantic_tokens,
                ),
                old(self).sema_tokens_registered,
                self.sema_tokens_registered,
                tokens_id(),
                tokens_method(),
                Some(old(self).tokens_options@),
            ));
        }
    }

    /// Applies new settings. Settings with a fault change nothing. Valid
    /// settings are taken over and forwarded to the primary compiler; the
    /// capabilities whose options changed are registered or unregistered;
    /// and the format worker is told of its new configuration.
    pub fn on_changed_configuration(&mut self, values: Vec<(String, JsonValue)>) -> (r: LspResult<
        (),
    >)
        requires
            old(self).wf(),
        ensures
            final(self).wf(),
            config_changed_spec(*old(self), *final(self), values@, r),
            quiet(old(self).client, final(self).client),
    {
        let tokens_before = self.config.semantic_tokens;
        let formatter_before = self.config.formatter;
        let width_before = self.config.formatter_print_width;
        match self.take_settings(&values) {
            Ok(()) => {},
            Err(e) => {
                let text = joined("error applying new settings: ", e.message().as_str());
                return Err(invalid_params(text.as_str()));
            },
        }
        order(&mut self.work, WorkOrder::ChangeConfig { values });
        let ghost s0 = *self;
        self.follow_settings(tokens_before, formatter_before, width_before);
        proof {
            let h1 = choose|h1: LspHost|
                {
                    &&& #[trigger] toggled(
                        s0.client,
                        h1,
                        tokens_step(
                            s0.const_config.tokens_dynamic_registration,
                            s0.sema_tokens_registered,
                            tokens_before,
                            s0.config.semantic_tokens,
                        ),
                        s0.sema_tokens_registered,
                        self.sema_tokens_registered,
                        tokens_id(),
                        tokens_method(),
                        Some(s0.tokens_options@),
                    )
                    &&& toggled(
                        h1,
                        self.client,
                        formatter_step(
                            s0.const_config.doc_fmt_dynamic_registration,
                            s0.formatter_registered,
                            formatter_before,
                            s0.config.formatter,
                        ),
                        s0.formatter_registered,
                        self.formatter_registered,
                        formatting_id(),
                        formatting_method(),
                        None,
                    )
                };
            let now = spec_merged(old(self).config@, values@);
            assert(toggled(
                old(self).client,
                h1,
                tokens_step(
                    old(self).const_config.tokens_dynamic_registration,
                    old(self).sema_tokens_registered,
                    old(self).config@.semantic_tokens,
                    now.semantic_tokens,
                ),
                old(self).sema_tokens_registered,
                self.sema_tokens_registered,
                tokens_id(),
                tokens_method(),
                Some(old(self).tokens_options@),
            ));
        }
        Ok(())
    }

    /// Asks the editor for the configuration.
    pub fn ask_configuration(&mut self)
        requires
            old(self).wf(),
        ensures
            final(self).wf(),
            asked_configuration(*old(self), *final(self)),
            quiet(old(self).client, final(self).client),
    {
        let sent = self.client.send_request(
            "workspace/configuration",
            Config::get_items(),
            Callback::Configuration,
        );
        proof {
            if sent is Ok {
                lemma_request_is_no_response(
                    old(self).client,
                    self.client,
                    configuration_method(),
                    spec_items_params(),
                    Callback::Configuration,
                );
            }
        }
    }

    /// The `workspace/didChangeConfiguration` notification: applies the
    /// settings that it carries; where it carries none, asks the editor for
    /// them.
    pub fn did_change_configuration(&mut self, params: JsonValue) -> (r: LspResult<()>)
        requires
            old(self).wf(),
        ensures
            final(self).wf(),
            did_change_configuration_spec(*old(self), *final(self), params, r),
            quiet(old(self).client, final(self).client),
    {
        match params.take_member("settings") {
            Some(JsonValue::Object(settings)) => self.on_changed_configuration(settings),
            _ => {
                self.ask_configuration();
                Ok(())
            },
        }
    }

    /// Takes the editor's reply to the request for the configuration.
    pub fn on_configuration_reply(&mut self, response: Response)
        requires
            old(self).wf(),
        ensures
            final(self).wf(),
            configuration_reply_spec(*old(self), *final(self), response),
            quiet(old(self).client, final(self).client),
    {
        if response.error.is_some() {
            return ;
        }
        match response.result {
            Some(JsonValue::Array(values)) => {
                let map = Config::values_to_map(values);
                let ghost m = map@;
                let r = self.on_changed_configuration(map);
                assert(is_values_map(values@, m) && config_changed_spec(
                    *old(self),
                    *self,
                    m,
                    r,
                ));
            },
            _ => {},
        }
    }
}

} // verus!
