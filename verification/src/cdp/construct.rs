//! Parameters of commands of which only the necessary ones are given.
use vstd::prelude::*;

use crate::cdp::input::{
    DispatchKeyEventParams, DispatchKeyEventParamsView, DispatchKeyEventType,
    DispatchMouseEventParams, DispatchMouseEventType,
};
use crate::cdp::network::{
    CookieParam, CookieParamView, SetUserAgentOverrideParams, SetUserAgentOverrideParamsView,
};
use crate::cdp::page::{
    AddScriptToEvaluateOnNewDocumentParams, AddScriptToEvaluateOnNewDocumentParamsView,
    NavigateParams, NavigateParamsView,
};
use crate::cdp::runtime::{
    CallFunctionOnParams, CallFunctionOnParamsView, EvaluateParams, EvaluateParamsView,
};
use crate::number::Num;

verus! {

impl AddScriptToEvaluateOnNewDocumentParamsView {
    /// A script, by its source.
    pub open spec fn of(source: Seq<char>) -> AddScriptToEvaluateOnNewDocumentParamsView {
        AddScriptToEvaluateOnNewDocumentParamsView {
            source,
            world_name: None,
            include_command_line_api: None,
        }
    }
}

impl AddScriptToEvaluateOnNewDocumentParams {
    /// A script, by its source.
    pub fn new(source: String) -> (params: AddScriptToEvaluateOnNewDocumentParams)
        ensures
            params.deep_view() == AddScriptToEvaluateOnNewDocumentParamsView::of(source@),
    {
        AddScriptToEvaluateOnNewDocumentParams {
            source,
            world_name: None,
            include_command_line_api: None,
        }
    }
}

impl NavigateParamsView {
    /// A navigation, by its URL.
    pub open spec fn of(url: Seq<char>) -> NavigateParamsView {
        NavigateParamsView {
            url,
            referrer: None,
            transition_type: None,
            frame_id: None,
            referrer_policy: None,
        }
    }
}

impl NavigateParams {
    /// A navigation, by its URL.
    pub fn new(url: String) -> (params: NavigateParams)
        ensures
            params.deep_view() == NavigateParamsView::of(url@),
    {
        NavigateParams {
            url,
            referrer: None,
            transition_type: None,
            frame_id: None,
            referrer_policy: None,
        }
    }
}

impl SetUserAgentOverrideParamsView {
    /// A user agent, by its name.
    pub open spec fn of(user_agent: Seq<char>) -> SetUserAgentOverrideParamsView {
        SetUserAgentOverrideParamsView {
            user_agent,
            accept_language: None,
            platform: None,
            user_agent_metadata: None,
        }
    }
}

impl SetUserAgentOverrideParams {
    /// A user agent, by its name.
    pub fn new(user_agent: String) -> (params: SetUserAgentOverrideParams)
        ensures
            params.deep_view() == SetUserAgentOverrideParamsView::of(user_agent@),
    {
        SetUserAgentOverrideParams {
            user_agent,
            accept_language: None,
            platform: None,
            user_agent_metadata: None,
        }
    }
}

impl CookieParamView {
    /// A cookie, by its name and value.
    pub open spec fn of(name: Seq<char>, value: Seq<char>) -> CookieParamView {
        CookieParamView {
            name,
            value,
            url: None,
            domain: None,
            path: None,
            secure: None,
            http_only: None,
            same_site: None,
            expires: None,
            priority: None,
            same_party: None,
            source_scheme: None,
            source_port: None,
            partition_key: None,
        }
    }
}

impl CookieParam {
    /// A cookie, by its name and value.
    pub fn new(name: String, value: String) -> (cookie: CookieParam)
        ensures
            cookie.deep_view() == CookieParamView::of(name@, value@),
    {
        CookieParam {
            name,
            value,
            url: None,
            domain: None,
            path: None,
            secure: None,
            http_only: None,
            same_site: None,
            expires: None,
            priority: None,
            same_party: None,
            source_scheme: None,
            source_port: None,
            partition_key: None,
        }
    }
}

impl EvaluateParamsView {
    /// An evaluation, by its expression.
    pub open spec fn of(expression: Seq<char>) -> EvaluateParamsView {
        EvaluateParamsView {
            expression,
            object_group: None,
            include_command_line_api: None,
            silent: None,
            context_id: None,
            return_by_value: None,
            generate_preview: None,
            user_gesture: None,
            await_promise: None,
            throw_on_side_effect: None,
            timeout: None,
            disable_breaks: None,
            repl_mode: None,
            allow_unsafe_eval_blocked_by_csp: None,
            unique_context_id: None,
            serialization_options: None,
            eval_as_function_fallback: None,
        }
    }
}

impl EvaluateParams {
    /// An evaluation, by its expression.
    pub fn new(expression: String) -> (params: EvaluateParams)
        ensures
            params.deep_view() == EvaluateParamsView::of(expression@),
    {
        EvaluateParams {
            expression,
            object_group: None,
            include_command_line_api: None,
            silent: None,
            context_id: None,
            return_by_value: None,
            generate_preview: None,
            user_gesture: None,
            await_promise: None,
            throw_on_side_effect: None,
            timeout: None,
            disable_breaks: None,
            repl_mode: None,
            allow_unsafe_eval_blocked_by_csp: None,
            unique_context_id: None,
            serialization_options: None,
            eval_as_function_fallback: None,
        }
    }
}

impl Clone for EvaluateParams {
    fn clone(&self) -> (copy: EvaluateParams)
        ensures
            copy.deep_view() == self.deep_view(),
    {
        EvaluateParams {
            expression: self.expression.clone(),
            object_group: self.object_group.clone(),
            include_command_line_api: self.include_command_line_api,
            silent: self.silent,
            context_id: self.context_id,
            return_by_value: self.return_by_value,
            generate_preview: self.generate_preview,
            user_gesture: self.user_gesture,
            await_promise: self.await_promise,
            throw_on_side_effect: self.throw_on_side_effect,
            timeout: self.timeout,
            disable_breaks: self.disable_breaks,
            repl_mode: self.repl_mode,
            allow_unsafe_eval_blocked_by_csp: self.allow_unsafe_eval_blocked_by_csp,
            unique_context_id: self.unique_context_id.clone(),
            serialization_options: self.serialization_options.clone(),
            eval_as_function_fallback: self.eval_as_function_fallback,
        }
    }
}

impl CallFunctionOnParamsView {
    /// A call, by the declaration of the function.
    pub open spec fn of(function_declaration: Seq<char>) -> CallFunctionOnParamsView {
        CallFunctionOnParamsView {
            function_declaration,
            object_id: None,
            arguments: None,
            silent: None,
            return_by_value: None,
            generate_preview: None,
            user_gesture: None,
            await_promise: None,
            execution_context_id: None,
            object_group: None,
            throw_on_side_effect: None,
            unique_context_id: None,
            serialization_options: None,
        }
    }
}

impl CallFunctionOnParams {
    /// A call, by the declaration of the function.
    pub fn new(function_declaration: String) -> (params: CallFunctionOnParams)
        ensures
            params.deep_view() == CallFunctionOnParamsView::of(function_declaration@),
    {
        CallFunctionOnParams {
            function_declaration,
            object_id: None,
            arguments: None,
            silent: None,
            return_by_value: None,
            generate_preview: None,
            user_gesture: None,
            await_promise: None,
            execution_context_id: None,
            object_group: None,
            throw_on_side_effect: None,
            unique_context_id: None,
            serialization_options: None,
        }
    }
}

impl DispatchMouseEventParams {
    /// An event of the mouse at a point, with no button.
    pub open spec fn of(kind: DispatchMouseEventType, x: Num, y: Num) -> DispatchMouseEventParams {
        DispatchMouseEventParams { kind, x, y, button: None, click_count: None }
    }

    /// An event of the mouse at a point, with no button.
    pub fn new(kind: DispatchMouseEventType, x: Num, y: Num) -> (params: DispatchMouseEventParams)
        ensures
            params == DispatchMouseEventParams::of(kind, x, y),
    {
        DispatchMouseEventParams { kind, x, y, button: None, click_count: None }
    }
}

impl DispatchKeyEventParamsView {
    /// The event that releases the key.
    pub open spec fn released(self) -> DispatchKeyEventParamsView {
        DispatchKeyEventParamsView { kind: DispatchKeyEventType::KeyUp, ..self }
    }
}

impl DispatchKeyEventParams {
    /// The event that releases the key.
    pub fn released(self) -> (params: DispatchKeyEventParams)
        ensures
            params.deep_view() == self.deep_view().released(),
    {
        DispatchKeyEventParams { kind: DispatchKeyEventType::KeyUp, ..self }
    }
}

} // verus!
