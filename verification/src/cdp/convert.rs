//! Conversions between the parameters of commands, and what is shown of them.
use vstd::prelude::*;
use vstd::std_specs::convert::FromSpec;

use crate::cdp::fetch;
use crate::cdp::network;
use crate::cdp::network::{
    CookieParam, CookieParamView, DeleteCookiesParams, DeleteCookiesParamsView,
};
use crate::cdp::runtime::{
    CallFrame, CallFrameView, CallFunctionOnParams, CallFunctionOnParamsView, EvaluateParams,
    EvaluateParamsView, ExceptionDetails, ExceptionDetailsView, ExecutionContextId, StackTrace,
    StackTraceView,
};
use crate::cdp::target::{CreateTargetParams, CreateTargetParamsView};
use crate::text::{decimal, decimal_round_trip, decimal_value, parse_decimal, to_decimal};

verus! {

impl Default for CreateTargetParams {
    /// A target that shows a blank page.
    fn default() -> (params: CreateTargetParams)
        ensures
            params.deep_view() == (CreateTargetParamsView {
                url: "about:blank"@,
                width: None,
                height: None,
                browser_context_id: None,
                enable_begin_frame_control: None,
                new_window: None,
                background: None,
            }),
    {
        CreateTargetParams {
            url: "about:blank".to_owned(),
            width: None,
            height: None,
            browser_context_id: None,
            enable_begin_frame_control: None,
            new_window: None,
            background: None,
        }
    }
}

impl ExecutionContextId {
    /// The number behind the id.
    pub fn inner(&self) -> (id: &i64)
        ensures
            *id == self.0,
    {
        &self.0
    }
}

/// The context that a text names. A text that is not a number that fits names context 0.
pub open spec fn named_context(text: Seq<char>) -> ExecutionContextId {
    match decimal_value(text) {
        Some(i) if i64::MIN <= i <= i64::MAX => ExecutionContextId(i as i64),
        _ => ExecutionContextId(0),
    }
}

impl From<ExecutionContextId> for String {
    fn from(value: ExecutionContextId) -> (text: String)
        ensures
            text@ == decimal(value.0 as int),
    {
        to_decimal(*value.inner())
    }
}

impl vstd::std_specs::convert::FromSpecImpl<ExecutionContextId> for String {
    open spec fn obeys_from_spec() -> bool {
        false
    }

    open spec fn from_spec(value: ExecutionContextId) -> String {
        arbitrary()
    }
}

impl From<String> for ExecutionContextId {
    fn from(value: String) -> (id: ExecutionContextId) {
        match parse_decimal(value.as_str()) {
            Some(i) => ExecutionContextId(i),
            None => ExecutionContextId(0),
        }
    }
}

impl vstd::std_specs::convert::FromSpecImpl<String> for ExecutionContextId {
    open spec fn obeys_from_spec() -> bool {
        true
    }

    open spec fn from_spec(value: String) -> ExecutionContextId {
        named_context(value@)
    }
}

/// A context is named by the text that its id is written as.
pub proof fn context_round_trip(id: ExecutionContextId)
    ensures
        named_context(decimal(id.0 as int)) == id,
{
    decimal_round_trip(id.0 as int);
}

impl From<fetch::RequestId> for network::RequestId {
    fn from(req: fetch::RequestId) -> (id: network::RequestId) {
        network::RequestId(req.0)
    }
}

impl vstd::std_specs::convert::FromSpecImpl<fetch::RequestId> for network::RequestId {
    open spec fn obeys_from_spec() -> bool {
        true
    }

    open spec fn from_spec(req: fetch::RequestId) -> network::RequestId {
        network::RequestId(req.0)
    }
}

impl From<network::RequestId> for fetch::RequestId {
    fn from(req: network::RequestId) -> (id: fetch::RequestId) {
        fetch::RequestId(req.0)
    }
}

impl vstd::std_specs::convert::FromSpecImpl<network::RequestId> for fetch::RequestId {
    open spec fn obeys_from_spec() -> bool {
        true
    }

    open spec fn from_spec(req: network::RequestId) -> fetch::RequestId {
        fetch::RequestId(req.0)
    }
}

impl From<network::InterceptionId> for fetch::RequestId {
    fn from(req: network::InterceptionId) -> (id: fetch::RequestId) {
        fetch::RequestId(req.0)
    }
}

impl vstd::std_specs::convert::FromSpecImpl<network::InterceptionId> for fetch::RequestId {
    open spec fn obeys_from_spec() -> bool {
        true
    }

    open spec fn from_spec(req: network::InterceptionId) -> fetch::RequestId {
        fetch::RequestId(req.0)
    }
}

impl From<network::InterceptionId> for network::RequestId {
    fn from(req: network::InterceptionId) -> (id: network::RequestId) {
        network::RequestId(req.0)
    }
}

impl vstd::std_specs::convert::FromSpecImpl<network::InterceptionId> for network::RequestId {
    open spec fn obeys_from_spec() -> bool {
        true
    }

    open spec fn from_spec(req: network::InterceptionId) -> network::RequestId {
        network::RequestId(req.0)
    }
}

impl From<fetch::RequestId> for network::InterceptionId {
    fn from(req: fetch::RequestId) -> (id: network::InterceptionId) {
        network::InterceptionId(req.0)
    }
}

impl vstd::std_specs::convert::FromSpecImpl<fetch::RequestId> for network::InterceptionId {
    open spec fn obeys_from_spec() -> bool {
        true
    }

    open spec fn from_spec(req: fetch::RequestId) -> network::InterceptionId {
        network::InterceptionId(req.0)
    }
}

impl From<network::RequestId> for network::InterceptionId {
    fn from(req: network::RequestId) -> (id: network::InterceptionId) {
        network::InterceptionId(req.0)
    }
}

impl vstd::std_specs::convert::FromSpecImpl<network::RequestId> for network::InterceptionId {
    open spec fn obeys_from_spec() -> bool {
        true
    }

    open spec fn from_spec(req: network::RequestId) -> network::InterceptionId {
        network::InterceptionId(req.0)
    }
}

/// The cookies that a new cookie replaces: those of its name, for its URL, domain, path
/// and partition.
pub open spec fn cookies_replaced_by(cookie: CookieParamView) -> DeleteCookiesParamsView {
    DeleteCookiesParamsView {
        name: cookie.name,
        url: cookie.url,
        domain: cookie.domain,
        path: cookie.path,
        partition_key: cookie.partition_key,
    }
}

impl DeleteCookiesParams {
    /// Deletes the cookies that a cookie replaces.
    pub fn from_cookie(param: &CookieParam) -> (params: DeleteCookiesParams)
        ensures
            params.deep_view() == cookies_replaced_by(param.deep_view()),
    {
        DeleteCookiesParams {
            name: param.name.clone(),
            url: param.url.clone(),
            domain: param.domain.clone(),
            path: param.path.clone(),
            partition_key: param.partition_key.clone(),
        }
    }
}

/// The call that submits the statement of an evaluation as a function.
pub open spec fn as_function(params: EvaluateParamsView) -> CallFunctionOnParamsView {
    CallFunctionOnParamsView {
        function_declaration: params.expression,
        object_id: None,
        arguments: None,
        silent: params.silent,
        return_by_value: params.return_by_value,
        generate_preview: params.generate_preview,
        user_gesture: params.user_gesture,
        await_promise: params.await_promise,
        execution_context_id: params.context_id,
        object_group: params.object_group,
        throw_on_side_effect: None,
        unique_context_id: params.unique_context_id,
        serialization_options: params.serialization_options,
    }
}

impl From<EvaluateParams> for CallFunctionOnParams {
    /// Submits the statement as a function.
    fn from(params: EvaluateParams) -> (call: CallFunctionOnParams)
        ensures
            call.deep_view() == as_function(params.deep_view()),
    {
        CallFunctionOnParams {
            function_declaration: params.expression,
            object_id: None,
            arguments: None,
            silent: params.silent,
            return_by_value: params.return_by_value,
            generate_preview: params.generate_preview,
            user_gesture: params.user_gesture,
            await_promise: params.await_promise,
            execution_context_id: params.context_id,
            object_group: params.object_group,
            throw_on_side_effect: None,
            unique_context_id: params.unique_context_id,
            serialization_options: params.serialization_options,
        }
    }
}

impl vstd::std_specs::convert::FromSpecImpl<EvaluateParams> for CallFunctionOnParams {
    open spec fn obeys_from_spec() -> bool {
        true
    }

    open spec fn from_spec(params: EvaluateParams) -> CallFunctionOnParams {
        CallFunctionOnParams {
            function_declaration: params.expression,
            object_id: None,
            arguments: None,
            silent: params.silent,
            return_by_value: params.return_by_value,
            generate_preview: params.generate_preview,
            user_gesture: params.user_gesture,
            await_promise: params.await_promise,
            execution_context_id: params.context_id,
            object_group: params.object_group,
            throw_on_side_effect: None,
            unique_context_id: params.unique_context_id,
            serialization_options: params.serialization_options,
        }
    }
}

/// A frame of a stack, as it is shown: `function@url:line:column`, on a line.
pub open spec fn shown_frame(frame: CallFrameView) -> Seq<char> {
    frame.function_name + "@"@ + frame.url + ":"@ + decimal(frame.line_number as int) + ":"@
        + decimal(frame.column_number as int) + "\n"@
}

/// Frames of a stack, as they are shown, one after the other.
pub open spec fn shown_frames(frames: Seq<CallFrameView>) -> Seq<char>
    decreases frames.len(),
{
    if frames.len() == 0 {
        seq![]
    } else {
        shown_frames(frames.drop_last()) + shown_frame(frames.last())
    }
}

/// A stack, as it is shown: its description, on a line, then its frames.
pub open spec fn shown_stack(stack: StackTraceView) -> Seq<char> {
    match stack.description {
        Some(description) => description + "\n"@ + shown_frames(stack.call_frames),
        None => shown_frames(stack.call_frames),
    }
}

/// An exception, as it is shown: `line:column: text`, on a line, then its stack.
pub open spec fn shown_exception(details: ExceptionDetailsView) -> Seq<char> {
    let head = decimal(details.line_number as int) + ":"@ + decimal(details.column_number as int)
        + ": "@ + details.text + "\n"@;
    match details.stack_trace {
        Some(stack) => head + shown_stack(stack),
        None => head,
    }
}

impl CallFrame {
    /// Appends the frame as it is shown.
    fn show(&self, text: &mut String)
        ensures
            final(text)@ == old(text)@ + shown_frame(self.deep_view()),
    {
        text.append(self.function_name.as_str());
        text.append("@");
        text.append(self.url.as_str());
        text.append(":");
        text.append(to_decimal(self.line_number).as_str());
        text.append(":");
        text.append(to_decimal(self.column_number).as_str());
        text.append("\n");
        assert(text@ =~= old(text)@ + shown_frame(self.deep_view()));
    }
}

impl StackTrace {
    /// The stack as it is shown.
    pub fn fmt(&self) -> (text: String)
        ensures
            text@ == shown_stack(self.deep_view()),
    {
        let mut text = String::new();
        if let Some(description) = &self.description {
            text.append(description.as_str());
            text.append("\n");
        }
        let ghost head = text@;
        let ghost frames = self.call_frames.deep_view();
        let mut i: usize = 0;
        assert(frames.take(0) =~= seq![]);
        assert(text@ =~= head + shown_frames(frames.take(0)));
        while i < self.call_frames.len()
            invariant
                i <= self.call_frames.len(),
                frames == self.call_frames.deep_view(),
                text@ == head + shown_frames(frames.take(i as int)),
            decreases self.call_frames.len() - i,
        {
            self.call_frames[i].show(&mut text);
            i = i + 1;
            assert(frames.take(i as int).drop_last() =~= frames.take(i - 1));
            assert(text@ =~= head + shown_frames(frames.take(i as int)));
        }
        assert(frames.take(i as int) =~= frames);
        assert(text@ =~= shown_stack(self.deep_view()));
        text
    }
}

impl ExceptionDetails {
    /// The exception as it is shown.
    pub fn fmt(&self) -> (text: String)
        ensures
            text@ == shown_exception(self.deep_view()),
    {
        let mut text = to_decimal(self.line_number);
        text.append(":");
        text.append(to_decimal(self.column_number).as_str());
        text.append(": ");
        text.append(self.text.as_str());
        text.append("\n");
        if let Some(stack) = &self.stack_trace {
            text.append(stack.fmt().as_str());
        }
        text
    }
}

/// The ids of a request keep their text, whichever domain names it: to turn one into
/// another and back changes nothing.
pub proof fn request_ids_round_trip(
    paused: fetch::RequestId,
    requested: network::RequestId,
    intercepted: network::InterceptionId,
)
    ensures
        fetch::RequestId::from_spec(network::RequestId::from_spec(paused)) == paused,
        fetch::RequestId::from_spec(network::InterceptionId::from_spec(paused)) == paused,
        network::RequestId::from_spec(fetch::RequestId::from_spec(requested)) == requested,
        network::RequestId::from_spec(network::InterceptionId::from_spec(requested)) == requested,
        network::InterceptionId::from_spec(fetch::RequestId::from_spec(intercepted))
            == intercepted,
        network::InterceptionId::from_spec(network::RequestId::from_spec(intercepted))
            == intercepted,
{
}

} // verus!
