//! The operations of a page that talk to its session.
use vstd::prelude::*;

use crate::cdp::browser::{GetVersionReturns, GetVersionReturnsView};
use crate::cdp::command::{Command, CommandView};
use crate::cdp::dom::{
    Node, NodeId, NodeView, PerformSearchReturns, PerformSearchReturnsView, Rect, Rgba, SearchId,
};
use crate::cdp::emulation::SetDeviceMetricsOverrideParams;
use crate::cdp::input::{
    DispatchKeyEventParams, DispatchKeyEventParamsView, DispatchMouseEventParams,
    DispatchMouseEventType, MouseButton,
};
use crate::cdp::page::{
    CaptureScreenshotParams, FrameId, GetFrameTreeReturns, GetFrameTreeReturnsView,
    GetLayoutMetricsReturns, GetLayoutMetricsReturnsView,
};
use crate::cdp::runtime::{
    CallFunctionOnParams, CallFunctionOnParamsView, CallFunctionOnReturns,
    CallFunctionOnReturnsView, EvaluateParams, EvaluateParamsView, ExecutionContextId,
    RemoteObjectId, RemoteObjectView,
};
use crate::cdp::target::{SessionId, TargetId};
use crate::error::{CdpError, ErrorView};
use crate::flow::{
    ask, asking, bind, chain, done, execute, executing, fail, follows, read, result_view, same,
    same_is_equal, Await, Chain, Ended, Flow, FromReply, Next, Prog, Start, Step, Suspended,
};
use crate::js::EvaluationResult;
use crate::json::Json;
use crate::laws::{bind_is_associative, bind_leaves, bind_only_asks, leaves, only_asks};
use crate::layout::Point;
use crate::outside::{base64_decoded, decode_base64};
use crate::protocol::{DomWorldKind, Reply, ReplyView, Request, RequestView};
use crate::sequence::{in_sequence, sequence, Sequence};
use crate::text::{characters, one_character};

verus! {

/// A page, by its target and by the session through which it is driven.
#[derive(Debug, PartialEq, Eq)]
pub struct PageInner {
    pub target_id: TargetId,
    pub session_id: SessionId,
}

impl DeepView for PageInner {
    type V = (Seq<char>, Seq<char>);

    open spec fn deep_view(&self) -> (Seq<char>, Seq<char>) {
        (self.target_id.deep_view(), self.session_id.deep_view())
    }
}

/// A command on its way to a session.
#[derive(Debug, PartialEq, Eq)]
pub struct CommandMessage {
    pub command: Command,
    pub session_id: Option<SessionId>,
}

/// The depth that asks for all of a subtree.
pub const WHOLE_SUBTREE: i64 = -1;

// What each operation does.

/// Activates (focuses) a target.
pub open spec fn activate_op(target_id: Seq<char>) -> Prog<()> {
    execute::<()>(CommandView::ActivateTarget { target_id })
}

/// Sends a command, waits until the page is loaded and yields the request of the
/// navigation.
pub open spec fn http_op(command: CommandView) -> Prog<Seq<char>> {
    bind(execute::<()>(command), |u: ()| ask::<Json>(RequestView::Navigation))
}

/// Yields the version of the browser.
pub open spec fn version_op() -> Prog<GetVersionReturnsView> {
    execute::<GetVersionReturns>(CommandView::GetVersion)
}

/// Yields the first node within `node` that a CSS selector matches.
pub open spec fn query_selector_op(selector: Seq<char>, node: NodeId) -> Prog<NodeId> {
    execute::<NodeId>(CommandView::QuerySelector { node_id: node, selector })
}

/// Yields all nodes within `node` that a CSS selector matches.
pub open spec fn query_selector_all_op(selector: Seq<char>, node: NodeId) -> Prog<Seq<NodeId>> {
    execute::<Vec<NodeId>>(CommandView::QuerySelectorAll { node_id: node, selector })
}

/// Yields all nodes that a search finds, user agent shadow DOM included. The search is
/// discarded before the nodes are yielded.
pub open spec fn search_op(query: Seq<char>) -> Prog<Seq<NodeId>> {
    bind(
        execute::<PerformSearchReturns>(
            CommandView::PerformSearch { query, include_user_agent_shadow_dom: Some(true) },
        ),
        |found: PerformSearchReturnsView| search_results_op(found),
    )
}

/// Fetches what a search has found, then discards the search.
pub open spec fn search_results_op(found: PerformSearchReturnsView) -> Prog<Seq<NodeId>> {
    bind(
        execute::<Vec<NodeId>>(
            CommandView::GetSearchResults {
                search_id: found.search_id,
                from_index: 0,
                to_index: found.result_count,
            },
        ),
        |node_ids: Seq<NodeId>| search_discard_op(found.search_id, node_ids),
    )
}

/// Discards a search.
pub open spec fn search_discard_op(search_id: Seq<char>, node_ids: Seq<NodeId>) -> Prog<
    Seq<NodeId>,
> {
    bind(
        execute::<()>(CommandView::DiscardSearchResults { search_id }),
        |u: ()| done(node_ids),
    )
}

/// Removes a node from the document.
pub open spec fn remove_op(node_id: NodeId) -> Prog<()> {
    execute::<()>(CommandView::RemoveNode { node_id })
}

/// The event that moves the mouse to a point.
pub open spec fn mouse_moved(point: Point) -> DispatchMouseEventParams {
    DispatchMouseEventParams::of(DispatchMouseEventType::MouseMoved, point.x, point.y)
}

/// A single click with the left button: the event that begins or ends it.
pub open spec fn left_click(
    kind: DispatchMouseEventType,
    point: Point,
) -> DispatchMouseEventParams {
    DispatchMouseEventParams {
        kind,
        x: point.x,
        y: point.y,
        button: Some(MouseButton::Left),
        click_count: Some(1),
    }
}

/// Moves the mouse to a point.
pub open spec fn move_mouse_op(point: Point) -> Prog<()> {
    execute::<()>(CommandView::DispatchMouseEvent(mouse_moved(point)))
}

/// Moves the mouse to a point, presses the left button there and releases it.
pub open spec fn click_op(point: Point) -> Prog<()> {
    sequence(
        seq![
            RequestView::Command(CommandView::DispatchMouseEvent(mouse_moved(point))),
            RequestView::Command(
                CommandView::DispatchMouseEvent(
                    left_click(DispatchMouseEventType::MousePressed, point),
                ),
            ),
            RequestView::Command(
                CommandView::DispatchMouseEvent(
                    left_click(DispatchMouseEventType::MouseReleased, point),
                ),
            ),
        ],
    )
}

/// Yields the root of the document, with all of its subtree.
pub open spec fn document_op() -> Prog<NodeView> {
    execute::<Node>(CommandView::GetDocument { depth: Some(WHOLE_SUBTREE), pierce: Some(true) })
}

/// Scrolls a rectangle of the document into view.
pub open spec fn scroll_op(rect: Rect) -> Prog<()> {
    bind(
        document_op(),
        |root: NodeView|
            execute::<()>(
                CommandView::ScrollIntoViewIfNeeded {
                    backend_node_id: root.backend_node_id,
                    rect: Some(rect),
                },
            ),
    )
}

/// Presses and releases keys, one after the other. Each is looked up before it is
/// pressed, and again before it is released.
pub open spec fn keys_op(keys: Seq<Seq<char>>) -> Prog<()>
    decreases keys.len(), 1int,
{
    if keys.len() == 0 {
        done(())
    } else {
        bind(
            ask::<DispatchKeyEventParams>(RequestView::KeyEvent { key: keys[0] }),
            |event: DispatchKeyEventParamsView| key_down_op(event, keys[0], keys.skip(1)),
        )
    }
}

/// Presses a key, and goes on with its release.
pub open spec fn key_down_op(
    event: DispatchKeyEventParamsView,
    key: Seq<char>,
    rest: Seq<Seq<char>>,
) -> Prog<()>
    decreases rest.len() + 1, 0int,
{
    bind(
        execute::<()>(CommandView::DispatchKeyEvent(event)),
        |u: ()|
            bind(
                ask::<DispatchKeyEventParams>(RequestView::KeyEvent { key }),
                |event: DispatchKeyEventParamsView|
                    bind(
                        execute::<()>(CommandView::DispatchKeyEvent(event.released())),
                        |u: ()| keys_op(rest),
                    ),
            ),
    )
}

/// The commands that press keys together.
pub open spec fn key_commands(events: Seq<DispatchKeyEventParamsView>) -> Seq<CommandView> {
    events.map_values(|event: DispatchKeyEventParamsView| CommandView::DispatchKeyEvent(event))
}

/// The commands that release keys together.
pub open spec fn release_commands(events: Seq<DispatchKeyEventParamsView>) -> Seq<CommandView> {
    events.map_values(
        |event: DispatchKeyEventParamsView| CommandView::DispatchKeyEvent(event.released()),
    )
}

/// Presses keys together.
pub open spec fn keys_down_op(keys: Seq<Seq<char>>) -> Prog<()> {
    bind(
        ask::<Vec<DispatchKeyEventParams>>(RequestView::KeyEvents { keys }),
        |events: Seq<DispatchKeyEventParamsView>|
            ask::<()>(RequestView::Batch { commands: key_commands(events), at_once: None }),
    )
}

/// Releases keys together.
pub open spec fn keys_up_op(keys: Seq<Seq<char>>) -> Prog<()> {
    bind(
        ask::<Vec<DispatchKeyEventParams>>(RequestView::KeyEvents { keys }),
        |events: Seq<DispatchKeyEventParamsView>|
            ask::<()>(RequestView::Batch { commands: release_commands(events), at_once: None }),
    )
}

/// Calls a function on an object in the page.
pub open spec fn call_js_fn_op(
    function_declaration: Seq<char>,
    await_promise: bool,
    object_id: Seq<char>,
) -> Prog<CallFunctionOnReturnsView> {
    execute::<CallFunctionOnReturns>(
        CommandView::CallFunctionOn(
            CallFunctionOnParamsView {
                object_id: Some(object_id),
                generate_preview: Some(true),
                await_promise: Some(await_promise),
                ..CallFunctionOnParamsView::of(function_declaration)
            },
        ),
    )
}

/// Yields the execution context of a world of a frame.
pub open spec fn context_op(frame_id: Option<Seq<char>>, world: DomWorldKind) -> Prog<
    Option<ExecutionContextId>,
> {
    ask::<Option<ExecutionContextId>>(RequestView::ExecutionContext { frame_id, world })
}

/// Yields a given execution context, or, where none is given, that of the page.
pub open spec fn context_or_page_op(given: Option<ExecutionContextId>) -> Prog<
    Option<ExecutionContextId>,
> {
    match given {
        Some(id) => done(given),
        None => context_op(None, DomWorldKind::Main),
    }
}

/// An option, or where it is not set, `true`.
pub open spec fn or_true(option: Option<bool>) -> Option<bool> {
    match option {
        Some(b) => Some(b),
        None => Some(true),
    }
}

/// What came of an evaluation: the value, or the exception that the script threw.
pub open spec fn evaluated(returned: CallFunctionOnReturnsView) -> Prog<RemoteObjectView> {
    match returned.exception_details {
        Some(exception) => fail(ErrorView::JavascriptException(exception)),
        None => done(returned.result),
    }
}

/// Evaluates an expression. What is not set of the context, of waiting for a promise and
/// of returning the value itself is set to the page's context, to yes and to yes.
pub open spec fn evaluate_expression_op(params: EvaluateParamsView) -> Prog<RemoteObjectView> {
    bind(
        context_or_page_op(params.context_id),
        |context_id: Option<ExecutionContextId>|
            bind(
                execute::<CallFunctionOnReturns>(
                    CommandView::Evaluate(
                        EvaluateParamsView {
                            context_id,
                            await_promise: or_true(params.await_promise),
                            return_by_value: or_true(params.return_by_value),
                            ..params
                        },
                    ),
                ),
                |returned: CallFunctionOnReturnsView| evaluated(returned),
            ),
    )
}

/// Calls a function. What is not set of the context, of waiting for a promise and of
/// returning the value itself is set to the page's context, to yes and to yes.
pub open spec fn evaluate_function_op(params: CallFunctionOnParamsView) -> Prog<RemoteObjectView> {
    bind(
        context_or_page_op(params.execution_context_id),
        |context_id: Option<ExecutionContextId>|
            bind(
                execute::<CallFunctionOnReturns>(
                    CommandView::CallFunctionOn(
                        CallFunctionOnParamsView {
                            execution_context_id: context_id,
                            await_promise: or_true(params.await_promise),
                            return_by_value: or_true(params.return_by_value),
                            ..params
                        },
                    ),
                ),
                |returned: CallFunctionOnReturnsView| evaluated(returned),
            ),
    )
}

/// Yields metrics of the layout of the page.
pub open spec fn layout_metrics_op() -> Prog<GetLayoutMetricsReturnsView> {
    execute::<GetLayoutMetricsReturns>(CommandView::GetLayoutMetrics)
}

/// Yields the tree of frames of the page.
pub open spec fn frame_tree_op() -> Prog<GetFrameTreeReturnsView> {
    execute::<GetFrameTreeReturns>(CommandView::GetFrameTree)
}

/// The operation that ends with decoded data, or with an error where there is none.
pub open spec fn decoded(contents: Option<Seq<u8>>) -> Prog<Seq<u8>> {
    match contents {
        Some(bytes) => done(bytes),
        None => fail(ErrorView::Decode),
    }
}

/// Captures a screenshot and yields the image.
pub open spec fn capture_op(params: CaptureScreenshotParams) -> Prog<Seq<u8>> {
    bind(
        execute::<String>(CommandView::CaptureScreenshot(params)),
        |data: Seq<char>| decoded(base64_decoded(data)),
    )
}

/// Overrides the background colour of the page, or no longer does.
pub open spec fn set_background_color_op(color: Option<Rgba>) -> Prog<()> {
    execute::<()>(CommandView::SetDefaultBackgroundColorOverride { color })
}

/// Overrides the metrics of the device.
pub open spec fn set_device_metrics_op(params: SetDeviceMetricsOverrideParams) -> Prog<()> {
    execute::<()>(CommandView::SetDeviceMetricsOverride(params))
}

// What is left of an operation while it waits.

/// A search.
pub enum Search {
    /// Waits for what was found.
    Performing,
    /// Waits for the nodes.
    Listing { search_id: SearchId },
    /// Waits until the search is discarded.
    Discarding { node_ids: Vec<NodeId> },
}

impl Suspended for Search {
    type Output = Vec<NodeId>;

    open spec fn after(self, reply: ReplyView) -> Prog<Seq<NodeId>> {
        match self {
            Search::Performing => bind(
                read(PerformSearchReturns::found_in(reply)),
                |found: PerformSearchReturnsView| search_results_op(found),
            ),
            Search::Listing { search_id } => bind(
                read(<Vec<NodeId> as FromReply>::found_in(reply)),
                |node_ids: Seq<NodeId>| search_discard_op(search_id.deep_view(), node_ids),
            ),
            Search::Discarding { node_ids } => done(node_ids.deep_view()),
        }
    }
}

impl Flow for Search {
    fn resume(self, reply: Reply) -> (step: Step<Search, Vec<NodeId>>) {
        reveal_with_fuel(bind, 2);
        match self {
            Search::Performing => match PerformSearchReturns::from_reply(reply) {
                Some(found) => Step::Ask(
                    Request::Command(
                        Command::GetSearchResults {
                            search_id: found.search_id.clone(),
                            from_index: 0,
                            to_index: found.result_count,
                        },
                    ),
                    Search::Listing { search_id: found.search_id },
                ),
                None => Step::Abort,
            },
            Search::Listing { search_id } => match <Vec<NodeId> as FromReply>::from_reply(reply) {
                Some(node_ids) => Step::Ask(
                    Request::Command(Command::DiscardSearchResults { search_id }),
                    Search::Discarding { node_ids },
                ),
                None => Step::Abort,
            },
            Search::Discarding { node_ids } => Step::Done(Ok(node_ids)),
        }
    }
}

/// Keys that are typed. `rest` is what comes after the key that is being typed.
pub enum Typing {
    /// Waits for the event that presses `key`.
    LookingUp { key: String, rest: Vec<String> },
    /// Waits until `key` is pressed.
    Pressing { key: String, rest: Vec<String> },
    /// Waits for the event that presses the key that is down.
    LookingUpAgain { rest: Vec<String> },
    /// Waits until the key is released.
    Releasing { rest: Vec<String> },
}

impl Suspended for Typing {
    type Output = ();

    open spec fn after(self, reply: ReplyView) -> Prog<()> {
        match self {
            Typing::LookingUp { key, rest } => bind(
                read(DispatchKeyEventParams::found_in(reply)),
                |event: DispatchKeyEventParamsView|
                    key_down_op(event, key@, rest.deep_view()),
            ),
            Typing::Pressing { key, rest } => bind(
                ask::<DispatchKeyEventParams>(RequestView::KeyEvent { key: key@ }),
                |event: DispatchKeyEventParamsView|
                    bind(
                        execute::<()>(CommandView::DispatchKeyEvent(event.released())),
                        |u: ()| keys_op(rest.deep_view()),
                    ),
            ),
            Typing::LookingUpAgain { rest } => bind(
                read(DispatchKeyEventParams::found_in(reply)),
                |event: DispatchKeyEventParamsView|
                    bind(
                        execute::<()>(CommandView::DispatchKeyEvent(event.released())),
                        |u: ()| keys_op(rest.deep_view()),
                    ),
            ),
            Typing::Releasing { rest } => keys_op(rest.deep_view()),
        }
    }
}

impl Flow for Typing {
    fn resume(self, reply: Reply) -> (step: Step<Typing, ()>) {
        reveal_with_fuel(bind, 2);
        match self {
            Typing::LookingUp { key, rest } => match DispatchKeyEventParams::from_reply(reply) {
                Some(event) => Step::Ask(
                    Request::Command(Command::DispatchKeyEvent(event)),
                    Typing::Pressing { key, rest },
                ),
                None => Step::Abort,
            },
            Typing::Pressing { key, rest } => Step::Ask(
                Request::KeyEvent { key },
                Typing::LookingUpAgain { rest },
            ),
            Typing::LookingUpAgain { rest } => match DispatchKeyEventParams::from_reply(reply) {
                Some(event) => Step::Ask(
                    Request::Command(Command::DispatchKeyEvent(event.released())),
                    Typing::Releasing { rest },
                ),
                None => Step::Abort,
            },
            Typing::Releasing { rest } => type_keys(rest),
        }
    }
}

/// Presses and releases keys, one after the other.
pub fn type_keys(keys: Vec<String>) -> (step: Step<Typing, ()>)
    ensures
        follows(step, keys_op(keys.deep_view())),
{
    reveal_with_fuel(bind, 2);
    let mut rest = keys;
    if rest.len() == 0 {
        return Step::Done(Ok(()));
    }
    let key = rest.remove(0);
    assert(rest.deep_view() =~= keys.deep_view().skip(1));
    assert(key@ == keys.deep_view()[0]);
    Step::Ask(Request::KeyEvent { key: key.clone() }, Typing::LookingUp { key, rest })
}

/// An expression that is evaluated.
pub enum EvaluateExpression {
    /// Waits for the context of the page.
    FindingContext { params: EvaluateParams },
    /// Waits for the value.
    Evaluating,
}

impl Suspended for EvaluateExpression {
    type Output = EvaluationResult;

    open spec fn after(self, reply: ReplyView) -> Prog<RemoteObjectView> {
        match self {
            EvaluateExpression::FindingContext { params } => bind(
                read(<Option<ExecutionContextId> as FromReply>::found_in(reply)),
                |context_id: Option<ExecutionContextId>|
                    bind(
                        execute::<CallFunctionOnReturns>(
                            CommandView::Evaluate(
                                EvaluateParamsView {
                                    context_id,
                                    await_promise: or_true(params.await_promise),
                                    return_by_value: or_true(params.return_by_value),
                                    ..params.deep_view()
                                },
                            ),
                        ),
                        |returned: CallFunctionOnReturnsView| evaluated(returned),
                    ),
            ),
            EvaluateExpression::Evaluating => bind(
                read(CallFunctionOnReturns::found_in(reply)),
                |returned: CallFunctionOnReturnsView| evaluated(returned),
            ),
        }
    }
}

/// Ends an evaluation with the value or the exception.
pub fn finish_evaluation(returned: CallFunctionOnReturns) -> (result: Result<
    EvaluationResult,
    CdpError,
>)
    ensures
        Prog::Done(result_view(result)) == evaluated(returned.deep_view()),
        match returned.exception_details {
            Some(exception) => result == Err::<EvaluationResult, CdpError>(
                CdpError::JavascriptException(Box::new(exception)),
            ),
            None => result is Ok && result->Ok_0.inner == returned.result,
        },
{
    match returned.exception_details {
        Some(exception) => Err(CdpError::JavascriptException(Box::new(exception))),
        None => Ok(EvaluationResult { inner: returned.result }),
    }
}

impl EvaluateExpression {
    /// Evaluates an expression in the context that is set, if any.
    fn submit(params: EvaluateParams) -> (step: Step<EvaluateExpression, EvaluationResult>)
        ensures
            follows(
                step,
                bind(
                    execute::<CallFunctionOnReturns>(
                        CommandView::Evaluate(
                            EvaluateParamsView {
                                await_promise: or_true(params.await_promise),
                                return_by_value: or_true(params.return_by_value),
                                ..params.deep_view()
                            },
                        ),
                    ),
                    |returned: CallFunctionOnReturnsView| evaluated(returned),
                ),
            ),
    {
        let mut params = params;
        if params.await_promise.is_none() {
            params.await_promise = Some(true);
        }
        if params.return_by_value.is_none() {
            params.return_by_value = Some(true);
        }
        Step::Ask(Request::Command(Command::Evaluate(params)), EvaluateExpression::Evaluating)
    }
}

impl Flow for EvaluateExpression {
    fn resume(self, reply: Reply) -> (step: Step<EvaluateExpression, EvaluationResult>) {
        reveal_with_fuel(bind, 2);
        broadcast use same_is_equal;

        match self {
            EvaluateExpression::FindingContext { params } => {
                match <Option<ExecutionContextId> as FromReply>::from_reply(reply) {
                    Some(context_id) => {
                        let mut params = params;
                        params.context_id = context_id;
                        EvaluateExpression::submit(params)
                    },
                    None => Step::Abort,
                }
            },
            EvaluateExpression::Evaluating => match CallFunctionOnReturns::from_reply(reply) {
                Some(returned) => Step::Done(finish_evaluation(returned)),
                None => Step::Abort,
            },
        }
    }
}

/// A function that is called.
pub enum EvaluateFunction {
    /// Waits for the context of the page.
    FindingContext { params: CallFunctionOnParams },
    /// Waits for the value.
    Evaluating,
}

impl Suspended for EvaluateFunction {
    type Output = EvaluationResult;

    open spec fn after(self, reply: ReplyView) -> Prog<RemoteObjectView> {
        match self {
            EvaluateFunction::FindingContext { params } => bind(
                read(<Option<ExecutionContextId> as FromReply>::found_in(reply)),
                |context_id: Option<ExecutionContextId>|
                    bind(
                        execute::<CallFunctionOnReturns>(
                            CommandView::CallFunctionOn(
                                CallFunctionOnParamsView {
                                    execution_context_id: context_id,
                                    await_promise: or_true(params.await_promise),
                                    return_by_value: or_true(params.return_by_value),
                                    ..params.deep_view()
                                },
                            ),
                        ),
                        |returned: CallFunctionOnReturnsView| evaluated(returned),
                    ),
            ),
            EvaluateFunction::Evaluating => bind(
                read(CallFunctionOnReturns::found_in(reply)),
                |returned: CallFunctionOnReturnsView| evaluated(returned),
            ),
        }
    }
}

impl EvaluateFunction {
    /// Calls a function in the context that is set, if any.
    fn submit(params: CallFunctionOnParams) -> (step: Step<EvaluateFunction, EvaluationResult>)
        ensures
            follows(
                step,
                bind(
                    execute::<CallFunctionOnReturns>(
                        CommandView::CallFunctionOn(
                            CallFunctionOnParamsView {
                                await_promise: or_true(params.await_promise),
                                return_by_value: or_true(params.return_by_value),
                                ..params.deep_view()
                            },
                        ),
                    ),
                    |returned: CallFunctionOnReturnsView| evaluated(returned),
                ),
            ),
    {
        let mut params = params;
        if params.await_promise.is_none() {
            params.await_promise = Some(true);
        }
        if params.return_by_value.is_none() {
            params.return_by_value = Some(true);
        }
        Step::Ask(Request::Command(Command::CallFunctionOn(params)), EvaluateFunction::Evaluating)
    }
}

impl Flow for EvaluateFunction {
    fn resume(self, reply: Reply) -> (step: Step<EvaluateFunction, EvaluationResult>) {
        reveal_with_fuel(bind, 2);
        broadcast use same_is_equal;

        match self {
            EvaluateFunction::FindingContext { params } => {
                match <Option<ExecutionContextId> as FromReply>::from_reply(reply) {
                    Some(context_id) => {
                        let mut params = params;
                        params.execution_context_id = context_id;
                        EvaluateFunction::submit(params)
                    },
                    None => Step::Abort,
                }
            },
            EvaluateFunction::Evaluating => match CallFunctionOnReturns::from_reply(reply) {
                Some(returned) => Step::Done(finish_evaluation(returned)),
                None => Step::Abort,
            },
        }
    }
}

/// Ends with decoded data, or with the error of the decoder.
pub fn decoded_or_error(contents: Result<Vec<u8>, base64::DecodeError>) -> (result: Result<
    Vec<u8>,
    CdpError,
>)
    ensures
        match contents {
            Ok(bytes) => result == Ok::<Vec<u8>, CdpError>(bytes),
            Err(error) => result == Err::<Vec<u8>, CdpError>(CdpError::Decode(error)),
        },
{
    match contents {
        Ok(bytes) => Ok(bytes),
        Err(error) => Err(CdpError::Decode(error)),
    }
}

/// Data that is to be decoded.
pub struct Decode;

impl Next for Decode {
    type Input = String;

    type Rest = Ended<Vec<u8>>;

    open spec fn next(self, data: Seq<char>) -> Prog<Seq<u8>> {
        decoded(base64_decoded(data))
    }
}

impl Start for Decode {
    fn start(self, data: String) -> (step: Step<Ended<Vec<u8>>, Vec<u8>>) {
        let contents = decode_base64(data.as_str());
        proof {
            if contents is Ok {
                assert(contents->Ok_0.deep_view() =~= contents->Ok_0@);
            }
        }
        Step::Done(decoded_or_error(contents))
    }
}

/// Waits until the page is loaded.
pub struct Navigate;

impl Next for Navigate {
    type Input = ();

    type Rest = Await<Json>;

    open spec fn next(self, u: ()) -> Prog<Seq<char>> {
        ask::<Json>(RequestView::Navigation)
    }
}

impl Start for Navigate {
    fn start(self, u: ()) -> (step: Step<Await<Json>, Json>) {
        asking(Request::Navigation)
    }
}

/// The rectangle to scroll to, once the document is known.
pub struct ScrollTo {
    pub rect: Rect,
}

impl Next for ScrollTo {
    type Input = Node;

    type Rest = Await<()>;

    open spec fn next(self, root: NodeView) -> Prog<()> {
        execute::<()>(
            CommandView::ScrollIntoViewIfNeeded {
                backend_node_id: root.backend_node_id,
                rect: Some(self.rect),
            },
        )
    }
}

impl Start for ScrollTo {
    fn start(self, root: Node) -> (step: Step<Await<()>, ()>) {
        executing(
            Command::ScrollIntoViewIfNeeded {
                backend_node_id: root.backend_node_id,
                rect: Some(self.rect),
            },
        )
    }
}

/// Presses keys together, once they are looked up.
pub struct PressTogether;

impl Next for PressTogether {
    type Input = Vec<DispatchKeyEventParams>;

    type Rest = Await<()>;

    open spec fn next(self, events: Seq<DispatchKeyEventParamsView>) -> Prog<()> {
        ask::<()>(RequestView::Batch { commands: key_commands(events), at_once: None })
    }
}

impl Start for PressTogether {
    fn start(self, events: Vec<DispatchKeyEventParams>) -> (step: Step<Await<()>, ()>) {
        let ghost all = key_commands(events.deep_view());
        let mut rest = events;
        let mut commands: Vec<Command> = Vec::new();
        while rest.len() > 0
            invariant
                all.len() == commands@.len() + rest@.len(),
                forall|i: int|
                    0 <= i < commands@.len() ==> #[trigger] commands@[i].deep_view() == all[i],
                forall|i: int|
                    0 <= i < rest@.len() ==> CommandView::DispatchKeyEvent(
                        #[trigger] rest@[i].deep_view(),
                    ) == all[commands@.len() + i],
            decreases rest@.len(),
        {
            let event = rest.remove(0);
            commands.push(Command::DispatchKeyEvent(event));
        }
        assert(commands.deep_view() =~= all);
        asking(Request::Batch { commands, at_once: None })
    }
}

/// Releases keys together, once they are looked up.
pub struct ReleaseTogether;

impl Next for ReleaseTogether {
    type Input = Vec<DispatchKeyEventParams>;

    type Rest = Await<()>;

    open spec fn next(self, events: Seq<DispatchKeyEventParamsView>) -> Prog<()> {
        ask::<()>(RequestView::Batch { commands: release_commands(events), at_once: None })
    }
}

impl Start for ReleaseTogether {
    fn start(self, events: Vec<DispatchKeyEventParams>) -> (step: Step<Await<()>, ()>) {
        let ghost all = release_commands(events.deep_view());
        let mut rest = events;
        let mut commands: Vec<Command> = Vec::new();
        while rest.len() > 0
            invariant
                all.len() == commands@.len() + rest@.len(),
                forall|i: int|
                    0 <= i < commands@.len() ==> #[trigger] commands@[i].deep_view() == all[i],
                forall|i: int|
                    0 <= i < rest@.len() ==> CommandView::DispatchKeyEvent(
                        (#[trigger] rest@[i].deep_view()).released(),
                    ) == all[commands@.len() + i],
            decreases rest@.len(),
        {
            let event = rest.remove(0);
            commands.push(Command::DispatchKeyEvent(event.released()));
        }
        assert(commands.deep_view() =~= all);
        asking(Request::Batch { commands, at_once: None })
    }
}

/// The characters of a text, each as a key of its own.
pub open spec fn each_character(text: Seq<char>) -> Seq<Seq<char>> {
    text.map_values(|c: char| seq![c])
}

/// Moves the mouse to a point.
pub fn move_mouse_to(point: Point) -> (step: Step<Await<()>, ()>)
    ensures
        follows(step, move_mouse_op(point)),
{
    executing(
        Command::DispatchMouseEvent(
            DispatchMouseEventParams::new(DispatchMouseEventType::MouseMoved, point.x, point.y),
        ),
    )
}

/// Clicks at a point.
pub fn click_at(point: Point) -> (step: Step<Sequence, ()>)
    ensures
        follows(step, click_op(point)),
{
    let moved = DispatchMouseEventParams::new(
        DispatchMouseEventType::MouseMoved,
        point.x,
        point.y,
    );
    let pressed = DispatchMouseEventParams {
        kind: DispatchMouseEventType::MousePressed,
        x: point.x,
        y: point.y,
        button: Some(MouseButton::Left),
        click_count: Some(1),
    };
    let released = DispatchMouseEventParams {
        kind: DispatchMouseEventType::MouseReleased,
        ..pressed
    };
    let requests: Vec<Request> = vec![
        Request::Command(Command::DispatchMouseEvent(moved)),
        Request::Command(Command::DispatchMouseEvent(pressed)),
        Request::Command(Command::DispatchMouseEvent(released)),
    ];
    assert(requests.deep_view() =~= seq![
        RequestView::Command(CommandView::DispatchMouseEvent(moved)),
        RequestView::Command(CommandView::DispatchMouseEvent(pressed)),
        RequestView::Command(CommandView::DispatchMouseEvent(released)),
    ]);
    in_sequence(requests)
}

/// Yields all nodes that match a plain text, a CSS selector or an XPath.
pub fn search(query: String) -> (step: Step<Search, Vec<NodeId>>)
    ensures
        follows(step, search_op(query@)),
{
    Step::Ask(
        Request::Command(
            Command::PerformSearch { query, include_user_agent_shadow_dom: Some(true) },
        ),
        Search::Performing,
    )
}

/// Calls a function on an object in the page.
pub fn call_on_object(
    function_declaration: String,
    await_promise: bool,
    remote_object_id: RemoteObjectId,
) -> (step: Step<Await<CallFunctionOnReturns>, CallFunctionOnReturns>)
    ensures
        follows(
            step,
            call_js_fn_op(
                function_declaration@,
                await_promise,
                remote_object_id.deep_view(),
            ),
        ),
{
    let mut params = CallFunctionOnParams::new(function_declaration);
    params.object_id = Some(remote_object_id);
    params.generate_preview = Some(true);
    params.await_promise = Some(await_promise);
    executing(Command::CallFunctionOn(params))
}

/// Evaluates an expression.
pub fn evaluate_as_expression(evaluate: EvaluateParams) -> (step: Step<
    EvaluateExpression,
    EvaluationResult,
>)
    ensures
        follows(step, evaluate_expression_op(evaluate.deep_view())),
{
    reveal_with_fuel(bind, 2);
    broadcast use same_is_equal;

    if evaluate.context_id.is_none() {
        Step::Ask(
            Request::ExecutionContext { frame_id: None, world: DomWorldKind::Main },
            EvaluateExpression::FindingContext { params: evaluate },
        )
    } else {
        EvaluateExpression::submit(evaluate)
    }
}

/// Calls a function.
pub fn evaluate_as_function(evaluate: CallFunctionOnParams) -> (step: Step<
    EvaluateFunction,
    EvaluationResult,
>)
    ensures
        follows(step, evaluate_function_op(evaluate.deep_view())),
{
    reveal_with_fuel(bind, 2);
    broadcast use same_is_equal;

    if evaluate.execution_context_id.is_none() {
        Step::Ask(
            Request::ExecutionContext { frame_id: None, world: DomWorldKind::Main },
            EvaluateFunction::FindingContext { params: evaluate },
        )
    } else {
        EvaluateFunction::submit(evaluate)
    }
}

/// Yields the root of the document, with all of its subtree.
pub fn document() -> (step: Step<Await<Node>, Node>)
    ensures
        follows(step, document_op()),
{
    executing(Command::GetDocument { depth: Some(WHOLE_SUBTREE), pierce: Some(true) })
}

/// Captures a screenshot and yields the image.
pub fn capture(capture_screenshot_params: CaptureScreenshotParams) -> (step: Step<
    Chain<Await<String>, Decode>,
    Vec<u8>,
>)
    ensures
        follows(step, capture_op(capture_screenshot_params)),
{
    broadcast use same_is_equal;

    chain(executing::<String>(Command::CaptureScreenshot(capture_screenshot_params)), Decode)
}

/// Yields the execution context of a world of a frame.
pub fn context_for_world(
    frame_id: Option<FrameId>,
    dom_world: DomWorldKind,
) -> (step: Step<Await<Option<ExecutionContextId>>, Option<ExecutionContextId>>)
    ensures
        follows(step, context_op(frame_id.deep_view(), dom_world)),
{
    asking(Request::ExecutionContext { frame_id, world: dom_world })
}

/// Scrolls a rectangle of the document into view.
pub fn scroll_to(rect: Rect) -> (step: Step<Chain<Await<Node>, ScrollTo>, ()>)
    ensures
        follows(step, scroll_op(rect)),
{
    broadcast use same_is_equal;

    chain(document(), ScrollTo { rect })
}

impl PageInner {
    /// Addresses a command to the session of the page.
    pub fn execute(&self, cmd: Command) -> (message: CommandMessage)
        ensures
            message.command == cmd,
            message.session_id == Some(self.session_id),
    {
        CommandMessage { command: cmd, session_id: Some(self.session_id.clone()) }
    }

    /// Addresses a command to the session of the page.
    pub fn command_future(&self, cmd: Command) -> (message: CommandMessage)
        ensures
            message.command == cmd,
            message.session_id == Some(self.session_id),
    {
        self.execute(cmd)
    }

    /// Sends a command that makes the page navigate, waits until the page is loaded and
    /// yields the request of the navigation.
    pub fn http_future(&self, cmd: Command) -> (step: Step<Chain<Await<()>, Navigate>, Json>)
        ensures
            follows(step, http_op(cmd.deep_view())),
    {
        broadcast use same_is_equal;

        chain(executing::<()>(cmd), Navigate)
    }

    /// The target of the page.
    pub fn target_id(&self) -> (id: &TargetId)
        ensures
            *id == self.target_id,
    {
        &self.target_id
    }

    /// The session of the page.
    pub fn session_id(&self) -> (id: &SessionId)
        ensures
            *id == self.session_id,
    {
        &self.session_id
    }

    /// Waits until the navigation that is under way has finished, and yields its request.
    pub fn wait_for_navigation(&self) -> (step: Step<Await<Json>, Json>)
        ensures
            follows(step, ask::<Json>(RequestView::Navigation)),
    {
        asking(Request::Navigation)
    }

    /// Activates (focuses) the target.
    pub fn activate(&self) -> (step: Step<Await<()>, ()>)
        ensures
            follows(step, activate_op(self.target_id.deep_view())),
    {
        executing(Command::ActivateTarget { target_id: self.target_id.clone() })
    }

    /// Yields the version of the browser.
    pub fn version(&self) -> (step: Step<Await<GetVersionReturns>, GetVersionReturns>)
        ensures
            follows(step, version_op()),
    {
        executing(Command::GetVersion)
    }

    /// Yields the first node within `node` that a CSS selector matches.
    pub fn query_selector(&self, selector: String, node: NodeId) -> (step: Step<
        Await<NodeId>,
        NodeId,
    >)
        ensures
            follows(step, query_selector_op(selector@, node)),
    {
        executing(Command::QuerySelector { node_id: node, selector })
    }

    /// Yields all nodes within `node` that a CSS selector matches.
    pub fn query_selector_all(&self, selector: String, node: NodeId) -> (step: Step<
        Await<Vec<NodeId>>,
        Vec<NodeId>,
    >)
        ensures
            follows(step, query_selector_all_op(selector@, node)),
    {
        executing(Command::QuerySelectorAll { node_id: node, selector })
    }

    /// Yields all nodes that match a plain text, a CSS selector or an XPath.
    pub fn perfrom_search(&self, query: String) -> (step: Step<Search, Vec<NodeId>>)
        ensures
            follows(step, search_op(query@)),
    {
        search(query)
    }

    /// Removes a node from the document.
    pub fn remove(&self, node_id: NodeId) -> (step: Step<Await<()>, ()>)
        ensures
            follows(step, remove_op(node_id)),
    {
        executing(Command::RemoveNode { node_id })
    }

    /// Moves the mouse to a point.
    pub fn move_mouse(&self, point: Point) -> (step: Step<Await<()>, ()>)
        ensures
            follows(step, move_mouse_op(point)),
    {
        move_mouse_to(point)
    }

    /// Clicks at a point.
    pub fn click(&self, point: Point) -> (step: Step<Sequence, ()>)
        ensures
            follows(step, click_op(point)),
    {
        click_at(point)
    }

    /// Scrolls a rectangle of the document into view.
    pub fn scroll(&self, rect: Rect) -> (step: Step<Chain<Await<Node>, ScrollTo>, ()>)
        ensures
            follows(step, scroll_op(rect)),
    {
        scroll_to(rect)
    }

    /// Types a text: each of its characters is a keystroke of its own.
    pub fn type_str(&self, input: &str) -> (step: Step<Typing, ()>)
        ensures
            follows(step, keys_op(each_character(input@))),
    {
        let chars = characters(input);
        let mut keys: Vec<String> = Vec::new();
        let mut i: usize = 0;
        while i < chars.len()
            invariant
                i <= chars@.len(),
                chars@ == input@,
                keys@.len() == i,
                forall|j: int| 0 <= j < i ==> #[trigger] keys@[j]@ == seq![input@[j]],
            decreases chars@.len() - i,
        {
            keys.push(one_character(chars[i]));
            i = i + 1;
        }
        assert(keys.deep_view() =~= each_character(input@));
        type_keys(keys)
    }

    /// Presses keys together.
    pub fn keys_down(&self, keys: Vec<String>) -> (step: Step<
        Chain<Await<Vec<DispatchKeyEventParams>>, PressTogether>,
        (),
    >)
        ensures
            follows(step, keys_down_op(keys.deep_view())),
    {
        broadcast use same_is_equal;

        chain(asking::<Vec<DispatchKeyEventParams>>(Request::KeyEvents { keys }), PressTogether)
    }

    /// Releases keys together.
    pub fn keys_up(&self, keys: Vec<String>) -> (step: Step<
        Chain<Await<Vec<DispatchKeyEventParams>>, ReleaseTogether>,
        (),
    >)
        ensures
            follows(step, keys_up_op(keys.deep_view())),
    {
        broadcast use same_is_equal;

        chain(asking::<Vec<DispatchKeyEventParams>>(Request::KeyEvents { keys }), ReleaseTogether)
    }

    /// Presses a key and releases it.
    pub fn press_key(&self, key: String) -> (step: Step<Typing, ()>)
        ensures
            follows(step, keys_op(seq![key@])),
    {
        let keys: Vec<String> = vec![key];
        assert(keys.deep_view() =~= seq![key@]);
        type_keys(keys)
    }

    /// Calls a function on an object in the page.
    pub fn call_js_fn(
        &self,
        function_declaration: String,
        await_promise: bool,
        remote_object_id: RemoteObjectId,
    ) -> (step: Step<Await<CallFunctionOnReturns>, CallFunctionOnReturns>)
        ensures
            follows(
                step,
                call_js_fn_op(
                    function_declaration@,
                    await_promise,
                    remote_object_id.deep_view(),
                ),
            ),
    {
        call_on_object(function_declaration, await_promise, remote_object_id)
    }

    /// Evaluates an expression.
    pub fn evaluate_expression(&self, evaluate: EvaluateParams) -> (step: Step<
        EvaluateExpression,
        EvaluationResult,
    >)
        ensures
            follows(step, evaluate_expression_op(evaluate.deep_view())),
    {
        evaluate_as_expression(evaluate)
    }

    /// Calls a function.
    pub fn evaluate_function(&self, evaluate: CallFunctionOnParams) -> (step: Step<
        EvaluateFunction,
        EvaluationResult,
    >)
        ensures
            follows(step, evaluate_function_op(evaluate.deep_view())),
    {
        evaluate_as_function(evaluate)
    }

    /// Yields the execution context of the page.
    pub fn execution_context(&self) -> (step: Step<
        Await<Option<ExecutionContextId>>,
        Option<ExecutionContextId>,
    >)
        ensures
            follows(step, context_op(None, DomWorldKind::Main)),
    {
        self.execution_context_for_world(None, DomWorldKind::Main)
    }

    /// Yields the execution context of the page that is set apart for work on the DOM.
    pub fn secondary_execution_context(&self) -> (step: Step<
        Await<Option<ExecutionContextId>>,
        Option<ExecutionContextId>,
    >)
        ensures
            follows(step, context_op(None, DomWorldKind::Secondary)),
    {
        self.execution_context_for_world(None, DomWorldKind::Secondary)
    }

    /// Yields the execution context of a frame.
    pub fn frame_execution_context(&self, frame_id: FrameId) -> (step: Step<
        Await<Option<ExecutionContextId>>,
        Option<ExecutionContextId>,
    >)
        ensures
            follows(step, context_op(Some(frame_id.deep_view()), DomWorldKind::Main)),
    {
        self.execution_context_for_world(Some(frame_id), DomWorldKind::Main)
    }

    /// Yields the execution context of a frame that is set apart for work on the DOM.
    pub fn frame_secondary_execution_context(&self, frame_id: FrameId) -> (step: Step<
        Await<Option<ExecutionContextId>>,
        Option<ExecutionContextId>,
    >)
        ensures
            follows(step, context_op(Some(frame_id.deep_view()), DomWorldKind::Secondary)),
    {
        self.execution_context_for_world(Some(frame_id), DomWorldKind::Secondary)
    }

    /// Yields the execution context of a world of a frame.
    pub fn execution_context_for_world(
        &self,
        frame_id: Option<FrameId>,
        dom_world: DomWorldKind,
    ) -> (step: Step<Await<Option<ExecutionContextId>>, Option<ExecutionContextId>>)
        ensures
            follows(step, context_op(frame_id.deep_view(), dom_world)),
    {
        context_for_world(frame_id, dom_world)
    }

    /// Yields metrics of the layout of the page.
    pub fn layout_metrics(&self) -> (step: Step<
        Await<GetLayoutMetricsReturns>,
        GetLayoutMetricsReturns,
    >)
        ensures
            follows(step, layout_metrics_op()),
    {
        executing(Command::GetLayoutMetrics)
    }

    /// Yields the tree of frames of the page.
    pub fn frame_tree(&self) -> (step: Step<Await<GetFrameTreeReturns>, GetFrameTreeReturns>)
        ensures
            follows(step, frame_tree_op()),
    {
        executing(Command::GetFrameTree)
    }

    /// Yields the root of the document, with all of its subtree.
    pub fn get_document(&self) -> (step: Step<Await<Node>, Node>)
        ensures
            follows(step, document_op()),
    {
        document()
    }

    /// Captures a screenshot and yields the image.
    pub fn screenshot(&self, capture_screenshot_params: CaptureScreenshotParams) -> (step: Step<
        Chain<Await<String>, Decode>,
        Vec<u8>,
    >)
        ensures
            follows(step, capture_op(capture_screenshot_params)),
    {
        capture(capture_screenshot_params)
    }

    /// Starts a screencast.
    pub fn start_screencast(&self) -> (step: Step<Await<()>, ()>)
        ensures
            follows(step, execute::<()>(CommandView::StartScreencast)),
    {
        executing(Command::StartScreencast)
    }

    /// Stops a screencast.
    pub fn stop_screencast(&self) -> (step: Step<Await<()>, ()>)
        ensures
            follows(step, execute::<()>(CommandView::StopScreencast)),
    {
        executing(Command::StopScreencast)
    }

    /// Acknowledges a frame of a screencast.
    pub fn screencast_frame_ack(&self, session_id: i64) -> (step: Step<Await<()>, ()>)
        ensures
            follows(step, execute::<()>(CommandView::ScreencastFrameAck { session_id })),
    {
        executing(Command::ScreencastFrameAck { session_id })
    }

    /// Overrides the background colour of the page, or no longer does.
    pub fn set_background_color(&self, color: Option<Rgba>) -> (step: Step<Await<()>, ()>)
        ensures
            follows(step, set_background_color_op(color)),
    {
        executing(Command::SetDefaultBackgroundColorOverride { color })
    }

    /// Overrides the metrics of the device.
    pub fn set_device_metrics(&self, device_metrics: SetDeviceMetricsOverrideParams) -> (step: Step<
        Await<()>,
        (),
    >)
        ensures
            follows(step, set_device_metrics_op(device_metrics)),
    {
        executing(Command::SetDeviceMetricsOverride(device_metrics))
    }

    /// Sets the metrics of the device back.
    pub fn clear_device_metrics(&self) -> (step: Step<Await<()>, ()>)
        ensures
            follows(step, execute::<()>(CommandView::ClearDeviceMetricsOverride)),
    {
        executing(Command::ClearDeviceMetricsOverride)
    }
}

// What holds whatever the browser answers.

/// Typing keys and then others is typing all of them.
pub proof fn keys_split(first: Seq<Seq<char>>, second: Seq<Seq<char>>)
    ensures
        keys_op(first + second) == bind(keys_op(first), |u: ()| keys_op(second)),
    decreases first.len(),
{
    broadcast use same_is_equal;

    let after = |u: ()| keys_op(second);
    if first.len() == 0 {
        assert(first + second =~= second);
    } else {
        let key = first[0];
        let rest = first.skip(1);
        assert((first + second).skip(1) =~= rest + second);
        keys_split(rest, second);
        let press = |event: DispatchKeyEventParamsView| key_down_op(event, key, rest);
        let press_all = |event: DispatchKeyEventParamsView| key_down_op(event, key, rest + second);
        assert forall|event: DispatchKeyEventParamsView|
            bind(#[trigger] press(event), after) == press_all(event) by {
            let release = |event: DispatchKeyEventParamsView|
                bind(
                    execute::<()>(CommandView::DispatchKeyEvent(event.released())),
                    |u: ()| keys_op(rest),
                );
            let release_all = |event: DispatchKeyEventParamsView|
                bind(
                    execute::<()>(CommandView::DispatchKeyEvent(event.released())),
                    |u: ()| keys_op(rest + second),
                );
            let look_up = ask::<DispatchKeyEventParams>(RequestView::KeyEvent { key });
            assert forall|event: DispatchKeyEventParamsView|
                bind(#[trigger] release(event), after) == release_all(event) by {
                let send = execute::<()>(CommandView::DispatchKeyEvent(event.released()));
                bind_is_associative(send, |u: ()| keys_op(rest), after);
                assert((|u: ()| bind((|u: ()| keys_op(rest))(u), after)) =~= (|u: ()|
                    keys_op(rest + second)));
            }
            bind_is_associative(look_up, release, after);
            assert((|event: DispatchKeyEventParamsView| bind(release(event), after))
                =~= release_all);
            let send = execute::<()>(CommandView::DispatchKeyEvent(event));
            let go_on = |u: ()| bind(look_up, release);
            let go_on_all = |u: ()| bind(look_up, release_all);
            bind_is_associative(send, go_on, after);
            assert((|u: ()| bind(go_on(u), after)) =~= go_on_all);
        }
        bind_is_associative(
            ask::<DispatchKeyEventParams>(RequestView::KeyEvent { key }),
            press,
            after,
        );
        assert((|event: DispatchKeyEventParamsView| bind(press(event), after)) =~= press_all);
        let look_up = ask::<DispatchKeyEventParams>(RequestView::KeyEvent { key });
        assert((first + second)[0] == key);
        reveal_with_fuel(bind, 2);
        assert(same(keys_op(first), bind(look_up, press)));
        assert(same(keys_op(first + second), bind(look_up, press_all)));
    }
}

/// Typing a text and then another is typing both.
pub proof fn typing_splits(first: Seq<char>, second: Seq<char>)
    ensures
        keys_op(each_character(first + second)) == bind(
            keys_op(each_character(first)),
            |u: ()| keys_op(each_character(second)),
        ),
{
    assert(each_character(first + second) =~= each_character(first) + each_character(second));
    keys_split(each_character(first), each_character(second));
}

/// Typing a text is pressing the key of its first character, then typing the rest: each
/// character is a keystroke of its own.
pub proof fn typing_is_single_keystrokes(text: Seq<char>)
    requires
        text.len() > 0,
    ensures
        keys_op(each_character(text)) == bind(
            keys_op(seq![seq![text[0]]]),
            |u: ()| keys_op(each_character(text.skip(1))),
        ),
{
    assert(seq![text[0]] + text.skip(1) =~= text);
    assert(each_character(seq![text[0]]) =~= seq![seq![text[0]]]);
    typing_splits(seq![text[0]], text.skip(1));
}

/// The nodes that a search finds are yielded only once the search is discarded.
pub proof fn search_is_discarded(found: PerformSearchReturnsView)
    ensures
        leaves(
            search_results_op(found),
            |request: RequestView|
                request matches RequestView::Command(command) && command is DiscardSearchResults,
            RequestView::Command(
                CommandView::DiscardSearchResults { search_id: found.search_id },
            ),
            false,
        ),
{
    let kind = |request: RequestView|
        request matches RequestView::Command(command) && command is DiscardSearchResults;
    let last = RequestView::Command(
        CommandView::DiscardSearchResults { search_id: found.search_id },
    );
    let discard = |node_ids: Seq<NodeId>| search_discard_op(found.search_id, node_ids);
    assert forall|node_ids: Seq<NodeId>|
        leaves(#[trigger] discard(node_ids), kind, last, false) by {
        let end = |u: ()| done(node_ids);
        let command = execute::<()>(
            CommandView::DiscardSearchResults { search_id: found.search_id },
        );
        assert(bind(command, end) is Ask);
        reveal_with_fuel(leaves, 2);
        reveal_with_fuel(bind, 2);
    }
    bind_leaves(
        execute::<Vec<NodeId>>(
            CommandView::GetSearchResults {
                search_id: found.search_id,
                from_index: 0,
                to_index: found.result_count,
            },
        ),
        discard,
        kind,
        last,
        false,
    );
}

/// Whether what is sent for evaluation keeps what the caller has set.
pub open spec fn keeps_settings(request: RequestView, params: EvaluateParamsView) -> bool {
    match request {
        RequestView::Command(CommandView::Evaluate(sent)) => {
            &&& params.context_id is Some ==> sent.context_id == params.context_id
            &&& params.await_promise is Some ==> sent.await_promise == params.await_promise
            &&& params.return_by_value is Some ==> sent.return_by_value == params.return_by_value
            &&& sent.expression == params.expression
        },
        _ => true,
    }
}

/// An evaluation never changes what the caller has set.
pub proof fn evaluation_keeps_settings(params: EvaluateParamsView)
    ensures
        only_asks(
            evaluate_expression_op(params),
            |request: RequestView| keeps_settings(request, params),
        ),
{
    let allowed = |request: RequestView| keeps_settings(request, params);
    let after = |context_id: Option<ExecutionContextId>|
        bind(
            execute::<CallFunctionOnReturns>(
                CommandView::Evaluate(
                    EvaluateParamsView {
                        context_id,
                        await_promise: or_true(params.await_promise),
                        return_by_value: or_true(params.return_by_value),
                        ..params
                    },
                ),
            ),
            |returned: CallFunctionOnReturnsView| evaluated(returned),
        );
    reveal_with_fuel(only_asks, 2);
    reveal_with_fuel(bind, 2);
    if params.context_id is None {
        assert forall|context_id: Option<ExecutionContextId>|
            only_asks(#[trigger] after(context_id), allowed) by {
        }
        bind_only_asks(context_op(None, DomWorldKind::Main), after, allowed);
    }
}

/// Whether what is sent for a call keeps what the caller has set.
pub open spec fn call_keeps(request: RequestView, params: CallFunctionOnParamsView) -> bool {
    match request {
        RequestView::Command(CommandView::CallFunctionOn(sent)) => {
            &&& params.execution_context_id is Some ==> sent.execution_context_id
                == params.execution_context_id
            &&& params.await_promise is Some ==> sent.await_promise == params.await_promise
            &&& params.return_by_value is Some ==> sent.return_by_value == params.return_by_value
            &&& sent.function_declaration == params.function_declaration
            &&& sent.arguments == params.arguments
        },
        _ => true,
    }
}

/// A call of a function never changes what the caller has set.
pub proof fn call_keeps_settings(params: CallFunctionOnParamsView)
    ensures
        only_asks(
            evaluate_function_op(params),
            |request: RequestView| call_keeps(request, params),
        ),
{
    let allowed = |request: RequestView| call_keeps(request, params);
    let after = |context_id: Option<ExecutionContextId>|
        bind(
            execute::<CallFunctionOnReturns>(
                CommandView::CallFunctionOn(
                    CallFunctionOnParamsView {
                        execution_context_id: context_id,
                        await_promise: or_true(params.await_promise),
                        return_by_value: or_true(params.return_by_value),
                        ..params
                    },
                ),
            ),
            |returned: CallFunctionOnReturnsView| evaluated(returned),
        );
    reveal_with_fuel(only_asks, 2);
    reveal_with_fuel(bind, 2);
    if params.execution_context_id is None {
        assert forall|context_id: Option<ExecutionContextId>|
            only_asks(#[trigger] after(context_id), allowed) by {
        }
        bind_only_asks(context_op(None, DomWorldKind::Main), after, allowed);
    }
}

} // verus!
