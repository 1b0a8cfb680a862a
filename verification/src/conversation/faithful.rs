//! What contracts say of values: the contents of a value are what it holds.
use vstd::prelude::*;

use crate::cdp::fetch;
use crate::cdp::network;
use crate::cdp::page;
use crate::cdp::browser::GetVersionReturns;
use crate::cdp::command::{Command, CommandView, Domain};
use crate::cdp::css::{SourceRange, StyleSheetId};
use crate::cdp::dom::{BackendNodeId, Node, NodeId, PerformSearchReturns, Rect, Rgba, SearchId};
use crate::cdp::emulation::{
    MediaFeature, SetDeviceMetricsOverrideParams, SetGeolocationOverrideParams,
};
use crate::cdp::input::{
    DispatchKeyEventParams, DispatchKeyEventType, DispatchMouseEventParams, DispatchMouseEventType,
    MouseButton,
};
use crate::cdp::network::{
    CookieParam, DeleteCookiesParams, InterceptionId, SetUserAgentOverrideParams,
};
use crate::cdp::page::{
    AddScriptToEvaluateOnNewDocumentParams, CaptureScreenshotFormat, CaptureScreenshotParams,
    FrameId, GetFrameTreeReturns, GetLayoutMetricsReturns, NavigateParams, PrintToPdfParams,
    ScreencastFrame, ScriptIdentifier,
};
use crate::cdp::runtime::{
    CallArgument, CallFrame, CallFunctionOnParams, CallFunctionOnReturns, EvaluateParams,
    ExceptionDetails, ExecutionContextId, PropertyDescriptor, RemoteObject, RemoteObjectId,
    RemoteObjectType, ScriptId, StackTrace,
};
use crate::cdp::target::{CreateTargetParams, SessionId, TargetId};
use crate::element::{AttributeStream, Element};
use crate::error::{CdpError, ErrorView};
use crate::handler::page::PageInner;
use crate::handler::viewport::Viewport;
use crate::js::{Evaluation, EvaluationResult, EvaluationView};
use crate::json::Json;
use crate::layout::{BoundingBox, BoxModel, ElementQuad, Point};
use crate::number::Num;
use crate::protocol::{
    BoxModelReply, DomWorldKind, Measure, Reply, ReplyView, Request, RequestView, RescaleQuery,
    Rescaled, Resolved, ResolvedView,
};

verus! {

/// The contents of a version are what it holds, field by field.
pub proof fn contents_of_get_version_returns(value: GetVersionReturns)
    ensures
        value.deep_view().user_agent == value.user_agent@,
        value.deep_view().details == value.details.0@,
{
}

/// The contents of what a search has found are what it holds, field by field.
pub proof fn contents_of_perform_search_returns(value: PerformSearchReturns)
    ensures
        value.deep_view().search_id == value.search_id.0@,
        value.deep_view().result_count == value.result_count,
{
}

/// The contents of a feature of a medium are what it holds, field by field.
pub proof fn contents_of_media_feature(value: MediaFeature)
    ensures
        value.deep_view().name == value.name@,
        value.deep_view().value == value.value@,
{
}

/// The contents of an event of a key are what it holds, field by field.
pub proof fn contents_of_dispatch_key_event_params(value: DispatchKeyEventParams)
    ensures
        value.deep_view().kind == value.kind,
        value.deep_view().modifiers == value.modifiers,
        value.deep_view().text == value.text.deep_view(),
        value.deep_view().unmodified_text == value.unmodified_text.deep_view(),
        value.deep_view().code == value.code.deep_view(),
        value.deep_view().key == value.key.deep_view(),
        value.deep_view().windows_virtual_key_code == value.windows_virtual_key_code,
        value.deep_view().native_virtual_key_code == value.native_virtual_key_code,
        value.deep_view().location == value.location,
{
}

/// The contents of a cookie are what it holds, field by field.
pub proof fn contents_of_cookie_param(value: CookieParam)
    ensures
        value.deep_view().name == value.name@,
        value.deep_view().value == value.value@,
        value.deep_view().url == value.url.deep_view(),
        value.deep_view().domain == value.domain.deep_view(),
        value.deep_view().path == value.path.deep_view(),
        value.deep_view().secure == value.secure,
        value.deep_view().http_only == value.http_only,
        value.deep_view().same_site == value.same_site.deep_view(),
        value.deep_view().expires == value.expires,
        value.deep_view().priority == value.priority.deep_view(),
        value.deep_view().same_party == value.same_party,
        value.deep_view().source_scheme == value.source_scheme.deep_view(),
        value.deep_view().source_port == value.source_port,
        value.deep_view().partition_key == value.partition_key.deep_view(),
{
}

/// The contents of a deletion of cookies are what it holds, field by field.
pub proof fn contents_of_delete_cookies_params(value: DeleteCookiesParams)
    ensures
        value.deep_view().name == value.name@,
        value.deep_view().url == value.url.deep_view(),
        value.deep_view().domain == value.domain.deep_view(),
        value.deep_view().path == value.path.deep_view(),
        value.deep_view().partition_key == value.partition_key.deep_view(),
{
}

/// The contents of a user agent are what it holds, field by field.
pub proof fn contents_of_set_user_agent_override_params(value: SetUserAgentOverrideParams)
    ensures
        value.deep_view().user_agent == value.user_agent@,
        value.deep_view().accept_language == value.accept_language.deep_view(),
        value.deep_view().platform == value.platform.deep_view(),
        value.deep_view().user_agent_metadata == value.user_agent_metadata.deep_view(),
{
}

/// The contents of a script for new documents are what it holds, field by field.
pub proof fn contents_of_script_params(value: AddScriptToEvaluateOnNewDocumentParams)
    ensures
        value.deep_view().source == value.source@,
        value.deep_view().world_name == value.world_name.deep_view(),
        value.deep_view().include_command_line_api == value.include_command_line_api,
{
}

/// The contents of a navigation are what it holds, field by field.
pub proof fn contents_of_navigate_params(value: NavigateParams)
    ensures
        value.deep_view().url == value.url@,
        value.deep_view().referrer == value.referrer.deep_view(),
        value.deep_view().transition_type == value.transition_type.deep_view(),
        value.deep_view().frame_id == value.frame_id.deep_view(),
        value.deep_view().referrer_policy == value.referrer_policy.deep_view(),
{
}

/// The contents of what a page is printed with are what it holds, field by field.
pub proof fn contents_of_print_to_pdf_params(value: PrintToPdfParams)
    ensures
        value.deep_view().options == value.options.0@,
{
}

/// The contents of a layout are what it holds, field by field.
pub proof fn contents_of_get_layout_metrics_returns(value: GetLayoutMetricsReturns)
    ensures
        value.deep_view().client_width == value.client_width,
        value.deep_view().css_content_size == value.css_content_size,
        value.deep_view().content_width == value.content_width,
        value.deep_view().content_height == value.content_height,
        value.deep_view().details == value.details.0@,
{
}

/// The contents of a tree of frames are what it holds, field by field.
pub proof fn contents_of_get_frame_tree_returns(value: GetFrameTreeReturns)
    ensures
        value.deep_view().frame_id == value.frame_id.0@,
        value.deep_view().details == value.details.0@,
{
}

/// The contents of a frame of a screencast are what it holds, field by field.
pub proof fn contents_of_screencast_frame(value: ScreencastFrame)
    ensures
        value.deep_view().data == value.data.deep_view(),
        value.deep_view().copies == value.copies,
        value.deep_view().timestamp == value.timestamp,
{
}

/// The contents of a value in the page are what it holds, field by field.
pub proof fn contents_of_remote_object(value: RemoteObject)
    ensures
        value.deep_view().kind == value.kind,
        value.deep_view().subtype == value.subtype.deep_view(),
        value.deep_view().class_name == value.class_name.deep_view(),
        value.deep_view().value == value.value.deep_view(),
        value.deep_view().unserializable_value == value.unserializable_value.deep_view(),
        value.deep_view().description == value.description.deep_view(),
        value.deep_view().object_id == value.object_id.deep_view(),
        value.deep_view().details == value.details.0@,
{
}

/// The contents of an argument are what it holds, field by field.
pub proof fn contents_of_call_argument(value: CallArgument)
    ensures
        value.deep_view().value == value.value.deep_view(),
        value.deep_view().unserializable_value == value.unserializable_value.deep_view(),
        value.deep_view().object_id == value.object_id.deep_view(),
{
}

/// The contents of an evaluation are what it holds, field by field.
pub proof fn contents_of_evaluate_params(value: EvaluateParams)
    ensures
        value.deep_view().expression == value.expression@,
        value.deep_view().object_group == value.object_group.deep_view(),
        value.deep_view().include_command_line_api == value.include_command_line_api,
        value.deep_view().silent == value.silent,
        value.deep_view().context_id == value.context_id,
        value.deep_view().return_by_value == value.return_by_value,
        value.deep_view().generate_preview == value.generate_preview,
        value.deep_view().user_gesture == value.user_gesture,
        value.deep_view().await_promise == value.await_promise,
        value.deep_view().throw_on_side_effect == value.throw_on_side_effect,
        value.deep_view().timeout == value.timeout,
        value.deep_view().disable_breaks == value.disable_breaks,
        value.deep_view().repl_mode == value.repl_mode,
        value.deep_view().allow_unsafe_eval_blocked_by_csp
            == value.allow_unsafe_eval_blocked_by_csp,
        value.deep_view().unique_context_id == value.unique_context_id.deep_view(),
        value.deep_view().serialization_options == value.serialization_options.deep_view(),
        value.deep_view().eval_as_function_fallback == value.eval_as_function_fallback,
{
}

/// The contents of a call are what it holds, field by field.
pub proof fn contents_of_call_function_on_params(value: CallFunctionOnParams)
    ensures
        value.deep_view().function_declaration == value.function_declaration@,
        value.deep_view().object_id == value.object_id.deep_view(),
        value.deep_view().arguments == value.arguments.deep_view(),
        value.deep_view().silent == value.silent,
        value.deep_view().return_by_value == value.return_by_value,
        value.deep_view().generate_preview == value.generate_preview,
        value.deep_view().user_gesture == value.user_gesture,
        value.deep_view().await_promise == value.await_promise,
        value.deep_view().execution_context_id == value.execution_context_id,
        value.deep_view().object_group == value.object_group.deep_view(),
        value.deep_view().throw_on_side_effect == value.throw_on_side_effect,
        value.deep_view().unique_context_id == value.unique_context_id.deep_view(),
        value.deep_view().serialization_options == value.serialization_options.deep_view(),
{
}

/// The contents of a frame of a stack are what it holds, field by field.
pub proof fn contents_of_call_frame(value: CallFrame)
    ensures
        value.deep_view().function_name == value.function_name@,
        value.deep_view().script_id == value.script_id.0@,
        value.deep_view().url == value.url@,
        value.deep_view().line_number == value.line_number,
        value.deep_view().column_number == value.column_number,
{
}

/// The contents of a stack are what it holds, field by field.
pub proof fn contents_of_stack_trace(value: StackTrace)
    ensures
        value.deep_view().description == value.description.deep_view(),
        value.deep_view().call_frames == value.call_frames.deep_view(),
        value.deep_view().details == value.details.0@,
{
}

/// The contents of an exception are what it holds, field by field.
pub proof fn contents_of_exception_details(value: ExceptionDetails)
    ensures
        value.deep_view().exception_id == value.exception_id,
        value.deep_view().text == value.text@,
        value.deep_view().line_number == value.line_number,
        value.deep_view().column_number == value.column_number,
        value.deep_view().url == value.url.deep_view(),
        value.deep_view().stack_trace == value.stack_trace.deep_view(),
        value.deep_view().details == value.details.0@,
{
}

/// The contents of what a script returns are what it holds, field by field.
pub proof fn contents_of_call_function_on_returns(value: CallFunctionOnReturns)
    ensures
        value.deep_view().result == value.result.deep_view(),
        value.deep_view().exception_details == value.exception_details.deep_view(),
{
}

/// The contents of a property are what it holds, field by field.
pub proof fn contents_of_property_descriptor(value: PropertyDescriptor)
    ensures
        value.deep_view().name == value.name@,
        value.deep_view().details == value.details.0@,
{
}

/// The contents of a new target are what it holds, field by field.
pub proof fn contents_of_create_target_params(value: CreateTargetParams)
    ensures
        value.deep_view().url == value.url@,
        value.deep_view().width == value.width,
        value.deep_view().height == value.height,
        value.deep_view().browser_context_id == value.browser_context_id.deep_view(),
        value.deep_view().enable_begin_frame_control == value.enable_begin_frame_control,
        value.deep_view().new_window == value.new_window,
        value.deep_view().background == value.background,
{
}

/// The contents of an element are what it holds, field by field.
pub proof fn contents_of_element(value: Element)
    ensures
        value.deep_view().remote_object_id == value.remote_object_id.0@,
        value.deep_view().backend_node_id == value.backend_node_id,
        value.deep_view().node_id == value.node_id,
{
}

/// The contents of a stream of attributes are what it holds, field by field.
pub proof fn contents_of_attribute_stream(value: AttributeStream)
    ensures
        value.deep_view().attributes == value.attributes.deep_view(),
        value.deep_view().remote_object_id == value.remote_object_id.0@,
        value.deep_view().lookup == value.lookup.deep_view(),
{
}

/// The contents of the boxes of an element are what it holds, field by field.
pub proof fn contents_of_box_model_reply(value: BoxModelReply)
    ensures
        value.deep_view().content == value.content.deep_view(),
        value.deep_view().padding == value.padding.deep_view(),
        value.deep_view().border == value.border.deep_view(),
        value.deep_view().margin == value.margin.deep_view(),
        value.deep_view().width == value.width,
        value.deep_view().height == value.height,
{
}

/// The contents of a command are of its kind, and what it holds.
pub proof fn contents_of_command(value: Command)
    ensures
        value.deep_view() == match value {
            Command::Enable(x) => CommandView::Enable(x),
            Command::Disable(x) => CommandView::Disable(x),
            Command::ActivateTarget { target_id } => CommandView::ActivateTarget {
                target_id: target_id.deep_view(),
            },
            Command::GetVersion => CommandView::GetVersion,
            Command::AddScriptToEvaluateOnNewDocument(x) => {
                CommandView::AddScriptToEvaluateOnNewDocument(x.deep_view())
            },
            Command::Navigate(x) => CommandView::Navigate(x.deep_view()),
            Command::Reload => CommandView::Reload,
            Command::ClosePage => CommandView::ClosePage,
            Command::BringToFront => CommandView::BringToFront,
            Command::GetLayoutMetrics => CommandView::GetLayoutMetrics,
            Command::GetFrameTree => CommandView::GetFrameTree,
            Command::CaptureScreenshot(x) => CommandView::CaptureScreenshot(x),
            Command::PrintToPdf(x) => CommandView::PrintToPdf(x.deep_view()),
            Command::SetDocumentContent { frame_id, html } => CommandView::SetDocumentContent {
                frame_id: frame_id.deep_view(),
                html: html.deep_view(),
            },
            Command::StartScreencast => CommandView::StartScreencast,
            Command::StopScreencast => CommandView::StopScreencast,
            Command::ScreencastFrameAck { session_id } => CommandView::ScreencastFrameAck {
                session_id: session_id,
            },
            Command::GetDocument { depth, pierce } => CommandView::GetDocument {
                depth: depth,
                pierce: pierce,
            },
            Command::QuerySelector { node_id, selector } => CommandView::QuerySelector {
                node_id: node_id,
                selector: selector.deep_view(),
            },
            Command::QuerySelectorAll { node_id, selector } => CommandView::QuerySelectorAll {
                node_id: node_id,
                selector: selector.deep_view(),
            },
            Command::PerformSearch { query, include_user_agent_shadow_dom } => {
                CommandView::PerformSearch {
                    query: query.deep_view(),
                    include_user_agent_shadow_dom: include_user_agent_shadow_dom,
                }
            },
            Command::GetSearchResults { search_id, from_index, to_index } => {
                CommandView::GetSearchResults {
                    search_id: search_id.deep_view(),
                    from_index: from_index,
                    to_index: to_index,
                }
            },
            Command::DiscardSearchResults { search_id } => CommandView::DiscardSearchResults {
                search_id: search_id.deep_view(),
            },
            Command::RemoveNode { node_id } => CommandView::RemoveNode {
                node_id: node_id,
            },
            Command::DescribeNode { node_id, backend_node_id, depth } => CommandView::DescribeNode {
                node_id: node_id,
                backend_node_id: backend_node_id,
                depth: depth,
            },
            Command::ResolveNode { backend_node_id } => CommandView::ResolveNode {
                backend_node_id: backend_node_id,
            },
            Command::GetBoxModel { backend_node_id } => CommandView::GetBoxModel {
                backend_node_id: backend_node_id,
            },
            Command::GetContentQuads { backend_node_id } => CommandView::GetContentQuads {
                backend_node_id: backend_node_id,
            },
            Command::ScrollIntoViewIfNeeded { backend_node_id, rect } => {
                CommandView::ScrollIntoViewIfNeeded {
                    backend_node_id: backend_node_id,
                    rect: rect,
                }
            },
            Command::Focus { backend_node_id } => CommandView::Focus {
                backend_node_id: backend_node_id,
            },
            Command::RequestChildNodes { node_id, depth, pierce } => {
                CommandView::RequestChildNodes {
                    node_id: node_id,
                    depth: depth,
                    pierce: pierce,
                }
            },
            Command::SetAttributeValue { node_id, name, value } => CommandView::SetAttributeValue {
                node_id: node_id,
                name: name.deep_view(),
                value: value.deep_view(),
            },
            Command::GetOuterHtml { node_id, backend_node_id, object_id } => {
                CommandView::GetOuterHtml {
                    node_id: node_id,
                    backend_node_id: backend_node_id,
                    object_id: object_id.deep_view(),
                }
            },
            Command::SetOuterHtml { node_id, outer_html } => CommandView::SetOuterHtml {
                node_id: node_id,
                outer_html: outer_html.deep_view(),
            },
            Command::CreateStyleSheet { frame_id } => CommandView::CreateStyleSheet {
                frame_id: frame_id.deep_view(),
            },
            Command::AddRule { style_sheet_id, location, rule_text } => CommandView::AddRule {
                style_sheet_id: style_sheet_id.deep_view(),
                location: location,
                rule_text: rule_text.deep_view(),
            },
            Command::SetUserAgentOverride(x) => CommandView::SetUserAgentOverride(x.deep_view()),
            Command::SetExtraHttpHeaders { headers } => CommandView::SetExtraHttpHeaders {
                headers: headers.deep_view(),
            },
            Command::GetCookies => CommandView::GetCookies,
            Command::SetCookies { cookies } => CommandView::SetCookies {
                cookies: cookies.deep_view(),
            },
            Command::DeleteCookies(x) => CommandView::DeleteCookies(x.deep_view()),
            Command::SetDeviceMetricsOverride(x) => CommandView::SetDeviceMetricsOverride(x),
            Command::ClearDeviceMetricsOverride => CommandView::ClearDeviceMetricsOverride,
            Command::SetDefaultBackgroundColorOverride { color } => {
                CommandView::SetDefaultBackgroundColorOverride {
                    color: color,
                }
            },
            Command::SetEmulatedMedia { features } => CommandView::SetEmulatedMedia {
                features: features.deep_view(),
            },
            Command::SetTimezoneOverride { timezone_id } => CommandView::SetTimezoneOverride {
                timezone_id: timezone_id.deep_view(),
            },
            Command::SetLocaleOverride { locale } => CommandView::SetLocaleOverride {
                locale: locale.deep_view(),
            },
            Command::SetGeolocationOverride(x) => CommandView::SetGeolocationOverride(x),
            Command::DispatchMouseEvent(x) => CommandView::DispatchMouseEvent(x),
            Command::DispatchKeyEvent(x) => CommandView::DispatchKeyEvent(x.deep_view()),
            Command::AddBinding { name } => CommandView::AddBinding {
                name: name.deep_view(),
            },
            Command::Evaluate(x) => CommandView::Evaluate(x.deep_view()),
            Command::CallFunctionOn(x) => CommandView::CallFunctionOn(x.deep_view()),
            Command::GetProperties { object_id, own_properties } => CommandView::GetProperties {
                object_id: object_id.deep_view(),
                own_properties: own_properties,
            },
            Command::GetScriptSource { script_id } => CommandView::GetScriptSource {
                script_id: script_id.deep_view(),
            },
            Command::GetMetrics => CommandView::GetMetrics,
            Command::Other { method, params } => CommandView::Other {
                method: method.deep_view(),
                params: params.deep_view(),
            },
        },
{
}

/// The contents of an error are of its kind, and what it holds.
pub proof fn contents_of_cdp_error(value: CdpError)
    ensures
        value.deep_view() == match value {
            CdpError::ChromeMessage(text) => ErrorView::ChromeMessage(text@),
            CdpError::JavascriptException(details) => ErrorView::JavascriptException(
                details.deep_view(),
            ),
            CdpError::NotFound => ErrorView::NotFound,
            CdpError::ScrollingFailed(text) => ErrorView::ScrollingFailed(text@),
            CdpError::Serde(_) => ErrorView::Serde,
            CdpError::Decode(_) => ErrorView::Decode,
            CdpError::Outside(text) => ErrorView::Outside(text@),
        },
{
}

/// The contents of a script are of its kind, and what it holds.
pub proof fn contents_of_evaluation(value: Evaluation)
    ensures
        value.deep_view() == match value {
            Evaluation::Expression(params) => EvaluationView::Expression(params.deep_view()),
            Evaluation::Function(params) => EvaluationView::Function(params.deep_view()),
        },
{
}

/// The contents of what becomes of a node are of its kind, and what it holds.
pub proof fn contents_of_resolved(value: Resolved)
    ensures
        value.deep_view() == match value {
            Resolved::Element(x) => ResolvedView::Element(x.deep_view()),
            Resolved::Failed(x) => ResolvedView::Failed(x.deep_view()),
        },
{
}

/// The contents of a request are of its kind, and what it holds.
pub proof fn contents_of_request(value: Request)
    ensures
        value.deep_view() == match value {
            Request::Command(x) => RequestView::Command(x.deep_view()),
            Request::Batch { commands, at_once } => RequestView::Batch {
                commands: commands.deep_view(),
                at_once: at_once,
            },
            Request::Url { frame_id } => RequestView::Url {
                frame_id: frame_id.deep_view(),
            },
            Request::Name { frame_id } => RequestView::Name {
                frame_id: frame_id.deep_view(),
            },
            Request::Parent { frame_id } => RequestView::Parent {
                frame_id: frame_id.deep_view(),
            },
            Request::MainFrame => RequestView::MainFrame,
            Request::AllFrames => RequestView::AllFrames,
            Request::ExecutionContext { frame_id, world } => RequestView::ExecutionContext {
                frame_id: frame_id.deep_view(),
                world: world,
            },
            Request::Navigation => RequestView::Navigation,
            Request::LifecycleEvent => RequestView::LifecycleEvent,
            Request::Elements { node_ids } => RequestView::Elements {
                node_ids: node_ids.deep_view(),
            },
            Request::KeyEvent { key } => RequestView::KeyEvent {
                key: key.deep_view(),
            },
            Request::KeyEvents { keys } => RequestView::KeyEvents {
                keys: keys.deep_view(),
            },
            Request::Bounds { quad } => RequestView::Bounds {
                quad: quad,
            },
            Request::Measure { quads } => RequestView::Measure {
                quads: quads.deep_view(),
            },
            Request::Rescale(x) => RequestView::Rescale(x),
            Request::CollectScreencast => RequestView::CollectScreencast,
            Request::Pause { milliseconds } => RequestView::Pause {
                milliseconds: milliseconds,
            },
            Request::ScreencastFrames => RequestView::ScreencastFrames,
            Request::Write { path, contents } => RequestView::Write {
                path: path.deep_view(),
                contents: contents.deep_view(),
            },
        },
{
}

/// The contents of a reply are of its kind, and what it holds.
pub proof fn contents_of_reply(value: Reply)
    ensures
        value.deep_view() == match value {
            Reply::Done => ReplyView::Done,
            Reply::Text(x) => ReplyView::Text(x.deep_view()),
            Reply::OptionalText(x) => ReplyView::OptionalText(x.deep_view()),
            Reply::Frame(x) => ReplyView::Frame(x.deep_view()),
            Reply::Frames(x) => ReplyView::Frames(x.deep_view()),
            Reply::Context(x) => ReplyView::Context(x),
            Reply::Script(x) => ReplyView::Script(x.deep_view()),
            Reply::StyleSheet(x) => ReplyView::StyleSheet(x.deep_view()),
            Reply::Node(x) => ReplyView::Node(x.deep_view()),
            Reply::NodeId(x) => ReplyView::NodeId(x),
            Reply::NodeIds(x) => ReplyView::NodeIds(x.deep_view()),
            Reply::Search(x) => ReplyView::Search(x.deep_view()),
            Reply::Object(x) => ReplyView::Object(x.deep_view()),
            Reply::Evaluated(x) => ReplyView::Evaluated(x.deep_view()),
            Reply::Properties(x) => ReplyView::Properties(x.deep_view()),
            Reply::LayoutMetrics(x) => ReplyView::LayoutMetrics(x.deep_view()),
            Reply::FrameTree(x) => ReplyView::FrameTree(x.deep_view()),
            Reply::Version(x) => ReplyView::Version(x.deep_view()),
            Reply::BoxModel(x) => ReplyView::BoxModel(x.deep_view()),
            Reply::Quads(x) => ReplyView::Quads(x.deep_view()),
            Reply::Elements(x) => ReplyView::Elements(x.deep_view()),
            Reply::KeyEvent(x) => ReplyView::KeyEvent(x.deep_view()),
            Reply::KeyEvents(x) => ReplyView::KeyEvents(x.deep_view()),
            Reply::Bounds(x) => ReplyView::Bounds(x),
            Reply::Measured(x) => ReplyView::Measured(x.deep_view()),
            Reply::Rescaled(x) => ReplyView::Rescaled(x),
            Reply::Clock(x) => ReplyView::Clock(x),
            Reply::Screencast(x) => ReplyView::Screencast(x.deep_view()),
            Reply::Payload(x) => ReplyView::Payload(x.deep_view()),
        },
{
}

/// The contents of what is known by a text are that text.
pub proof fn contents_of_ids(
    style_sheet_id: StyleSheetId,
    search_id: SearchId,
    fetch_request_id: fetch::RequestId,
    network_request_id: network::RequestId,
    interception_id: InterceptionId,
    frame_id: FrameId,
    script_identifier: ScriptIdentifier,
    remote_object_id: RemoteObjectId,
    script_id: ScriptId,
    target_id: TargetId,
    session_id: SessionId,
    json: Json,
)
    ensures
        style_sheet_id.deep_view() == style_sheet_id.0@,
        search_id.deep_view() == search_id.0@,
        fetch_request_id.deep_view() == fetch_request_id.0@,
        network_request_id.deep_view() == network_request_id.0@,
        interception_id.deep_view() == interception_id.0@,
        frame_id.deep_view() == frame_id.0@,
        script_identifier.deep_view() == script_identifier.0@,
        remote_object_id.deep_view() == remote_object_id.0@,
        script_id.deep_view() == script_id.0@,
        target_id.deep_view() == target_id.0@,
        session_id.deep_view() == session_id.0@,
        json.deep_view() == json.0@,
{
}

/// The contents of a plain value are the value itself.
pub proof fn contents_of_plain_values(
    domain: Domain,
    source_range: SourceRange,
    node_id: NodeId,
    backend_node_id: BackendNodeId,
    rect: Rect,
    rgba: Rgba,
    set_device_metrics_override_params: SetDeviceMetricsOverrideParams,
    set_geolocation_override_params: SetGeolocationOverrideParams,
    dispatch_mouse_event_type: DispatchMouseEventType,
    mouse_button: MouseButton,
    dispatch_mouse_event_params: DispatchMouseEventParams,
    dispatch_key_event_type: DispatchKeyEventType,
    viewport: page::Viewport,
    capture_screenshot_format: CaptureScreenshotFormat,
    capture_screenshot_params: CaptureScreenshotParams,
    execution_context_id: ExecutionContextId,
    remote_object_type: RemoteObjectType,
    viewport_viewport: Viewport,
    point: Point,
    element_quad: ElementQuad,
    box_model: BoxModel,
    bounding_box: BoundingBox,
    num: Num,
    dom_world_kind: DomWorldKind,
    rescale_query: RescaleQuery,
    rescaled: Rescaled,
    measure: Measure,
)
    ensures
        domain.deep_view() == domain,
        source_range.deep_view() == source_range,
        node_id.deep_view() == node_id,
        backend_node_id.deep_view() == backend_node_id,
        rect.deep_view() == rect,
        rgba.deep_view() == rgba,
        set_device_metrics_override_params.deep_view() == set_device_metrics_override_params,
        set_geolocation_override_params.deep_view() == set_geolocation_override_params,
        dispatch_mouse_event_type.deep_view() == dispatch_mouse_event_type,
        mouse_button.deep_view() == mouse_button,
        dispatch_mouse_event_params.deep_view() == dispatch_mouse_event_params,
        dispatch_key_event_type.deep_view() == dispatch_key_event_type,
        viewport.deep_view() == viewport,
        capture_screenshot_format.deep_view() == capture_screenshot_format,
        capture_screenshot_params.deep_view() == capture_screenshot_params,
        execution_context_id.deep_view() == execution_context_id,
        remote_object_type.deep_view() == remote_object_type,
        viewport_viewport.deep_view() == viewport_viewport,
        point.deep_view() == point,
        element_quad.deep_view() == element_quad,
        box_model.deep_view() == box_model,
        bounding_box.deep_view() == bounding_box,
        num.deep_view() == num,
        dom_world_kind.deep_view() == dom_world_kind,
        rescale_query.deep_view() == rescale_query,
        rescaled.deep_view() == rescaled,
        measure.deep_view() == measure,
{
}

/// The contents of a node are what it holds, and its children have the contents that they have
/// themselves, in their order.
pub proof fn contents_of_node(value: Node)
    ensures
        value.deep_view().node_id == value.node_id,
        value.deep_view().backend_node_id == value.backend_node_id,
        value.deep_view().node_name == value.node_name@,
        value.deep_view().local_name == value.local_name@,
        value.deep_view().node_value == value.node_value@,
        value.deep_view().attributes == value.attributes.deep_view(),
        value.deep_view().details == value.details.0@,
        match value.children {
            Some(children) => {
                &&& value.deep_view().children is Some
                &&& value.deep_view().children->0.len() == children@.len()
                &&& forall|i: int|
                    0 <= i < children@.len() ==> #[trigger] value.deep_view().children->0[i]
                        == children@[i].deep_view()
            },
            None => value.deep_view().children is None,
        },
{
    reveal_with_fuel(Node::contents, 2);
}

/// The contents of what a script evaluated to are those of the value, and a page is known by its
/// target and its session.
pub proof fn contents_of_results_and_pages(result: EvaluationResult, page: PageInner)
    ensures
        result.deep_view() == result.inner.deep_view(),
        page.deep_view() == (page.target_id.0@, page.session_id.0@),
{
}

} // verus!
