//! The commands, with their parameters.
use vstd::prelude::*;

use crate::cdp::css::{SourceRange, StyleSheetId};
use crate::cdp::dom::{BackendNodeId, NodeId, Rect, Rgba, SearchId};
use crate::cdp::emulation::{
    MediaFeature, MediaFeatureView, SetDeviceMetricsOverrideParams, SetGeolocationOverrideParams,
};
use crate::cdp::input::{
    DispatchKeyEventParams, DispatchKeyEventParamsView, DispatchMouseEventParams,
};
use crate::cdp::network::{
    CookieParam, CookieParamView, DeleteCookiesParams, DeleteCookiesParamsView,
    SetUserAgentOverrideParams, SetUserAgentOverrideParamsView,
};
use crate::cdp::page::{
    AddScriptToEvaluateOnNewDocumentParams, AddScriptToEvaluateOnNewDocumentParamsView,
    CaptureScreenshotParams, FrameId, NavigateParams, NavigateParamsView, PrintToPdfParams,
    PrintToPdfParamsView,
};
use crate::cdp::runtime::{
    CallFunctionOnParams, CallFunctionOnParamsView, EvaluateParams, EvaluateParamsView,
    RemoteObjectId, ScriptId,
};
use crate::cdp::target::TargetId;
use crate::json::Json;
use crate::names::NameMap;

verus! {

/// A domain of the protocol that can be switched on and off.
#[derive(Clone, Copy, Debug, PartialEq, Eq, Structural)]
pub enum Domain {
    Css,
    Debugger,
    Dom,
    Log,
    Network,
    Runtime,
}

impl DeepView for Domain {
    type V = Domain;

    open spec fn deep_view(&self) -> Domain {
        *self
    }
}

/// A command of the protocol, with its parameters. A parameter that is not listed is given
/// through [`Command::Other`] only.
#[allow(inconsistent_fields)]
#[derive(Debug, PartialEq, Eq)]
pub enum Command {
    /// Switches a domain on.
    Enable(Domain),
    /// Switches a domain off.
    Disable(Domain),
    /// `Target.activateTarget`
    ActivateTarget { target_id: TargetId },
    /// `Browser.getVersion`
    GetVersion,
    /// `Page.addScriptToEvaluateOnNewDocument`
    AddScriptToEvaluateOnNewDocument(AddScriptToEvaluateOnNewDocumentParams),
    /// `Page.navigate`
    Navigate(NavigateParams),
    /// `Page.reload`
    Reload,
    /// `Page.close`
    ClosePage,
    /// `Page.bringToFront`
    BringToFront,
    /// `Page.getLayoutMetrics`
    GetLayoutMetrics,
    /// `Page.getFrameTree`
    GetFrameTree,
    /// `Page.captureScreenshot`
    CaptureScreenshot(CaptureScreenshotParams),
    /// `Page.printToPDF`
    PrintToPdf(PrintToPdfParams),
    /// `Page.setDocumentContent`
    SetDocumentContent { frame_id: FrameId, html: String },
    /// `Page.startScreencast`
    StartScreencast,
    /// `Page.stopScreencast`
    StopScreencast,
    /// `Page.screencastFrameAck`
    ScreencastFrameAck { session_id: i64 },
    /// `DOM.getDocument`
    GetDocument { depth: Option<i64>, pierce: Option<bool> },
    /// `DOM.querySelector`
    QuerySelector { node_id: NodeId, selector: String },
    /// `DOM.querySelectorAll`
    QuerySelectorAll { node_id: NodeId, selector: String },
    /// `DOM.performSearch`
    PerformSearch { query: String, include_user_agent_shadow_dom: Option<bool> },
    /// `DOM.getSearchResults`
    GetSearchResults { search_id: SearchId, from_index: i64, to_index: i64 },
    /// `DOM.discardSearchResults`
    DiscardSearchResults { search_id: SearchId },
    /// `DOM.removeNode`
    RemoveNode { node_id: NodeId },
    /// `DOM.describeNode`
    DescribeNode {
        node_id: Option<NodeId>,
        backend_node_id: Option<BackendNodeId>,
        depth: Option<i64>,
    },
    /// `DOM.resolveNode`
    ResolveNode { backend_node_id: BackendNodeId },
    /// `DOM.getBoxModel`
    GetBoxModel { backend_node_id: BackendNodeId },
    /// `DOM.getContentQuads`
    GetContentQuads { backend_node_id: BackendNodeId },
    /// `DOM.scrollIntoViewIfNeeded`
    ScrollIntoViewIfNeeded { backend_node_id: BackendNodeId, rect: Option<Rect> },
    /// `DOM.focus`
    Focus { backend_node_id: BackendNodeId },
    /// `DOM.requestChildNodes`
    RequestChildNodes { node_id: NodeId, depth: Option<i64>, pierce: Option<bool> },
    /// `DOM.setAttributeValue`
    SetAttributeValue { node_id: NodeId, name: String, value: String },
    /// `DOM.getOuterHTML`
    GetOuterHtml {
        node_id: Option<NodeId>,
        backend_node_id: Option<BackendNodeId>,
        object_id: Option<RemoteObjectId>,
    },
    /// `DOM.setOuterHTML`
    SetOuterHtml { node_id: NodeId, outer_html: String },
    /// `CSS.createStyleSheet`
    CreateStyleSheet { frame_id: FrameId },
    /// `CSS.addRule`
    AddRule { style_sheet_id: StyleSheetId, location: SourceRange, rule_text: String },
    /// `Network.setUserAgentOverride`
    SetUserAgentOverride(SetUserAgentOverrideParams),
    /// `Network.setExtraHTTPHeaders`
    SetExtraHttpHeaders { headers: NameMap<String> },
    /// `Network.getCookies`
    GetCookies,
    /// `Network.setCookies`
    SetCookies { cookies: Vec<CookieParam> },
    /// `Network.deleteCookies`
    DeleteCookies(DeleteCookiesParams),
    /// `Emulation.setDeviceMetricsOverride`
    SetDeviceMetricsOverride(SetDeviceMetricsOverrideParams),
    /// `Emulation.clearDeviceMetricsOverride`
    ClearDeviceMetricsOverride,
    /// `Emulation.setDefaultBackgroundColorOverride`
    SetDefaultBackgroundColorOverride { color: Option<Rgba> },
    /// `Emulation.setEmulatedMedia`
    SetEmulatedMedia { features: Vec<MediaFeature> },
    /// `Emulation.setTimezoneOverride`
    SetTimezoneOverride { timezone_id: String },
    /// `Emulation.setLocaleOverride`
    SetLocaleOverride { locale: Option<String> },
    /// `Emulation.setGeolocationOverride`
    SetGeolocationOverride(SetGeolocationOverrideParams),
    /// `Input.dispatchMouseEvent`
    DispatchMouseEvent(DispatchMouseEventParams),
    /// `Input.dispatchKeyEvent`
    DispatchKeyEvent(DispatchKeyEventParams),
    /// `Runtime.addBinding`
    AddBinding { name: String },
    /// `Runtime.evaluate`
    Evaluate(EvaluateParams),
    /// `Runtime.callFunctionOn`
    CallFunctionOn(CallFunctionOnParams),
    /// `Runtime.getProperties`
    GetProperties { object_id: RemoteObjectId, own_properties: Option<bool> },
    /// `Debugger.getScriptSource`
    GetScriptSource { script_id: ScriptId },
    /// `Performance.getMetrics`
    GetMetrics,
    /// Any command, by its method and its parameters, a JSON object. The result is passed on
    /// unread.
    Other { method: String, params: Json },
}

/// The contents of a [`Command`].
#[allow(inconsistent_fields)]
pub enum CommandView {
    Enable(Domain),
    Disable(Domain),
    ActivateTarget { target_id: Seq<char> },
    GetVersion,
    AddScriptToEvaluateOnNewDocument(AddScriptToEvaluateOnNewDocumentParamsView),
    Navigate(NavigateParamsView),
    Reload,
    ClosePage,
    BringToFront,
    GetLayoutMetrics,
    GetFrameTree,
    CaptureScreenshot(CaptureScreenshotParams),
    PrintToPdf(PrintToPdfParamsView),
    SetDocumentContent { frame_id: Seq<char>, html: Seq<char> },
    StartScreencast,
    StopScreencast,
    ScreencastFrameAck { session_id: i64 },
    GetDocument { depth: Option<i64>, pierce: Option<bool> },
    QuerySelector { node_id: NodeId, selector: Seq<char> },
    QuerySelectorAll { node_id: NodeId, selector: Seq<char> },
    PerformSearch { query: Seq<char>, include_user_agent_shadow_dom: Option<bool> },
    GetSearchResults { search_id: Seq<char>, from_index: i64, to_index: i64 },
    DiscardSearchResults { search_id: Seq<char> },
    RemoveNode { node_id: NodeId },
    DescribeNode {
        node_id: Option<NodeId>,
        backend_node_id: Option<BackendNodeId>,
        depth: Option<i64>,
    },
    ResolveNode { backend_node_id: BackendNodeId },
    GetBoxModel { backend_node_id: BackendNodeId },
    GetContentQuads { backend_node_id: BackendNodeId },
    ScrollIntoViewIfNeeded { backend_node_id: BackendNodeId, rect: Option<Rect> },
    Focus { backend_node_id: BackendNodeId },
    RequestChildNodes { node_id: NodeId, depth: Option<i64>, pierce: Option<bool> },
    SetAttributeValue { node_id: NodeId, name: Seq<char>, value: Seq<char> },
    GetOuterHtml {
        node_id: Option<NodeId>,
        backend_node_id: Option<BackendNodeId>,
        object_id: Option<Seq<char>>,
    },
    SetOuterHtml { node_id: NodeId, outer_html: Seq<char> },
    CreateStyleSheet { frame_id: Seq<char> },
    AddRule { style_sheet_id: Seq<char>, location: SourceRange, rule_text: Seq<char> },
    SetUserAgentOverride(SetUserAgentOverrideParamsView),
    SetExtraHttpHeaders { headers: Map<Seq<char>, Seq<char>> },
    GetCookies,
    SetCookies { cookies: Seq<CookieParamView> },
    DeleteCookies(DeleteCookiesParamsView),
    SetDeviceMetricsOverride(SetDeviceMetricsOverrideParams),
    ClearDeviceMetricsOverride,
    SetDefaultBackgroundColorOverride { color: Option<Rgba> },
    SetEmulatedMedia { features: Seq<MediaFeatureView> },
    SetTimezoneOverride { timezone_id: Seq<char> },
    SetLocaleOverride { locale: Option<Seq<char>> },
    SetGeolocationOverride(SetGeolocationOverrideParams),
    DispatchMouseEvent(DispatchMouseEventParams),
    DispatchKeyEvent(DispatchKeyEventParamsView),
    AddBinding { name: Seq<char> },
    Evaluate(EvaluateParamsView),
    CallFunctionOn(CallFunctionOnParamsView),
    GetProperties { object_id: Seq<char>, own_properties: Option<bool> },
    GetScriptSource { script_id: Seq<char> },
    GetMetrics,
    Other { method: Seq<char>, params: Seq<char> },
}

impl DeepView for Command {
    type V = CommandView;

    open spec fn deep_view(&self) -> CommandView {
        match self {
            Command::Enable(x) => CommandView::Enable(*x),
            Command::Disable(x) => CommandView::Disable(*x),
            Command::ActivateTarget { target_id } => CommandView::ActivateTarget {
                target_id: target_id.deep_view(),
            },
            Command::GetVersion => CommandView::GetVersion,
            Command::AddScriptToEvaluateOnNewDocument(x) => {
                CommandView::AddScriptToEvaluateOnNewDocument(x.deep_view())
            },
            Command::Navigate(x) => CommandView::Navigate(x.deep_view()),
            Command::Reload => CommandView::Reload,
            Command::ClosePage => CommandView::ClosePage,
            Command::BringToFront => CommandView::BringToFront,
            Command::GetLayoutMetrics => CommandView::GetLayoutMetrics,
            Command::GetFrameTree => CommandView::GetFrameTree,
            Command::CaptureScreenshot(x) => CommandView::CaptureScreenshot(*x),
            Command::PrintToPdf(x) => CommandView::PrintToPdf(x.deep_view()),
            Command::SetDocumentContent { frame_id, html } => CommandView::SetDocumentContent {
                frame_id: frame_id.deep_view(),
                html: html.deep_view(),
            },
            Command::StartScreencast => CommandView::StartScreencast,
            Command::StopScreencast => CommandView::StopScreencast,
            Command::ScreencastFrameAck { session_id } => CommandView::ScreencastFrameAck {
                session_id: *session_id,
            },
            Command::GetDocument { depth, pierce } => CommandView::GetDocument {
                depth: *depth,
                pierce: *pierce,
            },
            Command::QuerySelector { node_id, selector } => CommandView::QuerySelector {
                node_id: *node_id,
                selector: selector.deep_view(),
            },
            Command::QuerySelectorAll { node_id, selector } => CommandView::QuerySelectorAll {
                node_id: *node_id,
                selector: selector.deep_view(),
            },
            Command::PerformSearch { query, include_user_agent_shadow_dom } => {
                CommandView::PerformSearch {
                    query: query.deep_view(),
                    include_user_agent_shadow_dom: *include_user_agent_shadow_dom,
                }
            },
            Command::GetSearchResults { search_id, from_index, to_index } => {
                CommandView::GetSearchResults {
                    search_id: search_id.deep_view(),
                    from_index: *from_index,
                    to_index: *to_index,
                }
            },
            Command::DiscardSearchResults { search_id } => CommandView::DiscardSearchResults {
                search_id: search_id.deep_view(),
            },
            Command::RemoveNode { node_id } => CommandView::RemoveNode {
                node_id: *node_id,
            },
            Command::DescribeNode { node_id, backend_node_id, depth } => CommandView::DescribeNode {
                node_id: *node_id,
                backend_node_id: *backend_node_id,
                depth: *depth,
            },
            Command::ResolveNode { backend_node_id } => CommandView::ResolveNode {
                backend_node_id: *backend_node_id,
            },
            Command::GetBoxModel { backend_node_id } => CommandView::GetBoxModel {
                backend_node_id: *backend_node_id,
            },
            Command::GetContentQuads { backend_node_id } => CommandView::GetContentQuads {
                backend_node_id: *backend_node_id,
            },
            Command::ScrollIntoViewIfNeeded { backend_node_id, rect } => {
                CommandView::ScrollIntoViewIfNeeded {
                    backend_node_id: *backend_node_id,
                    rect: *rect,
                }
            },
            Command::Focus { backend_node_id } => CommandView::Focus {
                backend_node_id: *backend_node_id,
            },
            Command::RequestChildNodes { node_id, depth, pierce } => {
                CommandView::RequestChildNodes {
                    node_id: *node_id,
                    depth: *depth,
                    pierce: *pierce,
                }
            },
            Command::SetAttributeValue { node_id, name, value } => CommandView::SetAttributeValue {
                node_id: *node_id,
                name: name.deep_view(),
                value: value.deep_view(),
            },
            Command::GetOuterHtml { node_id, backend_node_id, object_id } => {
                CommandView::GetOuterHtml {
                    node_id: *node_id,
                    backend_node_id: *backend_node_id,
                    object_id: object_id.deep_view(),
                }
            },
            Command::SetOuterHtml { node_id, outer_html } => CommandView::SetOuterHtml {
                node_id: *node_id,
                outer_html: outer_html.deep_view(),
            },
            Command::CreateStyleSheet { frame_id } => CommandView::CreateStyleSheet {
                frame_id: frame_id.deep_view(),
            },
            Command::AddRule { style_sheet_id, location, rule_text } => CommandView::AddRule {
                style_sheet_id: style_sheet_id.deep_view(),
                location: *location,
                rule_text: rule_text.deep_view(),
            },
            Command::SetUserAgentOverride(x) => CommandView::SetUserAgentOverride(x.deep_view()),
            Command::SetExtraHttpHeaders { headers } => CommandView::SetExtraHttpHeaders {
                headers: headers.deep_view(),
            },
            Command::GetCookies => CommandView::GetCookies,
            Command::SetCookies { cookies } => CommandView::SetCookies {
                cookies: cookies.deep_view(),
            },
            Command::DeleteCookies(x) => CommandView::DeleteCookies(x.deep_view()),
            Command::SetDeviceMetricsOverride(x) => CommandView::SetDeviceMetricsOverride(*x),
            Command::ClearDeviceMetricsOverride => CommandView::ClearDeviceMetricsOverride,
            Command::SetDefaultBackgroundColorOverride { color } => {
                CommandView::SetDefaultBackgroundColorOverride {
                    color: *color,
                }
            },
            Command::SetEmulatedMedia { features } => CommandView::SetEmulatedMedia {
                features: features.deep_view(),
            },
            Command::SetTimezoneOverride { timezone_id } => CommandView::SetTimezoneOverride {
                timezone_id: timezone_id.deep_view(),
            },
            Command::SetLocaleOverride { locale } => CommandView::SetLocaleOverride {
                locale: locale.deep_view(),
            },
            Command::SetGeolocationOverride(x) => CommandView::SetGeolocationOverride(*x),
            Command::DispatchMouseEvent(x) => CommandView::DispatchMouseEvent(*x),
            Command::DispatchKeyEvent(x) => CommandView::DispatchKeyEvent(x.deep_view()),
            Command::AddBinding { name } => CommandView::AddBinding {
                name: name.deep_view(),
            },
            Command::Evaluate(x) => CommandView::Evaluate(x.deep_view()),
            Command::CallFunctionOn(x) => CommandView::CallFunctionOn(x.deep_view()),
            Command::GetProperties { object_id, own_properties } => CommandView::GetProperties {
                object_id: object_id.deep_view(),
                own_properties: *own_properties,
            },
            Command::GetScriptSource { script_id } => CommandView::GetScriptSource {
                script_id: script_id.deep_view(),
            },
            Command::GetMetrics => CommandView::GetMetrics,
            Command::Other { method, params } => CommandView::Other {
                method: method.deep_view(),
                params: params.deep_view(),
            },
        }
    }
}

} // verus!
