//! What each kind of reply yields.
use vstd::prelude::*;

use crate::cdp::browser::{GetVersionReturns, GetVersionReturnsView};
use crate::cdp::css::StyleSheetId;
use crate::cdp::dom::{Node, NodeId, NodeView, PerformSearchReturns, PerformSearchReturnsView};
use crate::cdp::input::{DispatchKeyEventParams, DispatchKeyEventParamsView};
use crate::cdp::page::{
    FrameId, GetFrameTreeReturns, GetFrameTreeReturnsView, GetLayoutMetricsReturns,
    GetLayoutMetricsReturnsView, ScreencastFrame, ScreencastFrameView, ScriptIdentifier,
};
use crate::cdp::runtime::{
    CallFunctionOnReturns, CallFunctionOnReturnsView, ExecutionContextId, PropertyDescriptor,
    PropertyDescriptorView, RemoteObject, RemoteObjectView,
};
use crate::flow::FromReply;
use crate::json::Json;
use crate::layout::BoundingBox;
use crate::number::Num;
use crate::protocol::{
    BoxModelReply, BoxModelReplyView, Measure, Reply, ReplyView, Rescaled, Resolved, ResolvedView,
};

verus! {

impl FromReply for String {
    open spec fn found_in(reply: ReplyView) -> Option<Seq<char>> {
        match reply {
            ReplyView::Text(x) => Some(x),
            _ => None,
        }
    }

    fn from_reply(reply: Reply) -> (contents: Option<String>) {
        match reply {
            Reply::Text(x) => Some(x),
            _ => None,
        }
    }
}

impl FromReply for Option<String> {
    open spec fn found_in(reply: ReplyView) -> Option<Option<Seq<char>>> {
        match reply {
            ReplyView::OptionalText(x) => Some(x),
            _ => None,
        }
    }

    fn from_reply(reply: Reply) -> (contents: Option<Option<String>>) {
        match reply {
            Reply::OptionalText(x) => Some(x),
            _ => None,
        }
    }
}

impl FromReply for Option<FrameId> {
    open spec fn found_in(reply: ReplyView) -> Option<Option<Seq<char>>> {
        match reply {
            ReplyView::Frame(x) => Some(x),
            _ => None,
        }
    }

    fn from_reply(reply: Reply) -> (contents: Option<Option<FrameId>>) {
        match reply {
            Reply::Frame(x) => Some(x),
            _ => None,
        }
    }
}

impl FromReply for Vec<FrameId> {
    open spec fn found_in(reply: ReplyView) -> Option<Seq<Seq<char>>> {
        match reply {
            ReplyView::Frames(x) => Some(x),
            _ => None,
        }
    }

    fn from_reply(reply: Reply) -> (contents: Option<Vec<FrameId>>) {
        match reply {
            Reply::Frames(x) => Some(x),
            _ => None,
        }
    }
}

impl FromReply for Option<ExecutionContextId> {
    open spec fn found_in(reply: ReplyView) -> Option<Option<ExecutionContextId>> {
        match reply {
            ReplyView::Context(x) => Some(x),
            _ => None,
        }
    }

    fn from_reply(reply: Reply) -> (contents: Option<Option<ExecutionContextId>>) {
        match reply {
            Reply::Context(x) => Some(x),
            _ => None,
        }
    }
}

impl FromReply for ScriptIdentifier {
    open spec fn found_in(reply: ReplyView) -> Option<Seq<char>> {
        match reply {
            ReplyView::Script(x) => Some(x),
            _ => None,
        }
    }

    fn from_reply(reply: Reply) -> (contents: Option<ScriptIdentifier>) {
        match reply {
            Reply::Script(x) => Some(x),
            _ => None,
        }
    }
}

impl FromReply for StyleSheetId {
    open spec fn found_in(reply: ReplyView) -> Option<Seq<char>> {
        match reply {
            ReplyView::StyleSheet(x) => Some(x),
            _ => None,
        }
    }

    fn from_reply(reply: Reply) -> (contents: Option<StyleSheetId>) {
        match reply {
            Reply::StyleSheet(x) => Some(x),
            _ => None,
        }
    }
}

impl FromReply for Node {
    open spec fn found_in(reply: ReplyView) -> Option<NodeView> {
        match reply {
            ReplyView::Node(x) => Some(x),
            _ => None,
        }
    }

    fn from_reply(reply: Reply) -> (contents: Option<Node>) {
        match reply {
            Reply::Node(x) => Some(x),
            _ => None,
        }
    }
}

impl FromReply for NodeId {
    open spec fn found_in(reply: ReplyView) -> Option<NodeId> {
        match reply {
            ReplyView::NodeId(x) => Some(x),
            _ => None,
        }
    }

    fn from_reply(reply: Reply) -> (contents: Option<NodeId>) {
        match reply {
            Reply::NodeId(x) => Some(x),
            _ => None,
        }
    }
}

impl FromReply for Vec<NodeId> {
    open spec fn found_in(reply: ReplyView) -> Option<Seq<NodeId>> {
        match reply {
            ReplyView::NodeIds(x) => Some(x),
            _ => None,
        }
    }

    fn from_reply(reply: Reply) -> (contents: Option<Vec<NodeId>>) {
        match reply {
            Reply::NodeIds(x) => Some(x),
            _ => None,
        }
    }
}

impl FromReply for PerformSearchReturns {
    open spec fn found_in(reply: ReplyView) -> Option<PerformSearchReturnsView> {
        match reply {
            ReplyView::Search(x) => Some(x),
            _ => None,
        }
    }

    fn from_reply(reply: Reply) -> (contents: Option<PerformSearchReturns>) {
        match reply {
            Reply::Search(x) => Some(x),
            _ => None,
        }
    }
}

impl FromReply for RemoteObject {
    open spec fn found_in(reply: ReplyView) -> Option<RemoteObjectView> {
        match reply {
            ReplyView::Object(x) => Some(x),
            _ => None,
        }
    }

    fn from_reply(reply: Reply) -> (contents: Option<RemoteObject>) {
        match reply {
            Reply::Object(x) => Some(x),
            _ => None,
        }
    }
}

impl FromReply for CallFunctionOnReturns {
    open spec fn found_in(reply: ReplyView) -> Option<CallFunctionOnReturnsView> {
        match reply {
            ReplyView::Evaluated(x) => Some(x),
            _ => None,
        }
    }

    fn from_reply(reply: Reply) -> (contents: Option<CallFunctionOnReturns>) {
        match reply {
            Reply::Evaluated(x) => Some(x),
            _ => None,
        }
    }
}

impl FromReply for Vec<PropertyDescriptor> {
    open spec fn found_in(reply: ReplyView) -> Option<Seq<PropertyDescriptorView>> {
        match reply {
            ReplyView::Properties(x) => Some(x),
            _ => None,
        }
    }

    fn from_reply(reply: Reply) -> (contents: Option<Vec<PropertyDescriptor>>) {
        match reply {
            Reply::Properties(x) => Some(x),
            _ => None,
        }
    }
}

impl FromReply for GetLayoutMetricsReturns {
    open spec fn found_in(reply: ReplyView) -> Option<GetLayoutMetricsReturnsView> {
        match reply {
            ReplyView::LayoutMetrics(x) => Some(x),
            _ => None,
        }
    }

    fn from_reply(reply: Reply) -> (contents: Option<GetLayoutMetricsReturns>) {
        match reply {
            Reply::LayoutMetrics(x) => Some(x),
            _ => None,
        }
    }
}

impl FromReply for GetFrameTreeReturns {
    open spec fn found_in(reply: ReplyView) -> Option<GetFrameTreeReturnsView> {
        match reply {
            ReplyView::FrameTree(x) => Some(x),
            _ => None,
        }
    }

    fn from_reply(reply: Reply) -> (contents: Option<GetFrameTreeReturns>) {
        match reply {
            Reply::FrameTree(x) => Some(x),
            _ => None,
        }
    }
}

impl FromReply for GetVersionReturns {
    open spec fn found_in(reply: ReplyView) -> Option<GetVersionReturnsView> {
        match reply {
            ReplyView::Version(x) => Some(x),
            _ => None,
        }
    }

    fn from_reply(reply: Reply) -> (contents: Option<GetVersionReturns>) {
        match reply {
            Reply::Version(x) => Some(x),
            _ => None,
        }
    }
}

impl FromReply for BoxModelReply {
    open spec fn found_in(reply: ReplyView) -> Option<BoxModelReplyView> {
        match reply {
            ReplyView::BoxModel(x) => Some(x),
            _ => None,
        }
    }

    fn from_reply(reply: Reply) -> (contents: Option<BoxModelReply>) {
        match reply {
            Reply::BoxModel(x) => Some(x),
            _ => None,
        }
    }
}

impl FromReply for Vec<Vec<Num>> {
    open spec fn found_in(reply: ReplyView) -> Option<Seq<Seq<Num>>> {
        match reply {
            ReplyView::Quads(x) => Some(x),
            _ => None,
        }
    }

    fn from_reply(reply: Reply) -> (contents: Option<Vec<Vec<Num>>>) {
        match reply {
            Reply::Quads(x) => Some(x),
            _ => None,
        }
    }
}

impl FromReply for Vec<Resolved> {
    open spec fn found_in(reply: ReplyView) -> Option<Seq<ResolvedView>> {
        match reply {
            ReplyView::Elements(x) => Some(x),
            _ => None,
        }
    }

    fn from_reply(reply: Reply) -> (contents: Option<Vec<Resolved>>) {
        match reply {
            Reply::Elements(x) => Some(x),
            _ => None,
        }
    }
}

impl FromReply for DispatchKeyEventParams {
    open spec fn found_in(reply: ReplyView) -> Option<DispatchKeyEventParamsView> {
        match reply {
            ReplyView::KeyEvent(x) => Some(x),
            _ => None,
        }
    }

    fn from_reply(reply: Reply) -> (contents: Option<DispatchKeyEventParams>) {
        match reply {
            Reply::KeyEvent(x) => Some(x),
            _ => None,
        }
    }
}

impl FromReply for Vec<DispatchKeyEventParams> {
    open spec fn found_in(reply: ReplyView) -> Option<Seq<DispatchKeyEventParamsView>> {
        match reply {
            ReplyView::KeyEvents(x) => Some(x),
            _ => None,
        }
    }

    fn from_reply(reply: Reply) -> (contents: Option<Vec<DispatchKeyEventParams>>) {
        match reply {
            Reply::KeyEvents(x) => Some(x),
            _ => None,
        }
    }
}

impl FromReply for BoundingBox {
    open spec fn found_in(reply: ReplyView) -> Option<BoundingBox> {
        match reply {
            ReplyView::Bounds(x) => Some(x),
            _ => None,
        }
    }

    fn from_reply(reply: Reply) -> (contents: Option<BoundingBox>) {
        match reply {
            Reply::Bounds(x) => Some(x),
            _ => None,
        }
    }
}

impl FromReply for Vec<Measure> {
    open spec fn found_in(reply: ReplyView) -> Option<Seq<Measure>> {
        match reply {
            ReplyView::Measured(x) => Some(x),
            _ => None,
        }
    }

    fn from_reply(reply: Reply) -> (contents: Option<Vec<Measure>>) {
        match reply {
            Reply::Measured(x) => Some(x),
            _ => None,
        }
    }
}

impl FromReply for Rescaled {
    open spec fn found_in(reply: ReplyView) -> Option<Rescaled> {
        match reply {
            ReplyView::Rescaled(x) => Some(x),
            _ => None,
        }
    }

    fn from_reply(reply: Reply) -> (contents: Option<Rescaled>) {
        match reply {
            Reply::Rescaled(x) => Some(x),
            _ => None,
        }
    }
}

impl FromReply for u128 {
    open spec fn found_in(reply: ReplyView) -> Option<u128> {
        match reply {
            ReplyView::Clock(x) => Some(x),
            _ => None,
        }
    }

    fn from_reply(reply: Reply) -> (contents: Option<u128>) {
        match reply {
            Reply::Clock(x) => Some(x),
            _ => None,
        }
    }
}

impl FromReply for Vec<ScreencastFrame> {
    open spec fn found_in(reply: ReplyView) -> Option<Seq<ScreencastFrameView>> {
        match reply {
            ReplyView::Screencast(x) => Some(x),
            _ => None,
        }
    }

    fn from_reply(reply: Reply) -> (contents: Option<Vec<ScreencastFrame>>) {
        match reply {
            Reply::Screencast(x) => Some(x),
            _ => None,
        }
    }
}

impl FromReply for Json {
    open spec fn found_in(reply: ReplyView) -> Option<Seq<char>> {
        match reply {
            ReplyView::Payload(x) => Some(x),
            _ => None,
        }
    }

    fn from_reply(reply: Reply) -> (contents: Option<Json>) {
        match reply {
            Reply::Payload(x) => Some(x),
            _ => None,
        }
    }
}

} // verus!
