//! What operations ask for and what they are answered.
use vstd::prelude::*;

use crate::cdp::command::{Command, CommandView};
use crate::cdp::browser::{GetVersionReturns, GetVersionReturnsView};
use crate::cdp::css::StyleSheetId;
use crate::cdp::dom::{Node, NodeId, NodeView, PerformSearchReturns, PerformSearchReturnsView};
use crate::cdp::input::{DispatchKeyEventParams, DispatchKeyEventParamsView};
use crate::cdp::page::{
    FrameId, GetFrameTreeReturns, GetFrameTreeReturnsView, GetLayoutMetricsReturns,
    GetLayoutMetricsReturnsView, ScreencastFrame, ScreencastFrameView, ScriptIdentifier,
};
use crate::cdp::runtime::{
    CallFunctionOnReturns, CallFunctionOnReturnsView, ExecutionContextId, PropertyDescriptor,
    PropertyDescriptorView, RemoteObject, RemoteObjectView,
};
use crate::element::{Element, ElementView};
use crate::error::{CdpError, ErrorView};
use crate::json::Json;
use crate::layout::{BoundingBox, ElementQuad, Point};
use crate::number::Num;

verus! {

/// Which world of a frame a script runs in: that of the page, or one of its own for
/// work on the DOM.
#[derive(Clone, Copy, Debug, PartialEq, Eq, Structural)]
pub enum DomWorldKind {
    Main,
    Secondary,
}

impl DeepView for DomWorldKind {
    type V = DomWorldKind;

    open spec fn deep_view(&self) -> DomWorldKind {
        *self
    }
}

/// What the scale of a screenshot is computed from.
#[derive(Clone, Copy, Debug, PartialEq, Eq, Structural)]
pub struct RescaleQuery {
    /// Width that the image is to have.
    pub width: i64,
    /// Height that the image is to have.
    pub height: i64,
    /// Width of what is shown in the image.
    pub reference_width: Num,
    pub device_scale_factor: Num,
    /// Upper edge of the clip.
    pub y: Num,
    /// Height of the clip.
    pub viewport_height: Num,
}

impl DeepView for RescaleQuery {
    type V = RescaleQuery;

    open spec fn deep_view(&self) -> RescaleQuery {
        *self
    }
}

/// The scale of a screenshot: with the fields of the query,
/// `scale = ((width - reference_width) / reference_width + 1) / device_scale_factor`.
#[derive(Clone, Copy, Debug, PartialEq, Eq, Structural)]
pub struct Rescaled {
    pub scale: Num,
    /// `(height / scale) / device_scale_factor`
    pub height: Num,
    /// The field above, cut to a whole number.
    pub height_pixels: i64,
    /// `y - (height above / 2 - viewport_height / 2)`
    pub y: Num,
}

impl DeepView for Rescaled {
    type V = Rescaled;

    open spec fn deep_view(&self) -> Rescaled {
        *self
    }
}

/// What is measured of a quad.
#[derive(Clone, Copy, Debug, PartialEq, Eq, Structural)]
pub struct Measure {
    /// Whether its area is over 1.
    pub spacious: bool,
    pub center: Point,
}

impl DeepView for Measure {
    type V = Measure;

    open spec fn deep_view(&self) -> Measure {
        *self
    }
}

/// What `DOM.getBoxModel` returns.
#[derive(Debug, PartialEq, Eq)]
pub struct BoxModelReply {
    pub content: Vec<Num>,
    pub padding: Vec<Num>,
    pub border: Vec<Num>,
    pub margin: Vec<Num>,
    pub width: i64,
    pub height: i64,
}

/// The contents of a [`BoxModelReply`].
pub struct BoxModelReplyView {
    pub content: Seq<Num>,
    pub padding: Seq<Num>,
    pub border: Seq<Num>,
    pub margin: Seq<Num>,
    pub width: i64,
    pub height: i64,
}

impl DeepView for BoxModelReply {
    type V = BoxModelReplyView;

    open spec fn deep_view(&self) -> BoxModelReplyView {
        BoxModelReplyView {
            content: self.content.deep_view(),
            padding: self.padding.deep_view(),
            border: self.border.deep_view(),
            margin: self.margin.deep_view(),
            width: self.width,
            height: self.height,
        }
    }
}

/// What became of a node that was to be made an element.
#[derive(Debug)]
pub enum Resolved {
    Element(Element),
    Failed(CdpError),
}

/// The contents of a [`Resolved`].
pub enum ResolvedView {
    Element(ElementView),
    Failed(ErrorView),
}

impl DeepView for Resolved {
    type V = ResolvedView;

    open spec fn deep_view(&self) -> ResolvedView {
        match self {
            Resolved::Element(x) => ResolvedView::Element(x.deep_view()),
            Resolved::Failed(x) => ResolvedView::Failed(x.deep_view()),
        }
    }
}

/// What an operation asks for while it runs.
#[allow(inconsistent_fields)]
#[derive(Debug, PartialEq, Eq)]
pub enum Request {
    /// Send a command to the page and wait for the response.
    Command(Command),
    /// Send commands side by side, at most `at_once` of them at a time, until all are
    /// answered or one fails.
    Batch { commands: Vec<Command>, at_once: Option<usize> },
    /// The URL of a frame, by default that of the main frame.
    Url { frame_id: Option<FrameId> },
    /// The name of a frame.
    Name { frame_id: FrameId },
    /// The parent of a frame.
    Parent { frame_id: FrameId },
    /// The main frame.
    MainFrame,
    /// All frames.
    AllFrames,
    /// The execution context of a world of a frame, by default of the main frame.
    ExecutionContext { frame_id: Option<FrameId>, world: DomWorldKind },
    /// Wait until the navigation that is under way has finished.
    Navigation,
    /// Register a listener for lifecycle events and wait for its first event.
    LifecycleEvent,
    /// Carry out `Element::new` for each node, side by side, and wait for all of them.
    Elements { node_ids: Vec<NodeId> },
    /// Look a key up on the keyboard: the event that presses it.
    KeyEvent { key: String },
    /// Look several keys up that are pressed together: the events that press them.
    KeyEvents { keys: Vec<String> },
    /// The smallest upright rectangle around a quad.
    Bounds { quad: ElementQuad },
    /// Measure quads.
    Measure { quads: Vec<ElementQuad> },
    /// Compute the scale of a screenshot.
    Rescale(RescaleQuery),
    /// Start to collect the frames of a screencast, acknowledging each.
    CollectScreencast,
    /// Let time pass, then read the clock.
    Pause { milliseconds: u64 },
    /// Stop collecting and hand over the frames.
    ScreencastFrames,
    /// Write a file.
    Write { path: String, contents: Vec<u8> },
}

/// The contents of a [`Request`].
#[allow(inconsistent_fields)]
pub enum RequestView {
    Command(CommandView),
    Batch { commands: Seq<CommandView>, at_once: Option<usize> },
    Url { frame_id: Option<Seq<char>> },
    Name { frame_id: Seq<char> },
    Parent { frame_id: Seq<char> },
    MainFrame,
    AllFrames,
    ExecutionContext { frame_id: Option<Seq<char>>, world: DomWorldKind },
    Navigation,
    LifecycleEvent,
    Elements { node_ids: Seq<NodeId> },
    KeyEvent { key: Seq<char> },
    KeyEvents { keys: Seq<Seq<char>> },
    Bounds { quad: ElementQuad },
    Measure { quads: Seq<ElementQuad> },
    Rescale(RescaleQuery),
    CollectScreencast,
    Pause { milliseconds: u64 },
    ScreencastFrames,
    Write { path: Seq<char>, contents: Seq<u8> },
}

impl DeepView for Request {
    type V = RequestView;

    open spec fn deep_view(&self) -> RequestView {
        match self {
            Request::Command(x) => RequestView::Command(x.deep_view()),
            Request::Batch { commands, at_once } => RequestView::Batch {
                commands: commands.deep_view(),
                at_once: *at_once,
            },
            Request::Url { frame_id } => RequestView::Url {
                frame_id: frame_id.deep_view(),
            },
            Request::Name { frame_id } => RequestView::Name {
                frame_id: frame_id.deep_view(),
            },
            Request::Parent { frame_id } => RequestView::Parent {
                frame_id: frame_id.deep_view(),
            },
            Request::MainFrame => RequestView::MainFrame,
            Request::AllFrames => RequestView::AllFrames,
            Request::ExecutionContext { frame_id, world } => RequestView::ExecutionContext {
                frame_id: frame_id.deep_view(),
                world: *world,
            },
            Request::Navigation => RequestView::Navigation,
            Request::LifecycleEvent => RequestView::LifecycleEvent,
            Request::Elements { node_ids } => RequestView::Elements {
                node_ids: node_ids.deep_view(),
            },
            Request::KeyEvent { key } => RequestView::KeyEvent {
                key: key.deep_view(),
            },
            Request::KeyEvents { keys } => RequestView::KeyEvents {
                keys: keys.deep_view(),
            },
            Request::Bounds { quad } => RequestView::Bounds {
                quad: *quad,
            },
            Request::Measure { quads } => RequestView::Measure {
                quads: quads.deep_view(),
            },
            Request::Rescale(x) => RequestView::Rescale(*x),
            Request::CollectScreencast => RequestView::CollectScreencast,
            Request::Pause { milliseconds } => RequestView::Pause {
                milliseconds: *milliseconds,
            },
            Request::ScreencastFrames => RequestView::ScreencastFrames,
            Request::Write { path, contents } => RequestView::Write {
                path: path.deep_view(),
                contents: contents.deep_view(),
            },
        }
    }
}

/// The answer to a request.
#[derive(Debug)]
pub enum Reply {
    /// There is nothing to report.
    Done,
    /// A text: markup, a source, image data.
    Text(String),
    /// A text, if there is one.
    OptionalText(Option<String>),
    /// A frame, if there is one.
    Frame(Option<FrameId>),
    /// Frames.
    Frames(Vec<FrameId>),
    /// An execution context, if there is one.
    Context(Option<ExecutionContextId>),
    /// The script that was added.
    Script(ScriptIdentifier),
    /// The style sheet that was made.
    StyleSheet(StyleSheetId),
    /// A node.
    Node(Node),
    /// The id of a node.
    NodeId(NodeId),
    /// The ids of nodes.
    NodeIds(Vec<NodeId>),
    /// A search has found so many nodes.
    Search(PerformSearchReturns),
    /// An object in the page.
    Object(RemoteObject),
    /// A script was evaluated.
    Evaluated(CallFunctionOnReturns),
    /// The properties of an object.
    Properties(Vec<PropertyDescriptor>),
    /// Metrics of the layout.
    LayoutMetrics(GetLayoutMetricsReturns),
    /// The tree of frames.
    FrameTree(GetFrameTreeReturns),
    /// The version of the browser.
    Version(GetVersionReturns),
    /// The boxes of an element.
    BoxModel(BoxModelReply),
    /// The quads of the content of an element.
    Quads(Vec<Vec<Num>>),
    /// What became of each node, in the order of the request.
    Elements(Vec<Resolved>),
    /// The event that presses a key.
    KeyEvent(DispatchKeyEventParams),
    /// The events that press keys together.
    KeyEvents(Vec<DispatchKeyEventParams>),
    /// A rectangle.
    Bounds(BoundingBox),
    /// What was measured, in the order of the request.
    Measured(Vec<Measure>),
    /// The scale of a screenshot.
    Rescaled(Rescaled),
    /// The time, in milliseconds since the epoch.
    Clock(u128),
    /// The frames of a screencast, in the order in which they came.
    Screencast(Vec<ScreencastFrame>),
    /// Something that is passed on unread.
    Payload(Json),
}

/// The contents of a [`Reply`].
pub enum ReplyView {
    Done,
    Text(Seq<char>),
    OptionalText(Option<Seq<char>>),
    Frame(Option<Seq<char>>),
    Frames(Seq<Seq<char>>),
    Context(Option<ExecutionContextId>),
    Script(Seq<char>),
    StyleSheet(Seq<char>),
    Node(NodeView),
    NodeId(NodeId),
    NodeIds(Seq<NodeId>),
    Search(PerformSearchReturnsView),
    Object(RemoteObjectView),
    Evaluated(CallFunctionOnReturnsView),
    Properties(Seq<PropertyDescriptorView>),
    LayoutMetrics(GetLayoutMetricsReturnsView),
    FrameTree(GetFrameTreeReturnsView),
    Version(GetVersionReturnsView),
    BoxModel(BoxModelReplyView),
    Quads(Seq<Seq<Num>>),
    Elements(Seq<ResolvedView>),
    KeyEvent(DispatchKeyEventParamsView),
    KeyEvents(Seq<DispatchKeyEventParamsView>),
    Bounds(BoundingBox),
    Measured(Seq<Measure>),
    Rescaled(Rescaled),
    Clock(u128),
    Screencast(Seq<ScreencastFrameView>),
    Payload(Seq<char>),
}

impl DeepView for Reply {
    type V = ReplyView;

    open spec fn deep_view(&self) -> ReplyView {
        match self {
            Reply::Done => ReplyView::Done,
            Reply::Text(x) => ReplyView::Text(x.deep_view()),
            Reply::OptionalText(x) => ReplyView::OptionalText(x.deep_view()),
            Reply::Frame(x) => ReplyView::Frame(x.deep_view()),
            Reply::Frames(x) => ReplyView::Frames(x.deep_view()),
            Reply::Context(x) => ReplyView::Context(*x),
            Reply::Script(x) => ReplyView::Script(x.deep_view()),
            Reply::StyleSheet(x) => ReplyView::StyleSheet(x.deep_view()),
            Reply::Node(x) => ReplyView::Node(x.deep_view()),
            Reply::NodeId(x) => ReplyView::NodeId(*x),
            Reply::NodeIds(x) => ReplyView::NodeIds(x.deep_view()),
            Reply::Search(x) => ReplyView::Search(x.deep_view()),
            Reply::Object(x) => ReplyView::Object(x.deep_view()),
            Reply::Evaluated(x) => ReplyView::Evaluated(x.deep_view()),
            Reply::Properties(x) => ReplyView::Properties(x.deep_view()),
            Reply::LayoutMetrics(x) => ReplyView::LayoutMetrics(x.deep_view()),
            Reply::FrameTree(x) => ReplyView::FrameTree(x.deep_view()),
            Reply::Version(x) => ReplyView::Version(x.deep_view()),
            Reply::BoxModel(x) => ReplyView::BoxModel(x.deep_view()),
            Reply::Quads(x) => ReplyView::Quads(x.deep_view()),
            Reply::Elements(x) => ReplyView::Elements(x.deep_view()),
            Reply::KeyEvent(x) => ReplyView::KeyEvent(x.deep_view()),
            Reply::KeyEvents(x) => ReplyView::KeyEvents(x.deep_view()),
            Reply::Bounds(x) => ReplyView::Bounds(*x),
            Reply::Measured(x) => ReplyView::Measured(x.deep_view()),
            Reply::Rescaled(x) => ReplyView::Rescaled(*x),
            Reply::Clock(x) => ReplyView::Clock(*x),
            Reply::Screencast(x) => ReplyView::Screencast(x.deep_view()),
            Reply::Payload(x) => ReplyView::Payload(x.deep_view()),
        }
    }
}

} // verus!
