//! The `Page` domain.
use vstd::prelude::*;

use crate::cdp::dom::Rect;
use crate::json::Json;
use crate::number::Num;

verus! {

/// Identifies a frame.
#[derive(Debug, PartialEq, Eq)]
pub struct FrameId(pub String);

impl DeepView for FrameId {
    type V = Seq<char>;

    open spec fn deep_view(&self) -> Seq<char> {
        self.0@
    }
}

impl Clone for FrameId {
    fn clone(&self) -> (copy: FrameId)
        ensures
            copy == *self,
    {
        FrameId(self.0.clone())
    }
}

/// Identifies a script that runs in every new document.
#[derive(Debug, PartialEq, Eq)]
pub struct ScriptIdentifier(pub String);

impl DeepView for ScriptIdentifier {
    type V = Seq<char>;

    open spec fn deep_view(&self) -> Seq<char> {
        self.0@
    }
}

impl Clone for ScriptIdentifier {
    fn clone(&self) -> (copy: ScriptIdentifier)
        ensures
            copy == *self,
    {
        ScriptIdentifier(self.0.clone())
    }
}

/// Parameters of `Page.addScriptToEvaluateOnNewDocument`.
#[derive(Debug, PartialEq, Eq)]
pub struct AddScriptToEvaluateOnNewDocumentParams {
    pub source: String,
    pub world_name: Option<String>,
    pub include_command_line_api: Option<bool>,
}

/// The contents of a [`AddScriptToEvaluateOnNewDocumentParams`].
pub struct AddScriptToEvaluateOnNewDocumentParamsView {
    pub source: Seq<char>,
    pub world_name: Option<Seq<char>>,
    pub include_command_line_api: Option<bool>,
}

impl DeepView for AddScriptToEvaluateOnNewDocumentParams {
    type V = AddScriptToEvaluateOnNewDocumentParamsView;

    open spec fn deep_view(&self) -> AddScriptToEvaluateOnNewDocumentParamsView {
        AddScriptToEvaluateOnNewDocumentParamsView {
            source: self.source.deep_view(),
            world_name: self.world_name.deep_view(),
            include_command_line_api: self.include_command_line_api,
        }
    }
}

/// Parameters of `Page.navigate`.
#[derive(Debug, PartialEq, Eq)]
pub struct NavigateParams {
    pub url: String,
    pub referrer: Option<String>,
    pub transition_type: Option<String>,
    pub frame_id: Option<FrameId>,
    pub referrer_policy: Option<String>,
}

/// The contents of a [`NavigateParams`].
pub struct NavigateParamsView {
    pub url: Seq<char>,
    pub referrer: Option<Seq<char>>,
    pub transition_type: Option<Seq<char>>,
    pub frame_id: Option<Seq<char>>,
    pub referrer_policy: Option<Seq<char>>,
}

impl DeepView for NavigateParams {
    type V = NavigateParamsView;

    open spec fn deep_view(&self) -> NavigateParamsView {
        NavigateParamsView {
            url: self.url.deep_view(),
            referrer: self.referrer.deep_view(),
            transition_type: self.transition_type.deep_view(),
            frame_id: self.frame_id.deep_view(),
            referrer_policy: self.referrer_policy.deep_view(),
        }
    }
}

/// Parameters of `Page.printToPDF`, written as a JSON object.
#[derive(Debug, PartialEq, Eq)]
pub struct PrintToPdfParams {
    pub options: Json,
}

/// The contents of a [`PrintToPdfParams`].
pub struct PrintToPdfParamsView {
    pub options: Seq<char>,
}

impl DeepView for PrintToPdfParams {
    type V = PrintToPdfParamsView;

    open spec fn deep_view(&self) -> PrintToPdfParamsView {
        PrintToPdfParamsView {
            options: self.options.deep_view(),
        }
    }
}

/// The region of a page that a screenshot is clipped to.
#[derive(Clone, Copy, Debug, PartialEq, Eq, Structural)]
pub struct Viewport {
    pub x: Num,
    pub y: Num,
    pub width: Num,
    pub height: Num,
    pub scale: Num,
}

impl DeepView for Viewport {
    type V = Viewport;

    open spec fn deep_view(&self) -> Viewport {
        *self
    }
}

/// Image formats of `Page.captureScreenshot`.
#[derive(Clone, Copy, Debug, PartialEq, Eq, Structural)]
pub enum CaptureScreenshotFormat {
    Jpeg,
    Png,
    Webp,
}

impl DeepView for CaptureScreenshotFormat {
    type V = CaptureScreenshotFormat;

    open spec fn deep_view(&self) -> CaptureScreenshotFormat {
        *self
    }
}

/// Parameters of `Page.captureScreenshot`.
#[derive(Clone, Copy, Debug, PartialEq, Eq, Structural)]
pub struct CaptureScreenshotParams {
    pub format: Option<CaptureScreenshotFormat>,
    pub quality: Option<i64>,
    pub clip: Option<Viewport>,
    pub from_surface: Option<bool>,
    pub capture_beyond_viewport: Option<bool>,
}

impl DeepView for CaptureScreenshotParams {
    type V = CaptureScreenshotParams;

    open spec fn deep_view(&self) -> CaptureScreenshotParams {
        *self
    }
}

/// What `Page.getLayoutMetrics` returns, as far as it is read here.
#[derive(Debug, PartialEq, Eq)]
pub struct GetLayoutMetricsReturns {
    /// Width of the CSS visual viewport.
    pub client_width: Num,
    /// Size of the scrollable area.
    pub css_content_size: Rect,
    /// Width of the scrollable area, cut to a whole number of pixels.
    pub content_width: i64,
    /// Height of the scrollable area, cut to a whole number of pixels.
    pub content_height: i64,
    /// The whole of what was returned.
    pub details: Json,
}

/// The contents of a [`GetLayoutMetricsReturns`].
pub struct GetLayoutMetricsReturnsView {
    pub client_width: Num,
    pub css_content_size: Rect,
    pub content_width: i64,
    pub content_height: i64,
    pub details: Seq<char>,
}

impl DeepView for GetLayoutMetricsReturns {
    type V = GetLayoutMetricsReturnsView;

    open spec fn deep_view(&self) -> GetLayoutMetricsReturnsView {
        GetLayoutMetricsReturnsView {
            client_width: self.client_width,
            css_content_size: self.css_content_size,
            content_width: self.content_width,
            content_height: self.content_height,
            details: self.details.deep_view(),
        }
    }
}

/// What `Page.getFrameTree` returns, as far as it is read here.
#[derive(Debug, PartialEq, Eq)]
pub struct GetFrameTreeReturns {
    /// The frame at the root of the tree.
    pub frame_id: FrameId,
    /// The whole of what was returned.
    pub details: Json,
}

/// The contents of a [`GetFrameTreeReturns`].
pub struct GetFrameTreeReturnsView {
    pub frame_id: Seq<char>,
    pub details: Seq<char>,
}

impl DeepView for GetFrameTreeReturns {
    type V = GetFrameTreeReturnsView;

    open spec fn deep_view(&self) -> GetFrameTreeReturnsView {
        GetFrameTreeReturnsView {
            frame_id: self.frame_id.deep_view(),
            details: self.details.deep_view(),
        }
    }
}

/// One frame of a screencast.
#[derive(Debug, PartialEq, Eq)]
pub struct ScreencastFrame {
    /// The frame as it was sent.
    pub data: Vec<u8>,
    /// The seconds between the frame before and this one, times 25, cut to a whole
    /// number. Not read of the first frame.
    pub copies: i32,
    /// When the frame was taken, in milliseconds since the epoch.
    pub timestamp: u128,
}

/// The contents of a [`ScreencastFrame`].
pub struct ScreencastFrameView {
    pub data: Seq<u8>,
    pub copies: i32,
    pub timestamp: u128,
}

impl DeepView for ScreencastFrame {
    type V = ScreencastFrameView;

    open spec fn deep_view(&self) -> ScreencastFrameView {
        ScreencastFrameView {
            data: self.data.deep_view(),
            copies: self.copies,
            timestamp: self.timestamp,
        }
    }
}

} // verus!
