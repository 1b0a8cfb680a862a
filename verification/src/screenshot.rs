//! Screenshots.
use vstd::prelude::*;

use crate::cdp::command::{Command, CommandView};
use crate::cdp::dom::{BackendNodeId, Rgba};
use crate::cdp::emulation::SetDeviceMetricsOverrideParams;
use crate::cdp::page;
use crate::cdp::page::{
    CaptureScreenshotFormat, CaptureScreenshotParams, GetLayoutMetricsReturns,
    GetLayoutMetricsReturnsView,
};
use crate::element::{bounding_box_op, box_model_op, boxes_of, Element, FetchBounds};
use crate::flow::{
    ask, asking, bind, chain, done, execute, executing, follows, same_is_equal, second, Await,
    Chain, Ended, Next, Prog, Start, Step,
};
use crate::handler::page::{
    activate_op, capture, capture_op, decoded, layout_metrics_op, Decode, PageInner,
};
use crate::handler::viewport::Viewport;
use crate::laws::{bind_leaves, bind_only_asks, leaves, only_asks, scrolls};
use crate::layout::{BoundingBox, BoxModel};
use crate::number::Num;
use crate::outside::base64_decoded;
use crate::protocol::{
    BoxModelReply, BoxModelReplyView, Request, RequestView, RescaleQuery, Rescaled,
};
use crate::sequence::{in_sequence, sequence, sequence_only_asks, Sequence};

verus! {

/// How a screenshot is taken.
#[derive(Clone, Copy, Debug, PartialEq, Eq)]
pub struct ScreenshotParams {
    /// What the page is told. A clip is the region of the page that is taken.
    pub capture_screenshot_params: CaptureScreenshotParams,
    /// The screen that the page is shown on.
    pub viewport: Option<Viewport>,
    /// Take all of the page, not only what the screen shows. Beside a clip, the device shows
    /// all of the page, and the clip is what is taken of it.
    pub full_page: Option<bool>,
    /// Make the background transparent (png only).
    pub omit_background: Option<bool>,
    /// Width and height of the image. A height of 0 leaves the height as it is.
    pub screenshot_dimensions: Option<(i64, i64)>,
}

/// How a screenshot is taken, while it is put together.
#[derive(Clone, Copy, Debug, PartialEq, Eq)]
pub struct ScreenshotParamsBuilder {
    pub capture_screenshot_params: CaptureScreenshotParams,
    pub viewport: Option<Viewport>,
    pub full_page: Option<bool>,
    pub omit_background: Option<bool>,
    pub screenshot_dimensions: Option<(i64, i64)>,
}

impl CaptureScreenshotParams {
    /// Nothing is set.
    pub open spec fn unset() -> CaptureScreenshotParams {
        CaptureScreenshotParams {
            format: None,
            quality: None,
            clip: None,
            from_surface: None,
            capture_beyond_viewport: None,
        }
    }
}

impl Default for CaptureScreenshotParams {
    fn default() -> (params: CaptureScreenshotParams)
        ensures
            params == CaptureScreenshotParams::unset(),
    {
        CaptureScreenshotParams {
            format: None,
            quality: None,
            clip: None,
            from_surface: None,
            capture_beyond_viewport: None,
        }
    }
}

impl ScreenshotParams {
    /// Nothing is set but what the page is told.
    pub open spec fn of(capture_screenshot_params: CaptureScreenshotParams) -> ScreenshotParams {
        ScreenshotParams {
            capture_screenshot_params,
            viewport: None,
            full_page: None,
            omit_background: None,
            screenshot_dimensions: None,
        }
    }

    /// The screen that the page is shown on.
    pub open spec fn screen(self) -> Viewport {
        match self.viewport {
            Some(viewport) => viewport,
            None => Viewport::standard(),
        }
    }

    /// The region of the page that is asked for: the clip, or what the screen shows.
    pub open spec fn asked_region(self) -> page::Viewport {
        match self.capture_screenshot_params.clip {
            Some(clip) => clip,
            None => self.screen().region(),
        }
    }

    /// The width that the width of the image is scaled from: that of the clip, or of what
    /// the page shows.
    pub open spec fn reference_width(self, client_width: Num) -> Num {
        match self.capture_screenshot_params.clip {
            Some(clip) => clip.width,
            None => client_width,
        }
    }

    /// Whether all of the page is asked for.
    pub open spec fn takes_full_page(self) -> bool {
        self.full_page == Some(true)
    }

    /// Whether the background is made transparent: where it is asked for and the image is
    /// a png, as it is where no format is set.
    pub open spec fn omits_background(self) -> bool {
        &&& self.omit_background == Some(true)
        &&& match self.capture_screenshot_params.format {
            Some(format) => format == CaptureScreenshotFormat::Png,
            None => true,
        }
    }

    /// Whether the image is to have a given height.
    pub open spec fn fixes_height(self) -> bool {
        match self.screenshot_dimensions {
            Some((_, height)) => height != 0,
            None => false,
        }
    }

    /// Starts to put parameters together.
    pub fn builder() -> (builder: ScreenshotParamsBuilder)
        ensures
            builder.built() == ScreenshotParams::of(CaptureScreenshotParams::unset()),
    {
        ScreenshotParamsBuilder::default()
    }

    /// The region of the page that the screen shows.
    pub fn viewport(&self) -> (region: page::Viewport)
        ensures
            region == self.screen().region(),
    {
        match self.viewport {
            Some(viewport) => page::Viewport::from(viewport),
            None => page::Viewport::from(Viewport::default()),
        }
    }

    /// The device that shows the screen.
    pub fn device_metrics(&self) -> (device: SetDeviceMetricsOverrideParams)
        ensures
            device == self.screen().device(),
    {
        match self.viewport {
            Some(viewport) => SetDeviceMetricsOverrideParams::from(viewport),
            None => SetDeviceMetricsOverrideParams::from(Viewport::default()),
        }
    }

    /// Whether all of the page is asked for.
    pub fn full_page(&self) -> (b: bool)
        ensures
            b == self.takes_full_page(),
    {
        match self.full_page {
            Some(b) => b,
            None => false,
        }
    }

    /// Whether the background is made transparent.
    pub fn omit_background(&self) -> (b: bool)
        ensures
            b == self.omits_background(),
    {
        let asked = match self.omit_background {
            Some(b) => b,
            None => false,
        };
        let png = match self.capture_screenshot_params.format {
            Some(format) => format == CaptureScreenshotFormat::Png,
            None => true,
        };
        asked && png
    }

    /// Width and height of the image, where they are set.
    pub fn screenshot_dimensions(&self) -> (dimensions: Option<(i64, i64)>)
        ensures
            dimensions == self.screenshot_dimensions,
    {
        self.screenshot_dimensions
    }
}

impl Default for ScreenshotParams {
    fn default() -> (params: ScreenshotParams)
        ensures
            params == ScreenshotParams::of(CaptureScreenshotParams::unset()),
    {
        ScreenshotParams {
            capture_screenshot_params: CaptureScreenshotParams::default(),
            viewport: None,
            full_page: None,
            omit_background: None,
            screenshot_dimensions: None,
        }
    }
}

impl Default for ScreenshotParamsBuilder {
    fn default() -> (builder: ScreenshotParamsBuilder)
        ensures
            builder.built() == ScreenshotParams::of(CaptureScreenshotParams::unset()),
    {
        ScreenshotParamsBuilder {
            capture_screenshot_params: CaptureScreenshotParams::default(),
            viewport: None,
            full_page: None,
            omit_background: None,
            screenshot_dimensions: None,
        }
    }
}

impl From<CaptureScreenshotParams> for ScreenshotParams {
    fn from(capture_screenshot_params: CaptureScreenshotParams) -> (params: ScreenshotParams) {
        ScreenshotParams {
            capture_screenshot_params,
            viewport: None,
            full_page: None,
            omit_background: None,
            screenshot_dimensions: None,
        }
    }
}

impl vstd::std_specs::convert::FromSpecImpl<CaptureScreenshotParams> for ScreenshotParams {
    open spec fn obeys_from_spec() -> bool {
        true
    }

    open spec fn from_spec(capture_screenshot_params: CaptureScreenshotParams) -> ScreenshotParams {
        ScreenshotParams::of(capture_screenshot_params)
    }
}

impl ScreenshotParamsBuilder {
    /// The parameters as they are put together so far.
    pub open spec fn built(self) -> ScreenshotParams {
        ScreenshotParams {
            capture_screenshot_params: self.capture_screenshot_params,
            viewport: self.viewport,
            full_page: self.full_page,
            omit_background: self.omit_background,
            screenshot_dimensions: self.screenshot_dimensions,
        }
    }

    /// Sets the format of the image (png where it is not set).
    pub fn format(self, format: CaptureScreenshotFormat) -> (builder: ScreenshotParamsBuilder)
        ensures
            builder == (ScreenshotParamsBuilder {
                capture_screenshot_params: CaptureScreenshotParams {
                    format: Some(format),
                    ..self.capture_screenshot_params
                },
                ..self
            }),
    {
        let mut builder = self;
        builder.capture_screenshot_params.format = Some(format);
        builder
    }

    /// Sets the quality, from 0 to 100 (jpeg only).
    pub fn quality(self, quality: i64) -> (builder: ScreenshotParamsBuilder)
        ensures
            builder == (ScreenshotParamsBuilder {
                capture_screenshot_params: CaptureScreenshotParams {
                    quality: Some(quality),
                    ..self.capture_screenshot_params
                },
                ..self
            }),
    {
        let mut builder = self;
        builder.capture_screenshot_params.quality = Some(quality);
        builder
    }

    /// Sets the region of the page that is taken, also where all of the page is shown.
    pub fn clip(self, clip: page::Viewport) -> (builder: ScreenshotParamsBuilder)
        ensures
            builder == (ScreenshotParamsBuilder {
                capture_screenshot_params: CaptureScreenshotParams {
                    clip: Some(clip),
                    ..self.capture_screenshot_params
                },
                ..self
            }),
    {
        let mut builder = self;
        builder.capture_screenshot_params.clip = Some(clip);
        builder
    }

    /// Takes the screenshot from the surface, rather than from the view.
    pub fn from_surface(self, from_surface: bool) -> (builder: ScreenshotParamsBuilder)
        ensures
            builder == (ScreenshotParamsBuilder {
                capture_screenshot_params: CaptureScreenshotParams {
                    from_surface: Some(from_surface),
                    ..self.capture_screenshot_params
                },
                ..self
            }),
    {
        let mut builder = self;
        builder.capture_screenshot_params.from_surface = Some(from_surface);
        builder
    }

    /// Takes the screenshot beyond what the screen shows.
    pub fn capture_beyond_viewport(self, capture_beyond_viewport: bool) -> (builder:
        ScreenshotParamsBuilder)
        ensures
            builder == (ScreenshotParamsBuilder {
                capture_screenshot_params: CaptureScreenshotParams {
                    capture_beyond_viewport: Some(capture_beyond_viewport),
                    ..self.capture_screenshot_params
                },
                ..self
            }),
    {
        let mut builder = self;
        builder.capture_screenshot_params.capture_beyond_viewport = Some(capture_beyond_viewport);
        builder
    }

    /// Sets the screen that the page is shown on, and goes back to after the screenshot.
    pub fn viewport(self, viewport: Viewport) -> (builder: ScreenshotParamsBuilder)
        ensures
            builder == (ScreenshotParamsBuilder { viewport: Some(viewport), ..self }),
    {
        let mut builder = self;
        builder.viewport = Some(viewport);
        builder
    }

    /// Takes all of the page, or shows all of it where a region is set.
    pub fn full_page(self, full_page: bool) -> (builder: ScreenshotParamsBuilder)
        ensures
            builder == (ScreenshotParamsBuilder { full_page: Some(full_page), ..self }),
    {
        let mut builder = self;
        builder.full_page = Some(full_page);
        builder
    }

    /// Makes the background transparent (png only).
    pub fn omit_background(self, omit_background: bool) -> (builder: ScreenshotParamsBuilder)
        ensures
            builder == (ScreenshotParamsBuilder {
                omit_background: Some(omit_background),
                ..self
            }),
    {
        let mut builder = self;
        builder.omit_background = Some(omit_background);
        builder
    }

    /// Sets width and height of the image.
    pub fn screenshot_dimensions(self, screenshot_dimensions: (i64, i64)) -> (builder:
        ScreenshotParamsBuilder)
        ensures
            builder == (ScreenshotParamsBuilder {
                screenshot_dimensions: Some(screenshot_dimensions),
                ..self
            }),
    {
        let mut builder = self;
        builder.screenshot_dimensions = Some(screenshot_dimensions);
        builder
    }

    /// The parameters as they are put together.
    pub fn build(self) -> (params: ScreenshotParams)
        ensures
            params == self.built(),
    {
        ScreenshotParams {
            capture_screenshot_params: self.capture_screenshot_params,
            viewport: self.viewport,
            full_page: self.full_page,
            omit_background: self.omit_background,
            screenshot_dimensions: self.screenshot_dimensions,
        }
    }
}

// How a screenshot is taken.

/// The request that overrides the background colour.
pub open spec fn background_request(color: Option<Rgba>) -> RequestView {
    RequestView::Command(CommandView::SetDefaultBackgroundColorOverride { color })
}

/// The request that overrides the metrics of the device.
pub open spec fn metrics_request(device: SetDeviceMetricsOverrideParams) -> RequestView {
    RequestView::Command(CommandView::SetDeviceMetricsOverride(device))
}

/// The colour that can be seen through.
pub open spec fn transparent() -> Rgba {
    Rgba { r: 0, g: 0, b: 0, a: Some(Num::Whole(0)) }
}

/// What is set before a screenshot: the background, where it is left out, then the
/// device.
pub open spec fn preparation(
    omit_background: bool,
    device: SetDeviceMetricsOverrideParams,
) -> Seq<RequestView> {
    if omit_background {
        seq![background_request(Some(transparent())), metrics_request(device)]
    } else {
        seq![metrics_request(device)]
    }
}

/// What is set back after a screenshot: the background, where it was left out, and the
/// device, where there is one to go back to.
pub open spec fn restoration(
    omit_background: bool,
    device: Option<SetDeviceMetricsOverrideParams>,
) -> Seq<RequestView> {
    match (omit_background, device) {
        (true, Some(device)) => seq![background_request(None), metrics_request(device)],
        (true, None) => seq![background_request(None)],
        (false, Some(device)) => seq![metrics_request(device)],
        (false, None) => seq![],
    }
}

/// A screenshot whose region and device are known.
#[derive(Clone, Copy, Debug, PartialEq, Eq, Structural)]
pub struct Shot {
    /// What the page is told.
    pub capture: CaptureScreenshotParams,
    /// The device that it is taken on.
    pub device: SetDeviceMetricsOverrideParams,
    /// Whether the background is left out.
    pub omit_background: bool,
    /// The device to go back to.
    pub restore: Option<SetDeviceMetricsOverrideParams>,
}

/// Takes a screenshot: sets the page up, captures the image, sets the page back and
/// yields the image.
pub open spec fn take_op(shot: Shot) -> Prog<Seq<u8>> {
    bind(
        sequence(preparation(shot.omit_background, shot.device)),
        |u: ()|
            bind(
                capture_op(shot.capture),
                |image: Seq<u8>| restore_op(image, shot),
            ),
    )
}

/// Sets the page back and yields the image.
pub open spec fn restore_op(image: Seq<u8>, shot: Shot) -> Prog<Seq<u8>> {
    bind(sequence(restoration(shot.omit_background, shot.restore)), |u: ()| done(image))
}

/// What a scale is computed from.
pub open spec fn rescale_query(
    dimensions: (i64, i64),
    reference_width: Num,
    device: SetDeviceMetricsOverrideParams,
    region: page::Viewport,
) -> RescaleQuery {
    RescaleQuery {
        width: dimensions.0,
        height: dimensions.1,
        reference_width,
        device_scale_factor: device.device_scale_factor,
        y: region.y,
        viewport_height: region.height,
    }
}

/// The screenshot of a page, once the layout and, where the image is to have given
/// dimensions, the scale are known.
///
/// What is taken is the clip, where one is given; else all of the page, where that is asked
/// for; else what the screen shows. The clip wins over the full page: the device then still
/// shows all of the page, and is set back. Where the image is to have given dimensions, the
/// clip is scaled to them, as what the screen shows is.
pub open spec fn page_shot(
    params: ScreenshotParams,
    metrics: GetLayoutMetricsReturnsView,
    scale: Option<Rescaled>,
) -> Shot {
    let region = params.asked_region();
    let device = params.screen().device();
    let fixed_height = scale is Some && params.fixes_height();
    let scaled_region = match scale {
        Some(r) => page::Viewport {
            scale: r.scale,
            height: if fixed_height {
                r.height
            } else {
                region.height
            },
            ..region
        },
        None => region,
    };
    let scaled_device = SetDeviceMetricsOverrideParams {
        height: if fixed_height {
            scale->0.height_pixels
        } else {
            device.height
        },
        ..device
    };
    Shot {
        capture: CaptureScreenshotParams {
            clip: Some(
                if params.takes_full_page() && params.capture_screenshot_params.clip is None {
                    page::Viewport {
                        width: metrics.css_content_size.width,
                        height: metrics.css_content_size.height,
                        ..scaled_region
                    }
                } else {
                    scaled_region
                },
            ),
            ..params.capture_screenshot_params
        },
        device: if params.takes_full_page() {
            SetDeviceMetricsOverrideParams {
                width: metrics.content_width,
                height: metrics.content_height,
                ..scaled_device
            }
        } else {
            scaled_device
        },
        omit_background: params.omits_background(),
        restore: if params.takes_full_page() {
            Some(device)
        } else {
            None
        },
    }
}

/// Takes a screenshot of a page, once its layout is known.
pub open spec fn page_shot_op(
    params: ScreenshotParams,
    metrics: GetLayoutMetricsReturnsView,
) -> Prog<Seq<u8>> {
    match params.screenshot_dimensions {
        Some(dimensions) => bind(
            ask::<Rescaled>(
                RequestView::Rescale(
                    rescale_query(
                        dimensions,
                        params.reference_width(metrics.client_width),
                        params.screen().device(),
                        params.asked_region(),
                    ),
                ),
            ),
            |scale: Rescaled| take_op(page_shot(params, metrics, Some(scale))),
        ),
        None => take_op(page_shot(params, metrics, None)),
    }
}

/// Takes a screenshot of a page, which is activated first.
pub open spec fn page_screenshot_op(target_id: Seq<char>, params: ScreenshotParams) -> Prog<
    Seq<u8>,
> {
    bind(
        activate_op(target_id),
        |u: ()|
            bind(
                layout_metrics_op(),
                |metrics: GetLayoutMetricsReturnsView| page_shot_op(params, metrics),
            ),
    )
}

/// The region of the page that a bounding box covers.
pub open spec fn region_of(bounds: BoundingBox) -> page::Viewport {
    page::Viewport {
        x: bounds.x,
        y: bounds.y,
        width: bounds.width,
        height: bounds.height,
        scale: Num::Whole(1),
    }
}

/// The screenshot of an element, once its bounds, the layout and, where the image is to
/// have given dimensions, the scale are known. The device shows all of the page.
pub open spec fn element_shot(
    params: ScreenshotParams,
    bounds: BoundingBox,
    metrics: GetLayoutMetricsReturnsView,
    scale: Option<Rescaled>,
) -> Shot {
    let region = region_of(bounds);
    let device = params.screen().device();
    let fixed_height = scale is Some && params.fixes_height();
    Shot {
        capture: CaptureScreenshotParams {
            clip: Some(
                match scale {
                    Some(r) => if fixed_height {
                        page::Viewport { scale: r.scale, y: r.y, height: r.height, ..region }
                    } else {
                        page::Viewport { scale: r.scale, ..region }
                    },
                    None => region,
                },
            ),
            ..params.capture_screenshot_params
        },
        device: SetDeviceMetricsOverrideParams {
            width: metrics.content_width,
            height: metrics.content_height,
            ..device
        },
        omit_background: params.omits_background(),
        restore: Some(device),
    }
}

/// Takes a screenshot of an element, once its bounds and the layout are known.
pub open spec fn element_shot_op(
    params: ScreenshotParams,
    bounds: BoundingBox,
    metrics: GetLayoutMetricsReturnsView,
) -> Prog<Seq<u8>> {
    match params.screenshot_dimensions {
        Some(dimensions) => bind(
            ask::<Rescaled>(
                RequestView::Rescale(
                    rescale_query(
                        dimensions,
                        bounds.width,
                        params.screen().device(),
                        region_of(bounds),
                    ),
                ),
            ),
            |scale: Rescaled| take_op(element_shot(params, bounds, metrics, Some(scale))),
        ),
        None => take_op(element_shot(params, bounds, metrics, None)),
    }
}

/// Takes a screenshot of an element.
pub open spec fn element_screenshot_op(
    backend_node_id: BackendNodeId,
    params: ScreenshotParams,
) -> Prog<Seq<u8>> {
    bind(
        bounding_box_op(backend_node_id),
        |bounds: BoundingBox|
            bind(
                layout_metrics_op(),
                |metrics: GetLayoutMetricsReturnsView| element_shot_op(params, bounds, metrics),
            ),
    )
}

/// Writes what an operation yields to a file, then yields it.
pub open spec fn save_op(path: Seq<char>, contents: Seq<u8>) -> Prog<Seq<u8>> {
    bind(ask::<()>(RequestView::Write { path, contents }), |u: ()| done(contents))
}

// What is left of it while it waits.

/// Yields data that is at hand.
pub struct Give {
    pub contents: Vec<u8>,
}

impl Next for Give {
    type Input = ();

    type Rest = Ended<Vec<u8>>;

    open spec fn next(self, u: ()) -> Prog<Seq<u8>> {
        done(self.contents.deep_view())
    }
}

impl Start for Give {
    fn start(self, u: ()) -> (step: Step<Ended<Vec<u8>>, Vec<u8>>) {
        Step::Done(Ok(self.contents))
    }
}

/// Sets the page back after a screenshot.
pub struct Restore {
    pub shot: Shot,
}

impl Next for Restore {
    type Input = Vec<u8>;

    type Rest = Chain<Sequence, Give>;

    open spec fn next(self, image: Seq<u8>) -> Prog<Seq<u8>> {
        restore_op(image, self.shot)
    }
}

/// The command that overrides the background colour.
fn set_background(color: Option<Rgba>) -> (request: Request)
    ensures
        request.deep_view() == background_request(color),
{
    Request::Command(Command::SetDefaultBackgroundColorOverride { color })
}

/// The command that overrides the metrics of the device.
fn set_metrics(device: SetDeviceMetricsOverrideParams) -> (request: Request)
    ensures
        request.deep_view() == metrics_request(device),
{
    Request::Command(Command::SetDeviceMetricsOverride(device))
}

impl Start for Restore {
    fn start(self, image: Vec<u8>) -> (step: Step<Chain<Sequence, Give>, Vec<u8>>) {
        broadcast use same_is_equal;

        let mut requests: Vec<Request> = Vec::new();
        if self.shot.omit_background {
            requests.push(set_background(None));
        }
        if let Some(device) = self.shot.restore {
            requests.push(set_metrics(device));
        }
        assert(requests.deep_view() =~= restoration(self.shot.omit_background, self.shot.restore));
        chain(in_sequence(requests), Give { contents: image })
    }
}

/// Captures the image.
pub struct Capture {
    pub shot: Shot,
}

impl Next for Capture {
    type Input = ();

    type Rest = Chain<Chain<Await<String>, Decode>, Restore>;

    open spec fn next(self, u: ()) -> Prog<Seq<u8>> {
        bind(capture_op(self.shot.capture), |image: Seq<u8>| restore_op(image, self.shot))
    }
}

impl Start for Capture {
    fn start(self, u: ()) -> (step: Step<Chain<Chain<Await<String>, Decode>, Restore>, Vec<u8>>) {
        broadcast use same_is_equal;

        chain(capture(self.shot.capture), Restore { shot: self.shot })
    }
}

/// A screenshot that is taken.
pub type TakeShot = Chain<Sequence, Capture>;

/// Takes a screenshot.
pub fn take(shot: Shot) -> (step: Step<TakeShot, Vec<u8>>)
    ensures
        follows(step, take_op(shot)),
{
    broadcast use same_is_equal;

    let mut requests: Vec<Request> = Vec::new();
    if shot.omit_background {
        let color = Rgba { r: 0, g: 0, b: 0, a: Some(Num::Whole(0)) };
        requests.push(set_background(Some(color)));
    }
    requests.push(set_metrics(shot.device));
    assert(requests.deep_view() =~= preparation(shot.omit_background, shot.device));
    chain(in_sequence(requests), Capture { shot })
}

/// The screenshot of a page, once the scale is known.
pub struct ResizePage {
    pub params: ScreenshotParams,
    pub metrics: GetLayoutMetricsReturns,
}

impl Next for ResizePage {
    type Input = Rescaled;

    type Rest = TakeShot;

    open spec fn next(self, scale: Rescaled) -> Prog<Seq<u8>> {
        take_op(page_shot(self.params, self.metrics.deep_view(), Some(scale)))
    }
}

impl Start for ResizePage {
    fn start(self, scale: Rescaled) -> (step: Step<TakeShot, Vec<u8>>) {
        take(shoot_page(self.params, &self.metrics, Some(scale)))
    }
}

/// The screenshot of a page, with the region and the device that it is taken on.
pub fn shoot_page(
    params: ScreenshotParams,
    metrics: &GetLayoutMetricsReturns,
    scale: Option<Rescaled>,
) -> (shot: Shot)
    ensures
        shot == page_shot(params, metrics.deep_view(), scale),
{
    let clipped = params.capture_screenshot_params.clip.is_some();
    let mut region = match params.capture_screenshot_params.clip {
        Some(clip) => clip,
        None => params.viewport(),
    };
    let mut device = params.device_metrics();
    if let Some(scale) = scale {
        region.scale = scale.scale;
        if let Some((_, height)) = params.screenshot_dimensions() {
            if height != 0 {
                region.height = scale.height;
                device.height = scale.height_pixels;
            }
        }
    }
    let full_page = params.full_page();
    if full_page && !clipped {
        region.width = metrics.css_content_size.width;
        region.height = metrics.css_content_size.height;
    }
    if full_page {
        device.width = metrics.content_width;
        device.height = metrics.content_height;
    }
    let mut capture = params.capture_screenshot_params;
    capture.clip = Some(region);
    let restore = if full_page {
        Some(params.device_metrics())
    } else {
        None
    };
    Shot { capture, device, omit_background: params.omit_background(), restore }
}

/// A screenshot that is taken once the scale is known.
pub type ScalePage = Chain<Await<Rescaled>, ResizePage>;

/// The screenshot of a page, once the layout is known.
pub struct LayOutPage {
    pub params: ScreenshotParams,
}

impl Next for LayOutPage {
    type Input = GetLayoutMetricsReturns;

    type Rest = ScalePage;

    open spec fn next(self, metrics: GetLayoutMetricsReturnsView) -> Prog<Seq<u8>> {
        page_shot_op(self.params, metrics)
    }
}

/// Asks for the scale of a screenshot.
fn rescale(
    dimensions: (i64, i64),
    reference_width: Num,
    device: SetDeviceMetricsOverrideParams,
    region: page::Viewport,
) -> (step: Step<Await<Rescaled>, Rescaled>)
    ensures
        follows(
            step,
            ask::<Rescaled>(
                RequestView::Rescale(rescale_query(dimensions, reference_width, device, region)),
            ),
        ),
{
    let query = RescaleQuery {
        width: dimensions.0,
        height: dimensions.1,
        reference_width,
        device_scale_factor: device.device_scale_factor,
        y: region.y,
        viewport_height: region.height,
    };
    asking(Request::Rescale(query))
}

impl Start for LayOutPage {
    fn start(self, metrics: GetLayoutMetricsReturns) -> (step: Step<ScalePage, Vec<u8>>) {
        broadcast use same_is_equal;

        let params = self.params;
        match params.screenshot_dimensions() {
            Some(dimensions) => {
                let (reference_width, region) = match params.capture_screenshot_params.clip {
                    Some(clip) => (clip.width, clip),
                    None => (metrics.client_width, params.viewport()),
                };
                let step = rescale(
                    dimensions,
                    reference_width,
                    params.device_metrics(),
                    region,
                );
                chain(step, ResizePage { params, metrics })
            },
            None => second(take(shoot_page(params, &metrics, None))),
        }
    }
}

/// A screenshot that is taken once the layout is known.
pub type PageLayout = Chain<Await<GetLayoutMetricsReturns>, LayOutPage>;

/// The screenshot of a page, once the page is activated.
pub struct ActivatedPage {
    pub params: ScreenshotParams,
}

impl Next for ActivatedPage {
    type Input = ();

    type Rest = PageLayout;

    open spec fn next(self, u: ()) -> Prog<Seq<u8>> {
        bind(
            layout_metrics_op(),
            |metrics: GetLayoutMetricsReturnsView| page_shot_op(self.params, metrics),
        )
    }
}

impl Start for ActivatedPage {
    fn start(self, u: ()) -> (step: Step<PageLayout, Vec<u8>>) {
        broadcast use same_is_equal;

        chain(
            executing::<GetLayoutMetricsReturns>(Command::GetLayoutMetrics),
            LayOutPage { params: self.params },
        )
    }
}

/// A screenshot of a page.
pub type ShootPage = Chain<Await<()>, ActivatedPage>;

/// Takes a screenshot of a page.
pub fn page_screenshot(inner: &PageInner, params: ScreenshotParams) -> (step: Step<
    ShootPage,
    Vec<u8>,
>)
    ensures
        follows(step, page_screenshot_op(inner.target_id.deep_view(), params)),
{
    broadcast use same_is_equal;

    chain(inner.activate(), ActivatedPage { params })
}

/// The screenshot of an element, once the scale is known.
pub struct ResizeElement {
    pub params: ScreenshotParams,
    pub bounds: BoundingBox,
    pub metrics: GetLayoutMetricsReturns,
}

impl Next for ResizeElement {
    type Input = Rescaled;

    type Rest = TakeShot;

    open spec fn next(self, scale: Rescaled) -> Prog<Seq<u8>> {
        take_op(element_shot(self.params, self.bounds, self.metrics.deep_view(), Some(scale)))
    }
}

impl Start for ResizeElement {
    fn start(self, scale: Rescaled) -> (step: Step<TakeShot, Vec<u8>>) {
        take(shoot_element(self.params, self.bounds, &self.metrics, Some(scale)))
    }
}

/// The screenshot of an element, with the region and the device that it is taken on.
pub fn shoot_element(
    params: ScreenshotParams,
    bounds: BoundingBox,
    metrics: &GetLayoutMetricsReturns,
    scale: Option<Rescaled>,
) -> (shot: Shot)
    ensures
        shot == element_shot(params, bounds, metrics.deep_view(), scale),
{
    let mut region = page::Viewport::from(bounds);
    let mut device = params.device_metrics();
    if let Some(scale) = scale {
        region.scale = scale.scale;
        if let Some((_, height)) = params.screenshot_dimensions() {
            if height != 0 {
                region.y = scale.y;
                region.height = scale.height;
            }
        }
    }
    device.width = metrics.content_width;
    device.height = metrics.content_height;
    let mut capture = params.capture_screenshot_params;
    capture.clip = Some(region);
    Shot {
        capture,
        device,
        omit_background: params.omit_background(),
        restore: Some(params.device_metrics()),
    }
}

/// A screenshot of an element that is taken once the scale is known.
pub type ScaleElement = Chain<Await<Rescaled>, ResizeElement>;

/// The screenshot of an element, once its bounds and the layout are known.
pub struct LayOutElement {
    pub params: ScreenshotParams,
    pub bounds: BoundingBox,
}

impl Next for LayOutElement {
    type Input = GetLayoutMetricsReturns;

    type Rest = ScaleElement;

    open spec fn next(self, metrics: GetLayoutMetricsReturnsView) -> Prog<Seq<u8>> {
        element_shot_op(self.params, self.bounds, metrics)
    }
}

impl Start for LayOutElement {
    fn start(self, metrics: GetLayoutMetricsReturns) -> (step: Step<ScaleElement, Vec<u8>>) {
        broadcast use same_is_equal;

        let params = self.params;
        let bounds = self.bounds;
        match params.screenshot_dimensions() {
            Some(dimensions) => {
                let step = rescale(
                    dimensions,
                    bounds.width,
                    params.device_metrics(),
                    page::Viewport::from(bounds),
                );
                chain(step, ResizeElement { params, bounds, metrics })
            },
            None => second(take(shoot_element(params, bounds, &metrics, None))),
        }
    }
}

/// A screenshot of an element that is taken once the layout is known.
pub type ElementLayout = Chain<Await<GetLayoutMetricsReturns>, LayOutElement>;

/// The screenshot of an element, once its bounds are known.
pub struct BoundElement {
    pub params: ScreenshotParams,
}

impl Next for BoundElement {
    type Input = BoundingBox;

    type Rest = ElementLayout;

    open spec fn next(self, bounds: BoundingBox) -> Prog<Seq<u8>> {
        bind(
            layout_metrics_op(),
            |metrics: GetLayoutMetricsReturnsView| element_shot_op(self.params, bounds, metrics),
        )
    }
}

impl Start for BoundElement {
    fn start(self, bounds: BoundingBox) -> (step: Step<ElementLayout, Vec<u8>>) {
        broadcast use same_is_equal;

        chain(
            executing::<GetLayoutMetricsReturns>(Command::GetLayoutMetrics),
            LayOutElement { params: self.params, bounds },
        )
    }
}

/// A screenshot of an element.
pub type ShootElement = Chain<FetchBounds, BoundElement>;

/// Writes what an operation yields to a file.
pub struct Save {
    pub path: String,
}

impl Next for Save {
    type Input = Vec<u8>;

    type Rest = Chain<Await<()>, Give>;

    open spec fn next(self, contents: Seq<u8>) -> Prog<Seq<u8>> {
        save_op(self.path@, contents)
    }
}

impl Start for Save {
    fn start(self, contents: Vec<u8>) -> (step: Step<Chain<Await<()>, Give>, Vec<u8>>) {
        broadcast use same_is_equal;

        let copy = contents.clone();
        assert(copy.deep_view() =~= contents.deep_view());
        chain(asking::<()>(Request::Write { path: self.path, contents: copy }), Give { contents })
    }
}

impl From<BoundingBox> for page::Viewport {
    fn from(bounds: BoundingBox) -> (region: page::Viewport) {
        page::Viewport {
            x: bounds.x,
            y: bounds.y,
            width: bounds.width,
            height: bounds.height,
            scale: Num::Whole(1),
        }
    }
}

impl vstd::std_specs::convert::FromSpecImpl<BoundingBox> for page::Viewport {
    open spec fn obeys_from_spec() -> bool {
        true
    }

    open spec fn from_spec(bounds: BoundingBox) -> page::Viewport {
        region_of(bounds)
    }
}

impl Element {
    /// Takes a screenshot of the element: the page is shown whole, then the device is
    /// set back.
    pub fn screenshot(&self, screenshot_params: ScreenshotParams) -> (step: Step<
        ShootElement,
        Vec<u8>,
    >)
        ensures
            follows(step, element_screenshot_op(self.backend_node_id, screenshot_params)),
    {
        broadcast use same_is_equal;

        chain(self.bounding_box(), BoundElement { params: screenshot_params })
    }

    /// Takes a screenshot of the element and writes it to a file.
    pub fn save_screenshot(&self, screenshot_params: ScreenshotParams, output: String) -> (step:
        Step<Chain<ShootElement, Save>, Vec<u8>>)
        ensures
            follows(
                step,
                bind(
                    element_screenshot_op(self.backend_node_id, screenshot_params),
                    |image: Seq<u8>| save_op(output@, image),
                ),
            ),
    {
        broadcast use same_is_equal;

        chain(self.screenshot(screenshot_params), Save { path: output })
    }
}

// What holds whatever the browser answers.

/// Whether a request overrides the metrics of the device.
pub open spec fn overrides_metrics(request: RequestView) -> bool {
    request matches RequestView::Command(command) && command is SetDeviceMetricsOverride
}

/// Whether a request overrides the background colour.
pub open spec fn overrides_background(request: RequestView) -> bool {
    request matches RequestView::Command(command) && command is SetDefaultBackgroundColorOverride
}

/// A screenshot that is taken leaves what it was told to go back to.
proof fn restore_leaves(image: Seq<u8>, shot: Shot)
    ensures
        shot.restore matches Some(device) ==> leaves(
            restore_op(image, shot),
            |request: RequestView| overrides_metrics(request),
            metrics_request(device),
            false,
        ),
        shot.omit_background ==> leaves(
            restore_op(image, shot),
            |request: RequestView| overrides_background(request),
            background_request(None),
            false,
        ),
{
    reveal_with_fuel(sequence, 3);
    reveal_with_fuel(leaves, 4);
    reveal_with_fuel(bind, 3);
}

/// A screenshot that is taken leaves the device that it was told to go back to.
pub proof fn shot_restores_device(shot: Shot)
    requires
        shot.restore is Some,
    ensures
        leaves(
            take_op(shot),
            |request: RequestView| overrides_metrics(request),
            metrics_request(shot.restore->0),
            false,
        ),
{
    let kind = |request: RequestView| overrides_metrics(request);
    let last = metrics_request(shot.restore->0);
    let restore = |image: Seq<u8>| restore_op(image, shot);
    let snap = |u: ()| bind(capture_op(shot.capture), restore);
    assert forall|u: ()| leaves(#[trigger] snap(u), kind, last, false) by {
        assert forall|image: Seq<u8>| leaves(#[trigger] restore(image), kind, last, false) by {
            restore_leaves(image, shot);
        }
        bind_leaves(capture_op(shot.capture), restore, kind, last, false);
    }
    bind_leaves(
        sequence(preparation(shot.omit_background, shot.device)),
        snap,
        kind,
        last,
        false,
    );
}

/// A screenshot whose background is left out leaves the background as it was.
pub proof fn shot_restores_background(shot: Shot)
    requires
        shot.omit_background,
    ensures
        leaves(
            take_op(shot),
            |request: RequestView| overrides_background(request),
            background_request(None),
            false,
        ),
{
    let kind = |request: RequestView| overrides_background(request);
    let last = background_request(None);
    let restore = |image: Seq<u8>| restore_op(image, shot);
    let snap = |u: ()| bind(capture_op(shot.capture), restore);
    assert forall|u: ()| leaves(#[trigger] snap(u), kind, last, false) by {
        assert forall|image: Seq<u8>| leaves(#[trigger] restore(image), kind, last, false) by {
            restore_leaves(image, shot);
        }
        bind_leaves(capture_op(shot.capture), restore, kind, last, false);
    }
    bind_leaves(
        sequence(preparation(shot.omit_background, shot.device)),
        snap,
        kind,
        last,
        false,
    );
}

/// A screenshot of a page leaves what each of its shots leaves.
proof fn page_screenshot_leaves(
    target_id: Seq<char>,
    params: ScreenshotParams,
    kind: spec_fn(RequestView) -> bool,
    last: RequestView,
)
    requires
        forall|metrics: GetLayoutMetricsReturnsView, scale: Option<Rescaled>|
            leaves(take_op(#[trigger] page_shot(params, metrics, scale)), kind, last, false),
    ensures
        leaves(page_screenshot_op(target_id, params), kind, last, false),
{
    let shoot = |metrics: GetLayoutMetricsReturnsView| page_shot_op(params, metrics);
    let lay_out = |u: ()| bind(layout_metrics_op(), shoot);
    assert forall|metrics: GetLayoutMetricsReturnsView|
        leaves(#[trigger] shoot(metrics), kind, last, false) by {
        if let Some(dimensions) = params.screenshot_dimensions {
            let query = rescale_query(
                dimensions,
                params.reference_width(metrics.client_width),
                params.screen().device(),
                params.asked_region(),
            );
            bind_leaves(
                ask::<Rescaled>(RequestView::Rescale(query)),
                |scale: Rescaled| take_op(page_shot(params, metrics, Some(scale))),
                kind,
                last,
                false,
            );
        }
    }
    assert forall|u: ()| leaves(#[trigger] lay_out(u), kind, last, false) by {
        bind_leaves(layout_metrics_op(), shoot, kind, last, false);
    }
    bind_leaves(activate_op(target_id), lay_out, kind, last, false);
}

/// A screenshot of all of a page leaves the device that was asked for.
pub proof fn full_page_restores_device(target_id: Seq<char>, params: ScreenshotParams)
    requires
        params.takes_full_page(),
    ensures
        leaves(
            page_screenshot_op(target_id, params),
            |request: RequestView| overrides_metrics(request),
            metrics_request(params.screen().device()),
            false,
        ),
{
    let kind = |request: RequestView| overrides_metrics(request);
    let last = metrics_request(params.screen().device());
    assert forall|metrics: GetLayoutMetricsReturnsView, scale: Option<Rescaled>|
        leaves(take_op(#[trigger] page_shot(params, metrics, scale)), kind, last, false) by {
        shot_restores_device(page_shot(params, metrics, scale));
    }
    page_screenshot_leaves(target_id, params, kind, last);
}

/// A screenshot of a page that leaves the background out sets the background back.
pub proof fn page_restores_background(target_id: Seq<char>, params: ScreenshotParams)
    requires
        params.omits_background(),
    ensures
        leaves(
            page_screenshot_op(target_id, params),
            |request: RequestView| overrides_background(request),
            background_request(None),
            false,
        ),
{
    let kind = |request: RequestView| overrides_background(request);
    let last = background_request(None);
    assert forall|metrics: GetLayoutMetricsReturnsView, scale: Option<Rescaled>|
        leaves(take_op(#[trigger] page_shot(params, metrics, scale)), kind, last, false) by {
        shot_restores_background(page_shot(params, metrics, scale));
    }
    page_screenshot_leaves(target_id, params, kind, last);
}

/// A screenshot of an element leaves what each of its shots leaves.
proof fn element_screenshot_leaves(
    backend_node_id: BackendNodeId,
    params: ScreenshotParams,
    kind: spec_fn(RequestView) -> bool,
    last: RequestView,
)
    requires
        forall|
            bounds: BoundingBox,
            metrics: GetLayoutMetricsReturnsView,
            scale: Option<Rescaled>,
        |
            leaves(
                take_op(#[trigger] element_shot(params, bounds, metrics, scale)),
                kind,
                last,
                false,
            ),
    ensures
        leaves(element_screenshot_op(backend_node_id, params), kind, last, false),
{
    let lay_out = |bounds: BoundingBox|
        bind(
            layout_metrics_op(),
            |metrics: GetLayoutMetricsReturnsView| element_shot_op(params, bounds, metrics),
        );
    assert forall|bounds: BoundingBox| leaves(#[trigger] lay_out(bounds), kind, last, false) by {
        let shoot = |metrics: GetLayoutMetricsReturnsView|
            element_shot_op(params, bounds, metrics);
        assert forall|metrics: GetLayoutMetricsReturnsView|
            leaves(#[trigger] shoot(metrics), kind, last, false) by {
            if let Some(dimensions) = params.screenshot_dimensions {
                let query = rescale_query(
                    dimensions,
                    bounds.width,
                    params.screen().device(),
                    region_of(bounds),
                );
                bind_leaves(
                    ask::<Rescaled>(RequestView::Rescale(query)),
                    |scale: Rescaled| take_op(element_shot(params, bounds, metrics, Some(scale))),
                    kind,
                    last,
                    false,
                );
            }
        }
        bind_leaves(layout_metrics_op(), shoot, kind, last, false);
    }
    bind_leaves(bounding_box_op(backend_node_id), lay_out, kind, last, false);
}

/// A screenshot of an element leaves the device that was asked for.
pub proof fn element_restores_device(backend_node_id: BackendNodeId, params: ScreenshotParams)
    ensures
        leaves(
            element_screenshot_op(backend_node_id, params),
            |request: RequestView| overrides_metrics(request),
            metrics_request(params.screen().device()),
            false,
        ),
{
    let kind = |request: RequestView| overrides_metrics(request);
    let last = metrics_request(params.screen().device());
    assert forall|
        bounds: BoundingBox,
        metrics: GetLayoutMetricsReturnsView,
        scale: Option<Rescaled>,
    |
        leaves(
            take_op(#[trigger] element_shot(params, bounds, metrics, scale)),
            kind,
            last,
            false,
        ) by {
        shot_restores_device(element_shot(params, bounds, metrics, scale));
    }
    element_screenshot_leaves(backend_node_id, params, kind, last);
}

/// A screenshot of an element that leaves the background out sets the background back.
pub proof fn element_restores_background(backend_node_id: BackendNodeId, params: ScreenshotParams)
    requires
        params.omits_background(),
    ensures
        leaves(
            element_screenshot_op(backend_node_id, params),
            |request: RequestView| overrides_background(request),
            background_request(None),
            false,
        ),
{
    let kind = |request: RequestView| overrides_background(request);
    let last = background_request(None);
    assert forall|
        bounds: BoundingBox,
        metrics: GetLayoutMetricsReturnsView,
        scale: Option<Rescaled>,
    |
        leaves(
            take_op(#[trigger] element_shot(params, bounds, metrics, scale)),
            kind,
            last,
            false,
        ) by {
        shot_restores_background(element_shot(params, bounds, metrics, scale));
    }
    element_screenshot_leaves(backend_node_id, params, kind, last);
}

/// A shot scrolls nothing.
proof fn shot_scrolls_nothing(shot: Shot)
    ensures
        only_asks(take_op(shot), |request: RequestView| !scrolls(request)),
{
    let allowed = |request: RequestView| !scrolls(request);
    let restore = |image: Seq<u8>| restore_op(image, shot);
    let snap = |u: ()| bind(capture_op(shot.capture), restore);
    reveal_with_fuel(only_asks, 2);
    assert forall|image: Seq<u8>| only_asks(#[trigger] restore(image), allowed) by {
        sequence_only_asks(restoration(shot.omit_background, shot.restore), allowed);
        bind_only_asks(
            sequence(restoration(shot.omit_background, shot.restore)),
            |u: ()| done(image),
            allowed,
        );
    }
    assert forall|u: ()| only_asks(#[trigger] snap(u), allowed) by {
        let decode = |data: Seq<char>| decoded(base64_decoded(data));
        assert forall|data: Seq<char>| only_asks(#[trigger] decode(data), allowed) by {
        }
        bind_only_asks(
            execute::<String>(CommandView::CaptureScreenshot(shot.capture)),
            decode,
            allowed,
        );
        bind_only_asks(capture_op(shot.capture), restore, allowed);
    }
    sequence_only_asks(preparation(shot.omit_background, shot.device), allowed);
    bind_only_asks(sequence(preparation(shot.omit_background, shot.device)), snap, allowed);
}

/// A screenshot of an element does not scroll: the page is shown whole instead.
pub proof fn element_screenshot_scrolls_nothing(
    backend_node_id: BackendNodeId,
    params: ScreenshotParams,
)
    ensures
        only_asks(
            element_screenshot_op(backend_node_id, params),
            |request: RequestView| !scrolls(request),
        ),
{
    let allowed = |request: RequestView| !scrolls(request);
    let lay_out = |bounds: BoundingBox|
        bind(
            layout_metrics_op(),
            |metrics: GetLayoutMetricsReturnsView| element_shot_op(params, bounds, metrics),
        );
    reveal_with_fuel(only_asks, 2);
    assert forall|bounds: BoundingBox| only_asks(#[trigger] lay_out(bounds), allowed) by {
        let shoot = |metrics: GetLayoutMetricsReturnsView|
            element_shot_op(params, bounds, metrics);
        assert forall|metrics: GetLayoutMetricsReturnsView|
            only_asks(#[trigger] shoot(metrics), allowed) by {
            assert forall|scale: Option<Rescaled>|
                only_asks(
                    take_op(#[trigger] element_shot(params, bounds, metrics, scale)),
                    allowed,
                ) by {
                shot_scrolls_nothing(element_shot(params, bounds, metrics, scale));
            }
            if let Some(dimensions) = params.screenshot_dimensions {
                let query = rescale_query(
                    dimensions,
                    bounds.width,
                    params.screen().device(),
                    region_of(bounds),
                );
                bind_only_asks(
                    ask::<Rescaled>(RequestView::Rescale(query)),
                    |scale: Rescaled| take_op(element_shot(params, bounds, metrics, Some(scale))),
                    allowed,
                );
            }
        }
        bind_only_asks(layout_metrics_op(), shoot, allowed);
    }
    let bound = |model: BoxModel| ask::<BoundingBox>(RequestView::Bounds { quad: model.border });
    let boxes = |model: BoxModelReplyView| boxes_of(model);
    assert forall|model: BoxModelReplyView| only_asks(#[trigger] boxes(model), allowed) by {
    }
    bind_only_asks(
        execute::<BoxModelReply>(CommandView::GetBoxModel { backend_node_id }),
        boxes,
        allowed,
    );
    bind_only_asks(box_model_op(backend_node_id), bound, allowed);
    bind_only_asks(bounding_box_op(backend_node_id), lay_out, allowed);
}

} // verus!
