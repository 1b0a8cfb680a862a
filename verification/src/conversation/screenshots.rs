//! Screenshots, and documents that are printed.
use vstd::prelude::*;

use crate::cdp::command::CommandView;
use crate::cdp::dom::{BackendNodeId, Rgba};
use crate::cdp::emulation::SetDeviceMetricsOverrideParams;
use crate::cdp::page;
use crate::cdp::page::{
    CaptureScreenshotFormat, CaptureScreenshotParams, GetLayoutMetricsReturnsView, PrintToPdfParams,
};
use crate::element::{bounding_box_op, box_model_op, boxes_of, Element};
use crate::error::ErrorView;
use crate::flow::{
    ask, bind, done, execute, fail, remaining, same_is_equal, Await, Chain, Prog, Step,
};
use crate::handler::page::{activate_op, capture_op, decoded, layout_metrics_op, Decode, PageInner};
use crate::handler::viewport::Viewport;
use crate::laws::{bind_only_asks, only_asks};
use crate::layout::{BoundingBox, BoxModel, ElementQuad, Point};
use crate::number::Num;
use crate::outside::base64_decoded;
use crate::page::Page;
use crate::protocol::{
    BoxModelReply, BoxModelReplyView, ReplyView, RequestView, RescaleQuery, Rescaled,
};
use crate::screenshot::{
    element_screenshot_op, element_shot, element_shot_op, page_screenshot_op, page_shot,
    page_shot_op, preparation, region_of, rescale_query, restoration, restore_op, save_op, take_op,
    Save, ScreenshotParams, ShootElement, ShootPage, Shot,
};
use crate::sequence::{sequence, sequence_only_asks};

verus! {

/// The screen that a page is shown on: the one that is set, or one of 800 by 600 pixels.
pub open spec fn screen_of(params: ScreenshotParams) -> Viewport {
    if params.viewport is Some {
        params.viewport->0
    } else {
        Viewport {
            width: 800,
            height: 600,
            device_scale_factor: None,
            emulating_mobile: false,
            is_landscape: false,
            has_touch: false,
        }
    }
}

/// The device that shows that screen, at its own scale or at that of one to one.
pub open spec fn device_of(params: ScreenshotParams) -> SetDeviceMetricsOverrideParams {
    SetDeviceMetricsOverrideParams {
        width: screen_of(params).width as i64,
        height: screen_of(params).height as i64,
        device_scale_factor: if screen_of(params).device_scale_factor is Some {
            screen_of(params).device_scale_factor->0
        } else {
            Num::Whole(1)
        },
        mobile: screen_of(params).emulating_mobile,
    }
}

/// The region of the page that is to be taken where all of the page is not asked for: the one
/// that is set, or what the screen shows.
pub open spec fn clip_of(params: ScreenshotParams) -> page::Viewport {
    if params.capture_screenshot_params.clip is Some {
        params.capture_screenshot_params.clip->0
    } else {
        page::Viewport {
            x: Num::Whole(0),
            y: Num::Whole(0),
            width: Num::Whole(screen_of(params).width as i64),
            height: Num::Whole(screen_of(params).height as i64),
            scale: Num::Whole(1),
        }
    }
}

/// Whether the background is left out: where that is asked for, and the image can show it.
pub open spec fn leaves_background_out(params: ScreenshotParams) -> bool {
    let format = params.capture_screenshot_params.format;
    params.omit_background == Some(true) && (format is None || format == Some(
        CaptureScreenshotFormat::Png,
    ))
}

/// What the page is told: what the caller has set, with a region.
pub open spec fn capture_of(params: ScreenshotParams, clip: page::Viewport) -> CommandView {
    CommandView::CaptureScreenshot(
        CaptureScreenshotParams {
            format: params.capture_screenshot_params.format,
            quality: params.capture_screenshot_params.quality,
            clip: Some(clip),
            from_surface: params.capture_screenshot_params.from_surface,
            capture_beyond_viewport: params.capture_screenshot_params.capture_beyond_viewport,
        },
    )
}

/// A device that shows all of a page.
pub open spec fn device_for_all(
    device: SetDeviceMetricsOverrideParams,
    metrics: GetLayoutMetricsReturnsView,
) -> SetDeviceMetricsOverrideParams {
    SetDeviceMetricsOverrideParams {
        width: metrics.content_width,
        height: metrics.content_height,
        device_scale_factor: device.device_scale_factor,
        mobile: device.mobile,
    }
}

impl Prog<Seq<u8>> {
    /// What is left of an operation once it has taken a picture: the background is made
    /// transparent where it is left out, the device is set, the image is captured, then the
    /// background is set back, and the device, where there is one to go back to.
    pub open spec fn takes(
        self,
        background_out: bool,
        device: SetDeviceMetricsOverrideParams,
        capture: CommandView,
        data: Seq<char>,
        back: Option<SetDeviceMetricsOverrideParams>,
        reply: ReplyView,
    ) -> Prog<Seq<u8>> {
        let prepared = if background_out {
            self.sends(
                CommandView::SetDefaultBackgroundColorOverride {
                    color: Some(Rgba { r: 0, g: 0, b: 0, a: Some(Num::Whole(0)) }),
                },
                reply,
            )
        } else {
            self
        };
        let captured = prepared.sends(CommandView::SetDeviceMetricsOverride(device), reply).sends(
            capture,
            ReplyView::Text(data),
        );
        let restored = if background_out {
            captured.sends(CommandView::SetDefaultBackgroundColorOverride { color: None }, reply)
        } else {
            captured
        };
        if back is Some {
            restored.sends(CommandView::SetDeviceMetricsOverride(back->0), reply)
        } else {
            restored
        }
    }
}

/// A shot that is taken is such a picture, and yields the image.
proof fn shot_is_a_picture(shot: Shot, data: Seq<char>, image: Seq<u8>, reply: ReplyView)
    requires
        base64_decoded(data) == Some(image),
    ensures
        take_op(shot).takes(
            shot.omit_background,
            shot.device,
            CommandView::CaptureScreenshot(shot.capture),
            data,
            shot.restore,
            reply,
        ) == done(image),
{
    reveal_with_fuel(bind, 6);
    reveal_with_fuel(sequence, 4);
}

/// A shot captures one image only, with what it was told.
proof fn shot_captures_as_told(shot: Shot, allowed: spec_fn(RequestView) -> bool)
    requires
        allowed(RequestView::Command(CommandView::CaptureScreenshot(shot.capture))),
        forall|command: CommandView|
            !(command is CaptureScreenshot) ==> #[trigger] allowed(RequestView::Command(command)),
    ensures
        only_asks(take_op(shot), allowed),
{
    let restore = |image: Seq<u8>| restore_op(image, shot);
    let snap = |u: ()| bind(capture_op(shot.capture), restore);
    reveal_with_fuel(only_asks, 2);
    assert forall|image: Seq<u8>| only_asks(#[trigger] restore(image), allowed) by {
        sequence_only_asks(restoration(shot.omit_background, shot.restore), allowed);
        bind_only_asks(
            sequence(restoration(shot.omit_background, shot.restore)),
            |u: ()| done(image),
            allowed,
        );
    }
    assert forall|u: ()| only_asks(#[trigger] snap(u), allowed) by {
        let decode = |data: Seq<char>| decoded(base64_decoded(data));
        assert forall|data: Seq<char>| only_asks(#[trigger] decode(data), allowed) by {
        }
        bind_only_asks(
            execute::<String>(CommandView::CaptureScreenshot(shot.capture)),
            decode,
            allowed,
        );
        bind_only_asks(capture_op(shot.capture), restore, allowed);
    }
    sequence_only_asks(preparation(shot.omit_background, shot.device), allowed);
    bind_only_asks(sequence(preparation(shot.omit_background, shot.device)), snap, allowed);
}

/// Whether a request, where it captures an image, keeps what the caller has set.
pub open spec fn captures_as_set(request: RequestView, params: ScreenshotParams) -> bool {
    match request {
        RequestView::Command(CommandView::CaptureScreenshot(capture)) => {
            &&& capture.format == params.capture_screenshot_params.format
            &&& capture.quality == params.capture_screenshot_params.quality
            &&& capture.from_surface == params.capture_screenshot_params.from_surface
            &&& capture.capture_beyond_viewport
                == params.capture_screenshot_params.capture_beyond_viewport
            &&& capture.clip is Some
        },
        _ => true,
    }
}

/// Whatever the browser answers, a screenshot of a page is captured in the format and with the
/// quality that the caller has set, from the surface or beyond the screen as the caller has
/// set, and of a region.
pub proof fn page_screenshot_captures_as_set(target_id: Seq<char>, params: ScreenshotParams)
    ensures
        only_asks(
            page_screenshot_op(target_id, params),
            |request: RequestView| captures_as_set(request, params),
        ),
{
    let allowed = |request: RequestView| captures_as_set(request, params);
    let shoot = |metrics: GetLayoutMetricsReturnsView| page_shot_op(params, metrics);
    let lay_out = |u: ()| bind(layout_metrics_op(), shoot);
    reveal_with_fuel(only_asks, 2);
    assert forall|metrics: GetLayoutMetricsReturnsView|
        only_asks(#[trigger] shoot(metrics), allowed) by {
        assert forall|scale: Option<Rescaled>|
            only_asks(take_op(#[trigger] page_shot(params, metrics, scale)), allowed) by {
            shot_captures_as_told(page_shot(params, metrics, scale), allowed);
        }
        if let Some(dimensions) = params.screenshot_dimensions {
            let query = rescale_query(
                dimensions,
                params.reference_width(metrics.client_width),
                params.screen().device(),
                params.asked_region(),
            );
            bind_only_asks(
                ask::<Rescaled>(RequestView::Rescale(query)),
                |scale: Rescaled| take_op(page_shot(params, metrics, Some(scale))),
                allowed,
            );
        }
    }
    assert forall|u: ()| only_asks(#[trigger] lay_out(u), allowed) by {
        bind_only_asks(layout_metrics_op(), shoot, allowed);
    }
    bind_only_asks(activate_op(target_id), lay_out, allowed);
}

/// Whatever the browser answers, a screenshot of an element is captured in the format and with
/// the quality that the caller has set, from the surface or beyond the screen as the caller
/// has set, and of a region.
pub proof fn element_screenshot_captures_as_set(
    backend_node_id: BackendNodeId,
    params: ScreenshotParams,
)
    ensures
        only_asks(
            element_screenshot_op(backend_node_id, params),
            |request: RequestView| captures_as_set(request, params),
        ),
{
    let allowed = |request: RequestView| captures_as_set(request, params);
    let lay_out = |bounds: BoundingBox|
        bind(
            layout_metrics_op(),
            |metrics: GetLayoutMetricsReturnsView| element_shot_op(params, bounds, metrics),
        );
    reveal_with_fuel(only_asks, 2);
    assert forall|bounds: BoundingBox| only_asks(#[trigger] lay_out(bounds), allowed) by {
        let shoot = |metrics: GetLayoutMetricsReturnsView|
            element_shot_op(params, bounds, metrics);
        assert forall|metrics: GetLayoutMetricsReturnsView|
            only_asks(#[trigger] shoot(metrics), allowed) by {
            assert forall|scale: Option<Rescaled>|
                only_asks(
                    take_op(#[trigger] element_shot(params, bounds, metrics, scale)),
                    allowed,
                ) by {
                shot_captures_as_told(element_shot(params, bounds, metrics, scale), allowed);
            }
            if let Some(dimensions) = params.screenshot_dimensions {
                let query = rescale_query(
                    dimensions,
                    bounds.width,
                    params.screen().device(),
                    region_of(bounds),
                );
                bind_only_asks(
                    ask::<Rescaled>(RequestView::Rescale(query)),
                    |scale: Rescaled| take_op(element_shot(params, bounds, metrics, Some(scale))),
                    allowed,
                );
            }
        }
        bind_only_asks(layout_metrics_op(), shoot, allowed);
    }
    let bound = |model: BoxModel| ask::<BoundingBox>(RequestView::Bounds { quad: model.border });
    let boxes = |model: BoxModelReplyView| boxes_of(model);
    assert forall|model: BoxModelReplyView| only_asks(#[trigger] boxes(model), allowed) by {
    }
    bind_only_asks(
        execute::<BoxModelReply>(CommandView::GetBoxModel { backend_node_id }),
        boxes,
        allowed,
    );
    bind_only_asks(box_model_op(backend_node_id), bound, allowed);
    bind_only_asks(bounding_box_op(backend_node_id), lay_out, allowed);
}

/// A screenshot of a page whose image has no given dimensions: the page is activated, and what
/// is taken is the region that is set, or else all of the page where that is asked for, or else
/// what the screen shows. Where all of the page is asked for, the device shows all of it, and
/// then the screen again.
pub proof fn page_screenshot_of_its_own_size(
    page: &Page,
    params: ScreenshotParams,
    step: Step<ShootPage, Vec<u8>>,
    metrics: GetLayoutMetricsReturnsView,
    data: Seq<char>,
    image: Seq<u8>,
    reply: ReplyView,
)
    requires
        call_ensures(Page::screenshot, (page, params), step),
        params.screenshot_dimensions is None,
        base64_decoded(data) == Some(image),
    ensures
        ({
            let all = params.full_page == Some(true);
            let clip = if all && params.capture_screenshot_params.clip is None {
                page::Viewport {
                    x: Num::Whole(0),
                    y: Num::Whole(0),
                    width: metrics.css_content_size.width,
                    height: metrics.css_content_size.height,
                    scale: Num::Whole(1),
                }
            } else {
                clip_of(params)
            };
            remaining(step).sends(
                CommandView::ActivateTarget { target_id: page.inner.target_id.0@ },
                reply,
            ).sends(CommandView::GetLayoutMetrics, ReplyView::LayoutMetrics(metrics)).takes(
                leaves_background_out(params),
                if all {
                    device_for_all(device_of(params), metrics)
                } else {
                    device_of(params)
                },
                capture_of(params, clip),
                data,
                if all {
                    Some(device_of(params))
                } else {
                    None
                },
                reply,
            ) == done(image)
        }),
{
    broadcast use same_is_equal;

    reveal_with_fuel(bind, 3);
    shot_is_a_picture(page_shot(params, metrics, None), data, image, reply);
}

/// A screenshot of a page whose image has given dimensions: the scale is computed of them, of
/// the width that is shown and of the scale of the device. The region that is taken is at that
/// scale. Where a height is given, the region and the device have the height that was computed.
/// All of the page is taken, where that is asked for and no region is set, at that scale.
pub proof fn page_screenshot_of_a_given_size(
    page: &Page,
    params: ScreenshotParams,
    step: Step<ShootPage, Vec<u8>>,
    width: i64,
    height: i64,
    metrics: GetLayoutMetricsReturnsView,
    scale: Rescaled,
    data: Seq<char>,
    image: Seq<u8>,
    reply: ReplyView,
)
    requires
        call_ensures(Page::screenshot, (page, params), step),
        params.screenshot_dimensions == Some((width, height)),
        base64_decoded(data) == Some(image),
    ensures
        ({
            let all = params.full_page == Some(true);
            let device = device_of(params);
            let region = clip_of(params);
            let of_page = all && params.capture_screenshot_params.clip is None;
            let clip = page::Viewport {
                x: region.x,
                y: region.y,
                width: if of_page {
                    metrics.css_content_size.width
                } else {
                    region.width
                },
                height: if of_page {
                    metrics.css_content_size.height
                } else if height != 0 {
                    scale.height
                } else {
                    region.height
                },
                scale: scale.scale,
            };
            remaining(step).sends(
                CommandView::ActivateTarget { target_id: page.inner.target_id.0@ },
                reply,
            ).sends(CommandView::GetLayoutMetrics, ReplyView::LayoutMetrics(metrics)).asks(
                RequestView::Rescale(
                    RescaleQuery {
                        width,
                        height,
                        reference_width: if params.capture_screenshot_params.clip is Some {
                            region.width
                        } else {
                            metrics.client_width
                        },
                        device_scale_factor: device.device_scale_factor,
                        y: region.y,
                        viewport_height: region.height,
                    },
                ),
                ReplyView::Rescaled(scale),
            ).takes(
                leaves_background_out(params),
                if all {
                    device_for_all(device, metrics)
                } else {
                    SetDeviceMetricsOverrideParams {
                        width: device.width,
                        height: if height != 0 {
                            scale.height_pixels
                        } else {
                            device.height
                        },
                        device_scale_factor: device.device_scale_factor,
                        mobile: device.mobile,
                    }
                },
                capture_of(params, clip),
                data,
                if all {
                    Some(device)
                } else {
                    None
                },
                reply,
            ) == done(image)
        }),
{
    broadcast use same_is_equal;

    reveal_with_fuel(bind, 4);
    shot_is_a_picture(page_shot(params, metrics, Some(scale)), data, image, reply);
}

impl<T> Prog<T> {
    /// What is left of an operation once it has found the bounds of an element: those of the
    /// border among its boxes.
    pub open spec fn finds_bounds(
        self,
        backend_node_id: BackendNodeId,
        model: BoxModelReplyView,
        bounds: BoundingBox,
    ) -> Prog<T> {
        let border = model.border;
        self.sends(
            CommandView::GetBoxModel { backend_node_id },
            ReplyView::BoxModel(model),
        ).asks(
            RequestView::Bounds {
                quad: ElementQuad {
                    top_left: Point { x: border[0], y: border[1] },
                    top_right: Point { x: border[2], y: border[3] },
                    bottom_right: Point { x: border[4], y: border[5] },
                    bottom_left: Point { x: border[6], y: border[7] },
                },
            },
            ReplyView::Bounds(bounds),
        )
    }
}

/// Whether each of the boxes of an element has four corners.
pub open spec fn has_whole_boxes(model: BoxModelReplyView) -> bool {
    model.content.len() == 8 && model.padding.len() == 8 && model.border.len() == 8
        && model.margin.len() == 8
}

/// A screenshot of an element whose image has no given dimensions: what is taken is the bounds
/// of the element, on a device that shows all of the page, and then the screen again.
pub proof fn element_screenshot_of_its_own_size(
    element: &Element,
    params: ScreenshotParams,
    step: Step<ShootElement, Vec<u8>>,
    model: BoxModelReplyView,
    bounds: BoundingBox,
    metrics: GetLayoutMetricsReturnsView,
    data: Seq<char>,
    image: Seq<u8>,
    reply: ReplyView,
)
    requires
        call_ensures(Element::screenshot, (element, params), step),
        params.screenshot_dimensions is None,
        has_whole_boxes(model),
        base64_decoded(data) == Some(image),
    ensures
        remaining(step).finds_bounds(element.backend_node_id, model, bounds).sends(
            CommandView::GetLayoutMetrics,
            ReplyView::LayoutMetrics(metrics),
        ).takes(
            leaves_background_out(params),
            device_for_all(device_of(params), metrics),
            capture_of(
                params,
                page::Viewport {
                    x: bounds.x,
                    y: bounds.y,
                    width: bounds.width,
                    height: bounds.height,
                    scale: Num::Whole(1),
                },
            ),
            data,
            Some(device_of(params)),
            reply,
        ) == done(image),
{
    broadcast use same_is_equal;

    reveal_with_fuel(bind, 5);
    shot_is_a_picture(element_shot(params, bounds, metrics, None), data, image, reply);
}

/// A screenshot of an element whose image has given dimensions: the scale is computed of them,
/// of the width of the element and of the scale of the device. What is taken is the bounds of
/// the element at that scale, and where a height is given, with the upper edge and the height
/// that were computed.
pub proof fn element_screenshot_of_a_given_size(
    element: &Element,
    params: ScreenshotParams,
    step: Step<ShootElement, Vec<u8>>,
    width: i64,
    height: i64,
    model: BoxModelReplyView,
    bounds: BoundingBox,
    metrics: GetLayoutMetricsReturnsView,
    scale: Rescaled,
    data: Seq<char>,
    image: Seq<u8>,
    reply: ReplyView,
)
    requires
        call_ensures(Element::screenshot, (element, params), step),
        params.screenshot_dimensions == Some((width, height)),
        has_whole_boxes(model),
        base64_decoded(data) == Some(image),
    ensures
        remaining(step).finds_bounds(element.backend_node_id, model, bounds).sends(
            CommandView::GetLayoutMetrics,
            ReplyView::LayoutMetrics(metrics),
        ).asks(
            RequestView::Rescale(
                RescaleQuery {
                    width,
                    height,
                    reference_width: bounds.width,
                    device_scale_factor: device_of(params).device_scale_factor,
                    y: bounds.y,
                    viewport_height: bounds.height,
                },
            ),
            ReplyView::Rescaled(scale),
        ).takes(
            leaves_background_out(params),
            device_for_all(device_of(params), metrics),
            capture_of(
                params,
                page::Viewport {
                    x: bounds.x,
                    y: if height != 0 {
                        scale.y
                    } else {
                        bounds.y
                    },
                    width: bounds.width,
                    height: if height != 0 {
                        scale.height
                    } else {
                        bounds.height
                    },
                    scale: scale.scale,
                },
            ),
            data,
            Some(device_of(params)),
            reply,
        ) == done(image),
{
    broadcast use same_is_equal;

    reveal_with_fuel(bind, 6);
    shot_is_a_picture(element_shot(params, bounds, metrics, Some(scale)), data, image, reply);
}

/// A session captures an image with what it is told, and yields what the data of the image
/// encodes. Data that encodes nothing is an error.
pub proof fn session_captures_as_told(
    tab: &PageInner,
    params: CaptureScreenshotParams,
    step: Step<Chain<Await<String>, Decode>, Vec<u8>>,
    data: Seq<char>,
)
    requires
        call_ensures(PageInner::screenshot, (tab, params), step),
    ensures
        remaining(step).sends(
            CommandView::CaptureScreenshot(params),
            ReplyView::Text(data),
        ) == if base64_decoded(data) is Some {
            done(base64_decoded(data)->0)
        } else {
            fail(ErrorView::Decode)
        },
{
    reveal_with_fuel(bind, 2);
}

/// A screenshot that is saved is the screenshot that is taken: once the image is there, it is
/// written to the file as it is, and yielded.
pub proof fn saved_screenshot_is_the_screenshot(
    page: &Page,
    element: &Element,
    params: ScreenshotParams,
    output: String,
    of_page: Step<ShootPage, Vec<u8>>,
    page_saved: Step<Chain<ShootPage, Save>, Vec<u8>>,
    of_element: Step<ShootElement, Vec<u8>>,
    element_saved: Step<Chain<ShootElement, Save>, Vec<u8>>,
)
    requires
        call_ensures(Page::screenshot, (page, params), of_page),
        call_ensures(Page::save_screenshot, (page, params, output), page_saved),
        call_ensures(Element::screenshot, (element, params), of_element),
        call_ensures(Element::save_screenshot, (element, params, output), element_saved),
    ensures
        exists|save: spec_fn(Seq<u8>) -> Prog<Seq<u8>>|
            {
                &&& remaining(page_saved) == bind(remaining(of_page), save)
                &&& remaining(element_saved) == #[trigger] bind(remaining(of_element), save)
                &&& forall|image: Seq<u8>, written: ReplyView| #[trigger]
                    save(image).asks(
                        RequestView::Write { path: output@, contents: image },
                        written,
                    ) == done(image)
            },
{
    broadcast use same_is_equal;

    let save = |image: Seq<u8>| save_op(output@, image);
    reveal_with_fuel(bind, 2);
    assert forall|image: Seq<u8>, written: ReplyView| #[trigger]
        save(image).asks(RequestView::Write { path: output@, contents: image }, written) == done(
            image,
        ) by {
    }
    assert(remaining(page_saved) == bind(remaining(of_page), save));
    assert(remaining(element_saved) == bind(remaining(of_element), save));
}

/// A page is printed with what is told, and what the data encodes is yielded. Data that
/// encodes nothing is an error. What is saved is what is printed.
pub proof fn page_is_printed(
    page: &Page,
    params: PrintToPdfParams,
    output: String,
    step: Step<Chain<Await<String>, Decode>, Vec<u8>>,
    saved: Step<Chain<Chain<Await<String>, Decode>, Save>, Vec<u8>>,
    data: Seq<char>,
    written: ReplyView,
)
    requires
        call_ensures(Page::pdf, (page, params), step),
        call_ensures(Page::save_pdf, (page, params, output), saved),
    ensures
        base64_decoded(data) is Some ==> remaining(step).sends(
            CommandView::PrintToPdf(params.deep_view()),
            ReplyView::Text(data),
        ) == done(base64_decoded(data)->0),
        base64_decoded(data) is Some ==> remaining(saved).sends(
            CommandView::PrintToPdf(params.deep_view()),
            ReplyView::Text(data),
        ).asks(
            RequestView::Write { path: output@, contents: base64_decoded(data)->0 },
            written,
        ) == done(base64_decoded(data)->0),
        base64_decoded(data) is None ==> remaining(step).sends(
            CommandView::PrintToPdf(params.deep_view()),
            ReplyView::Text(data),
        ) == fail::<Seq<u8>>(ErrorView::Decode),
{
    reveal_with_fuel(bind, 4);
}

/// What a screenshot's own methods say of it is what it is taken with.
pub proof fn parameters_say_what_is_taken(
    params: ScreenshotParams,
    region: page::Viewport,
    device: SetDeviceMetricsOverrideParams,
    full_page: bool,
    omit_background: bool,
)
    requires
        call_ensures(ScreenshotParams::viewport, (&params,), region),
        call_ensures(ScreenshotParams::device_metrics, (&params,), device),
        call_ensures(ScreenshotParams::full_page, (&params,), full_page),
        call_ensures(ScreenshotParams::omit_background, (&params,), omit_background),
    ensures
        region.x == Num::Whole(0) && region.y == Num::Whole(0) && region.scale == Num::Whole(1),
        region.width == Num::Whole(screen_of(params).width as i64),
        region.height == Num::Whole(screen_of(params).height as i64),
        device == device_of(params),
        full_page <==> params.full_page == Some(true),
        omit_background <==> leaves_background_out(params),
{
}

} // verus!
