//! What is taken where nothing is given, and what stands for what.
use vstd::prelude::*;

use crate::cdp::emulation::SetDeviceMetricsOverrideParams;
use crate::cdp::fetch;
use crate::cdp::network;
use crate::cdp::page;
use crate::cdp::page::CaptureScreenshotParams;
use crate::cdp::runtime::{CallFunctionOnParams, EvaluateParams, ExecutionContextId};
use crate::cdp::target::CreateTargetParams;
use crate::error::{CdpError, ErrorView};
use crate::handler::page::PageInner;
use crate::handler::viewport::Viewport;
use crate::layout::BoundingBox;
use crate::number::Num;
use crate::page::Page;
use crate::screenshot::ScreenshotParams;
use crate::text::{decimal, decimal_round_trip, is_digit};

verus! {

/// Where no screen is given, it has 800 by 600 pixels, and is neither that of a mobile device nor
/// on its side nor one to touch. Where nothing is given of a screenshot, nothing of it is set.
/// A target of which nothing is given shows a blank page.
pub proof fn nothing_given(
    screen: Viewport,
    capture: CaptureScreenshotParams,
    screenshot: ScreenshotParams,
    target: CreateTargetParams,
)
    requires
        call_ensures(<Viewport as Default>::default, (), screen),
        call_ensures(<CaptureScreenshotParams as Default>::default, (), capture),
        call_ensures(<ScreenshotParams as Default>::default, (), screenshot),
        call_ensures(<CreateTargetParams as Default>::default, (), target),
    ensures
        screen.width == 800 && screen.height == 600,
        screen.device_scale_factor is None,
        !screen.emulating_mobile && !screen.is_landscape && !screen.has_touch,
        capture.format is None && capture.quality is None && capture.clip is None,
        capture.from_surface is None && capture.capture_beyond_viewport is None,
        screenshot.capture_screenshot_params == capture,
        screenshot.viewport is None && screenshot.full_page is None,
        screenshot.omit_background is None && screenshot.screenshot_dimensions is None,
        target.url@ == "about:blank"@,
        target.deep_view().width is None && target.deep_view().height is None,
        target.deep_view().browser_context_id is None,
        target.deep_view().enable_begin_frame_control is None,
        target.deep_view().new_window is None && target.deep_view().background is None,
{
    assert(target.deep_view().url == "about:blank"@);
}

/// A screen is shown by a device of its size, at its scale or else one to one, and shows the
/// region of its size from the upper left corner on. A bounding box covers the region that it
/// is. A screenshot that is told only what the page is told is told just that.
pub proof fn screens_and_regions(
    screen: Viewport,
    bounds: BoundingBox,
    capture: CaptureScreenshotParams,
    device: SetDeviceMetricsOverrideParams,
    region: page::Viewport,
    covered: page::Viewport,
    screenshot: ScreenshotParams,
)
    requires
        call_ensures(
            <SetDeviceMetricsOverrideParams as From<Viewport>>::from,
            (screen,),
            device,
        ),
        call_ensures(<page::Viewport as From<Viewport>>::from, (screen,), region),
        call_ensures(<page::Viewport as From<BoundingBox>>::from, (bounds,), covered),
        call_ensures(
            <ScreenshotParams as From<CaptureScreenshotParams>>::from,
            (capture,),
            screenshot,
        ),
    ensures
        device.width == screen.width && device.height == screen.height,
        device.mobile == screen.emulating_mobile,
        device.device_scale_factor == if screen.device_scale_factor is Some {
            screen.device_scale_factor->0
        } else {
            Num::Whole(1)
        },
        region.x == Num::Whole(0) && region.y == Num::Whole(0) && region.scale == Num::Whole(1),
        region.width == Num::Whole(screen.width as i64),
        region.height == Num::Whole(screen.height as i64),
        covered.x == bounds.x && covered.y == bounds.y,
        covered.width == bounds.width && covered.height == bounds.height,
        covered.scale == Num::Whole(1),
        screenshot.capture_screenshot_params == capture,
        screenshot.viewport is None && screenshot.full_page is None,
        screenshot.omit_background is None && screenshot.screenshot_dimensions is None,
{
}

/// An expression that is submitted as a function is its declaration, and all that can be told of
/// a call is told as it was of the evaluation. It is called on no object and without arguments.
pub proof fn expression_becomes_a_call(params: EvaluateParams, call: CallFunctionOnParams)
    requires
        call_ensures(<CallFunctionOnParams as From<EvaluateParams>>::from, (params,), call),
    ensures
        call.function_declaration@ == params.expression@,
        call.object_id is None && call.arguments is None && call.throw_on_side_effect is None,
        call.silent == params.silent,
        call.return_by_value == params.return_by_value,
        call.generate_preview == params.generate_preview,
        call.user_gesture == params.user_gesture,
        call.await_promise == params.await_promise,
        call.execution_context_id == params.context_id,
        call.object_group == params.object_group,
        call.unique_context_id == params.unique_context_id,
        call.serialization_options == params.serialization_options,
{
}

/// A context is written as the number that it is, and read back from that. A text that is no
/// number that fits is read as the context 0.
pub proof fn contexts_are_written_and_read(
    id: ExecutionContextId,
    written: String,
    read: ExecutionContextId,
    text: String,
    named: ExecutionContextId,
    i: int,
)
    requires
        call_ensures(<String as From<ExecutionContextId>>::from, (id,), written),
        call_ensures(<ExecutionContextId as From<String>>::from, (written,), read),
        call_ensures(<ExecutionContextId as From<String>>::from, (text,), named),
    ensures
        read == id,
        text@.len() == 0 ==> named.0 == 0,
        (0 < i < text@.len() && !('0' <= text@[i] <= '9')) ==> named.0 == 0,
        written@ == decimal(id.0 as int),
{
    decimal_round_trip(id.0 as int);
    if 0 < i < text@.len() && !('0' <= text@[i] <= '9') {
        assert(text@.skip(1)[i - 1] == text@[i]);
        assert(!is_digit(text@[i]));
    }
}

/// The ids of a request keep their text, whichever domain names it.
pub proof fn request_ids_keep_their_text(
    paused: fetch::RequestId,
    requested: network::RequestId,
    intercepted: network::InterceptionId,
    paused_as_requested: network::RequestId,
    paused_as_intercepted: network::InterceptionId,
    requested_as_paused: fetch::RequestId,
    requested_as_intercepted: network::InterceptionId,
    intercepted_as_paused: fetch::RequestId,
    intercepted_as_requested: network::RequestId,
)
    requires
        call_ensures(
            <network::RequestId as From<fetch::RequestId>>::from,
            (paused,),
            paused_as_requested,
        ),
        call_ensures(
            <network::InterceptionId as From<fetch::RequestId>>::from,
            (paused,),
            paused_as_intercepted,
        ),
        call_ensures(
            <fetch::RequestId as From<network::RequestId>>::from,
            (requested,),
            requested_as_paused,
        ),
        call_ensures(
            <network::InterceptionId as From<network::RequestId>>::from,
            (requested,),
            requested_as_intercepted,
        ),
        call_ensures(
            <fetch::RequestId as From<network::InterceptionId>>::from,
            (intercepted,),
            intercepted_as_paused,
        ),
        call_ensures(
            <network::RequestId as From<network::InterceptionId>>::from,
            (intercepted,),
            intercepted_as_requested,
        ),
    ensures
        paused_as_requested.0 == paused.0,
        paused_as_intercepted.0 == paused.0,
        requested_as_paused.0 == requested.0,
        requested_as_intercepted.0 == requested.0,
        intercepted_as_paused.0 == intercepted.0,
        intercepted_as_requested.0 == intercepted.0,
{
}

/// An error that consists of a message is that message, and a page is what its session is.
pub proof fn messages_and_pages(text: &str, error: CdpError, inner: PageInner, page: Page)
    requires
        call_ensures(CdpError::msg, (text,), error),
        call_ensures(<Page as From<PageInner>>::from, (inner,), page),
    ensures
        error is ChromeMessage,
        error->ChromeMessage_0@ == text@,
        page.inner == inner,
{
    assert(error.deep_view() == ErrorView::ChromeMessage(text@));
}

} // verus!
