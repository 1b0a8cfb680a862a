//! Values that are put together, converted, shown and read.
use vstd::prelude::*;

use crate::cdp::convert::shown_frames;
use crate::cdp::input::{
    DispatchKeyEventParams, DispatchKeyEventType, DispatchMouseEventParams, DispatchMouseEventType,
};
use crate::cdp::network::{
    CookieParam, CookieParamView, DeleteCookiesParams, SetUserAgentOverrideParams,
    SetUserAgentOverrideParamsView,
};
use crate::cdp::page;
use crate::cdp::page::{
    AddScriptToEvaluateOnNewDocumentParams, AddScriptToEvaluateOnNewDocumentParamsView,
    CaptureScreenshotFormat, CaptureScreenshotParams, NavigateParams, NavigateParamsView,
};
use crate::cdp::runtime::{
    CallFunctionOnParams, CallFunctionOnParamsView, EvaluateParams, EvaluateParamsView,
    ExceptionDetails, StackTrace,
};
use crate::element::Element;
use crate::error::{CdpError, ErrorView};
use crate::handler::viewport::Viewport;
use crate::js::EvaluationResult;
use crate::json::{json_bytes, json_string, Json};
use crate::layout::{ElementQuad, Point};
use crate::number::Num;
use crate::page::{continue_wait, WaitAction, WaitEvent};
use crate::screenshot::{ScreenshotParams, ScreenshotParamsBuilder};
use crate::text::decimal;

verus! {

// What is made with only what is necessary.

/// A cookie that is made of a name and a value has these, and nothing else is set.
pub proof fn cookie_has_its_name_and_value(name: String, value: String, cookie: CookieParam)
    requires
        call_ensures(CookieParam::new, (name, value), cookie),
    ensures
        cookie.deep_view() == (CookieParamView {
            name: name@,
            value: value@,
            url: None,
            domain: None,
            path: None,
            secure: None,
            http_only: None,
            same_site: None,
            expires: None,
            priority: None,
            same_party: None,
            source_scheme: None,
            source_port: None,
            partition_key: None,
        }),
{
}

/// A navigation that is made of a URL, a script that is made of its source and a user agent that
/// is made of its name have these, and nothing else is set.
pub proof fn parameters_have_what_they_are_made_of(
    text: String,
    navigation: NavigateParams,
    script: AddScriptToEvaluateOnNewDocumentParams,
    agent: SetUserAgentOverrideParams,
)
    requires
        call_ensures(NavigateParams::new, (text,), navigation),
        call_ensures(AddScriptToEvaluateOnNewDocumentParams::new, (text,), script),
        call_ensures(SetUserAgentOverrideParams::new, (text,), agent),
    ensures
        navigation.deep_view() == (NavigateParamsView {
            url: text@,
            referrer: None,
            transition_type: None,
            frame_id: None,
            referrer_policy: None,
        }),
        script.deep_view() == (AddScriptToEvaluateOnNewDocumentParamsView {
            source: text@,
            world_name: None,
            include_command_line_api: None,
        }),
        agent.deep_view() == (SetUserAgentOverrideParamsView {
            user_agent: text@,
            accept_language: None,
            platform: None,
            user_agent_metadata: None,
        }),
{
}

/// An evaluation that is made of an expression and a call that is made of a declaration have
/// these, and nothing else is set.
pub proof fn scripts_have_what_they_are_made_of(
    text: String,
    evaluation: EvaluateParams,
    call: CallFunctionOnParams,
)
    requires
        call_ensures(EvaluateParams::new, (text,), evaluation),
        call_ensures(CallFunctionOnParams::new, (text,), call),
    ensures
        evaluation.deep_view() == (EvaluateParamsView {
            expression: text@,
            object_group: None,
            include_command_line_api: None,
            silent: None,
            context_id: None,
            return_by_value: None,
            generate_preview: None,
            user_gesture: None,
            await_promise: None,
            throw_on_side_effect: None,
            timeout: None,
            disable_breaks: None,
            repl_mode: None,
            allow_unsafe_eval_blocked_by_csp: None,
            unique_context_id: None,
            serialization_options: None,
            eval_as_function_fallback: None,
        }),
        call.deep_view() == (CallFunctionOnParamsView {
            function_declaration: text@,
            object_id: None,
            arguments: None,
            silent: None,
            return_by_value: None,
            generate_preview: None,
            user_gesture: None,
            await_promise: None,
            execution_context_id: None,
            object_group: None,
            throw_on_side_effect: None,
            unique_context_id: None,
            serialization_options: None,
        }),
{
}

/// An event of the mouse that is made of a kind and a place has these, and no button. An event
/// that releases a key is the event of that key, but for its kind.
pub proof fn events_have_what_they_are_made_of(
    kind: DispatchMouseEventType,
    x: Num,
    y: Num,
    mouse: DispatchMouseEventParams,
    pressed: DispatchKeyEventParams,
    released: DispatchKeyEventParams,
)
    requires
        call_ensures(DispatchMouseEventParams::new, (kind, x, y), mouse),
        call_ensures(DispatchKeyEventParams::released, (pressed,), released),
    ensures
        mouse.kind == kind && mouse.x == x && mouse.y == y,
        mouse.button is None && mouse.click_count is None,
        released.kind == DispatchKeyEventType::KeyUp,
        released.deep_view().modifiers == pressed.deep_view().modifiers,
        released.deep_view().text == pressed.deep_view().text,
        released.deep_view().unmodified_text == pressed.deep_view().unmodified_text,
        released.deep_view().code == pressed.deep_view().code,
        released.deep_view().key == pressed.deep_view().key,
        released.deep_view().windows_virtual_key_code
            == pressed.deep_view().windows_virtual_key_code,
        released.deep_view().native_virtual_key_code == pressed.deep_view().native_virtual_key_code,
        released.deep_view().location == pressed.deep_view().location,
{
    assert(released.deep_view().kind == DispatchKeyEventType::KeyUp);
}

/// What a cookie replaces is known by the name, the URL, the domain, the path and the partition
/// of that cookie.
pub proof fn cookie_replaces_its_like(cookie: CookieParam, deletion: DeleteCookiesParams)
    requires
        call_ensures(DeleteCookiesParams::from_cookie, (&cookie,), deletion),
    ensures
        deletion.name@ == cookie.name@,
        deletion.url.deep_view() == cookie.url.deep_view(),
        deletion.domain.deep_view() == cookie.domain.deep_view(),
        deletion.path.deep_view() == cookie.path.deep_view(),
        deletion.partition_key.deep_view() == cookie.partition_key.deep_view(),
{
    assert(deletion.deep_view().name == cookie.deep_view().name);
    assert(deletion.deep_view().url == cookie.deep_view().url);
    assert(deletion.deep_view().domain == cookie.deep_view().domain);
    assert(deletion.deep_view().path == cookie.deep_view().path);
    assert(deletion.deep_view().partition_key == cookie.deep_view().partition_key);
}

/// The quad of eight coordinates has its corners in turn, from the upper left one clockwise.
pub proof fn quad_has_its_corners(numbers: Vec<Num>, quad: ElementQuad)
    requires
        numbers@.len() == 8,
        call_ensures(ElementQuad::from_quad, (&numbers,), quad),
    ensures
        quad.top_left == (Point { x: numbers@[0], y: numbers@[1] }),
        quad.top_right == (Point { x: numbers@[2], y: numbers@[3] }),
        quad.bottom_right == (Point { x: numbers@[4], y: numbers@[5] }),
        quad.bottom_left == (Point { x: numbers@[6], y: numbers@[7] }),
{
}

// How a screenshot is put together.

/// A builder starts with nothing set, and what is built is what was set last.
pub proof fn builder_builds_what_is_set(
    builder: ScreenshotParamsBuilder,
    start: ScreenshotParamsBuilder,
    built: ScreenshotParams,
)
    requires
        call_ensures(ScreenshotParams::builder, (), start),
        call_ensures(ScreenshotParamsBuilder::build, (builder,), built),
    ensures
        start.capture_screenshot_params.format is None,
        start.capture_screenshot_params.quality is None,
        start.capture_screenshot_params.clip is None,
        start.capture_screenshot_params.from_surface is None,
        start.capture_screenshot_params.capture_beyond_viewport is None,
        start.viewport is None,
        start.full_page is None,
        start.omit_background is None,
        start.screenshot_dimensions is None,
        built.capture_screenshot_params == builder.capture_screenshot_params,
        built.viewport == builder.viewport,
        built.full_page == builder.full_page,
        built.omit_background == builder.omit_background,
        built.screenshot_dimensions == builder.screenshot_dimensions,
{
    assert(start.built().capture_screenshot_params == start.capture_screenshot_params);
    assert(start.built().viewport == start.viewport);
    assert(start.built().full_page == start.full_page);
    assert(start.built().omit_background == start.omit_background);
    assert(start.built().screenshot_dimensions == start.screenshot_dimensions);
}

/// Whether two builders agree on what the page is told.
pub open spec fn tell_the_page_the_same(
    a: ScreenshotParamsBuilder,
    b: ScreenshotParamsBuilder,
) -> bool {
    a.capture_screenshot_params == b.capture_screenshot_params
}

/// Whether two builders agree on all but what the page is told.
pub open spec fn agree_beside_the_page(
    a: ScreenshotParamsBuilder,
    b: ScreenshotParamsBuilder,
) -> bool {
    &&& a.viewport == b.viewport
    &&& a.full_page == b.full_page
    &&& a.omit_background == b.omit_background
    &&& a.screenshot_dimensions == b.screenshot_dimensions
}

/// Each setting that the page is told sets what it is named after, and nothing else.
pub proof fn builder_sets_what_the_page_is_told(
    builder: ScreenshotParamsBuilder,
    format: CaptureScreenshotFormat,
    quality: i64,
    clip: page::Viewport,
    flag: bool,
    with_format: ScreenshotParamsBuilder,
    with_quality: ScreenshotParamsBuilder,
    with_clip: ScreenshotParamsBuilder,
    with_surface: ScreenshotParamsBuilder,
    beyond: ScreenshotParamsBuilder,
)
    requires
        call_ensures(ScreenshotParamsBuilder::format, (builder, format), with_format),
        call_ensures(ScreenshotParamsBuilder::quality, (builder, quality), with_quality),
        call_ensures(ScreenshotParamsBuilder::clip, (builder, clip), with_clip),
        call_ensures(ScreenshotParamsBuilder::from_surface, (builder, flag), with_surface),
        call_ensures(ScreenshotParamsBuilder::capture_beyond_viewport, (builder, flag), beyond),
    ensures
        ({
            let told = builder.capture_screenshot_params;
            &&& with_format.capture_screenshot_params == (CaptureScreenshotParams {
                format: Some(format),
                quality: told.quality,
                clip: told.clip,
                from_surface: told.from_surface,
                capture_beyond_viewport: told.capture_beyond_viewport,
            })
            &&& with_quality.capture_screenshot_params == (CaptureScreenshotParams {
                format: told.format,
                quality: Some(quality),
                clip: told.clip,
                from_surface: told.from_surface,
                capture_beyond_viewport: told.capture_beyond_viewport,
            })
            &&& with_clip.capture_screenshot_params == (CaptureScreenshotParams {
                format: told.format,
                quality: told.quality,
                clip: Some(clip),
                from_surface: told.from_surface,
                capture_beyond_viewport: told.capture_beyond_viewport,
            })
            &&& with_surface.capture_screenshot_params == (CaptureScreenshotParams {
                format: told.format,
                quality: told.quality,
                clip: told.clip,
                from_surface: Some(flag),
                capture_beyond_viewport: told.capture_beyond_viewport,
            })
            &&& beyond.capture_screenshot_params == (CaptureScreenshotParams {
                format: told.format,
                quality: told.quality,
                clip: told.clip,
                from_surface: told.from_surface,
                capture_beyond_viewport: Some(flag),
            })
        }),
        agree_beside_the_page(with_format, builder),
        agree_beside_the_page(with_quality, builder),
        agree_beside_the_page(with_clip, builder),
        agree_beside_the_page(with_surface, builder),
        agree_beside_the_page(beyond, builder),
{
}

/// Each setting beside what the page is told sets what it is named after, and nothing else.
pub proof fn builder_sets_the_rest(
    builder: ScreenshotParamsBuilder,
    viewport: Viewport,
    flag: bool,
    dimensions: (i64, i64),
    with_viewport: ScreenshotParamsBuilder,
    full: ScreenshotParamsBuilder,
    transparent: ScreenshotParamsBuilder,
    sized: ScreenshotParamsBuilder,
)
    requires
        call_ensures(ScreenshotParamsBuilder::viewport, (builder, viewport), with_viewport),
        call_ensures(ScreenshotParamsBuilder::full_page, (builder, flag), full),
        call_ensures(ScreenshotParamsBuilder::omit_background, (builder, flag), transparent),
        call_ensures(ScreenshotParamsBuilder::screenshot_dimensions, (builder, dimensions), sized),
    ensures
        tell_the_page_the_same(with_viewport, builder),
        tell_the_page_the_same(full, builder),
        tell_the_page_the_same(transparent, builder),
        tell_the_page_the_same(sized, builder),
        with_viewport.viewport == Some(viewport),
        with_viewport.full_page == builder.full_page,
        with_viewport.omit_background == builder.omit_background,
        with_viewport.screenshot_dimensions == builder.screenshot_dimensions,
        full.viewport == builder.viewport,
        full.full_page == Some(flag),
        full.omit_background == builder.omit_background,
        full.screenshot_dimensions == builder.screenshot_dimensions,
        transparent.viewport == builder.viewport,
        transparent.full_page == builder.full_page,
        transparent.omit_background == Some(flag),
        transparent.screenshot_dimensions == builder.screenshot_dimensions,
        sized.viewport == builder.viewport,
        sized.full_page == builder.full_page,
        sized.omit_background == builder.omit_background,
        sized.screenshot_dimensions == Some(dimensions),
{
}

// What is shown and read.

/// A stack is shown with its description, on a line of its own, where it has one, and then with
/// its frames: one frame more is shown as one line more, with its function, its URL, its line
/// and its column.
pub proof fn stack_is_shown_by_lines(
    stack: StackTrace,
    longer: StackTrace,
    shown: String,
    shown_longer: String,
)
    requires
        call_ensures(StackTrace::fmt, (&stack,), shown),
        call_ensures(StackTrace::fmt, (&longer,), shown_longer),
        longer.description.deep_view() == stack.description.deep_view(),
        longer.call_frames@.len() == stack.call_frames@.len() + 1,
        forall|i: int|
            0 <= i < stack.call_frames@.len() ==> (#[trigger] longer.call_frames@[i]).deep_view()
                == stack.call_frames@[i].deep_view(),
    ensures
        stack.call_frames@.len() == 0 ==> shown@ == if stack.description is Some {
            stack.description->0@ + "\n"@
        } else {
            Seq::empty()
        },
        ({
            let last = longer.call_frames@[stack.call_frames@.len() as int];
            shown_longer@ == shown@ + (last.function_name@ + "@"@ + last.url@ + ":"@ + decimal(
                last.line_number as int,
            ) + ":"@ + decimal(last.column_number as int) + "\n"@)
        }),
{
    let frames = stack.call_frames.deep_view();
    let more = longer.call_frames.deep_view();
    assert(more.drop_last() =~= frames);
    assert(more.last() == longer.call_frames@[stack.call_frames@.len() as int].deep_view());
    let last = longer.call_frames@[stack.call_frames@.len() as int];
    let line = last.function_name@ + "@"@ + last.url@ + ":"@ + decimal(last.line_number as int)
        + ":"@ + decimal(last.column_number as int) + "\n"@;
    assert(shown_frames(more) == shown_frames(frames) + line);
    assert(shown_longer@ =~= shown@ + line);
    if stack.call_frames@.len() == 0 {
        assert(shown_frames(frames) =~= Seq::<char>::empty());
        if let Some(description) = stack.description {
            assert(shown@ =~= description@ + "\n"@);
        } else {
            assert(shown@ =~= Seq::<char>::empty());
        }
    }
}

/// An exception is shown with its line, its column and its text, and then with its stack, where
/// it has one.
pub proof fn exception_is_shown_with_its_stack(
    details: ExceptionDetails,
    shown: String,
    shown_stack: String,
)
    requires
        call_ensures(ExceptionDetails::fmt, (&details,), shown),
        details.stack_trace is Some ==> call_ensures(
            StackTrace::fmt,
            (&details.stack_trace->0,),
            shown_stack,
        ),
    ensures
        ({
            let head = decimal(details.line_number as int) + ":"@ + decimal(
                details.column_number as int,
            ) + ": "@ + details.text@ + "\n"@;
            shown@ == if details.stack_trace is Some {
                head + shown_stack@
            } else {
                head
            }
        }),
{
}

/// The value of a script is read as a text where it is one, and as bytes where it is a text or a
/// list of bytes. Anything else is an error, and so is a value that is not there.
pub proof fn value_is_read_as_text_or_bytes(
    result: EvaluationResult,
    text: Result<String, CdpError>,
    contents: Result<Vec<u8>, CdpError>,
    value: Option<&Json>,
)
    requires
        call_ensures(EvaluationResult::into_string, (result,), text),
        call_ensures(EvaluationResult::into_bytes, (result,), contents),
        call_ensures(EvaluationResult::value, (&result,), value),
    ensures
        match result.inner.value {
            Some(json) => {
                &&& value is Some && value.deep_view() == Some(json.0@)
                &&& match json_string(json.0@) {
                    Some(t) => text is Ok && text->Ok_0@ == t,
                    None => text is Err && text->Err_0 is Serde,
                }
                &&& match json_bytes(json.0@) {
                    Some(b) => contents is Ok && contents->Ok_0.deep_view() == b,
                    None => contents is Err && contents->Err_0 is Serde,
                }
            },
            None => {
                &&& value is None
                &&& text is Err && text->Err_0 is Serde
                &&& contents is Err && contents->Err_0 is Serde
            },
        },
{
    assert(result.deep_view().value == result.inner.value.deep_view());
    if text is Err {
        assert(text->Err_0.deep_view() == ErrorView::Serde);
    }
    if contents is Err {
        assert(contents->Err_0.deep_view() == ErrorView::Serde);
    }
}

/// The wait for an element ends with the element once an attempt finds it, and with an error that
/// says so once the time is up. An attempt that fails ends nothing.
pub proof fn wait_ends_with_the_element(
    element: Element,
    error: CdpError,
    text: String,
    found: WaitAction,
    failed: WaitAction,
    expired: WaitAction,
)
    requires
        call_ensures(continue_wait, (WaitEvent::Attempt(Ok(element)),), found),
        call_ensures(continue_wait, (WaitEvent::Attempt(Err(error)),), failed),
        call_ensures(continue_wait, (WaitEvent::Expired(text),), expired),
    ensures
        found == WaitAction::Found(element),
        failed is LookAgain,
        expired is Failed,
        expired->Failed_0 is ChromeMessage,
        expired->Failed_0->ChromeMessage_0@ == text@,
{
    assert(expired->Failed_0.deep_view() == ErrorView::ChromeMessage(text@));
}

} // verus!
