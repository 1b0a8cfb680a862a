//! The pieces that operations are made of.
use vstd::prelude::*;

use crate::cdp::command::CommandView;
use crate::cdp::dom::Node;
use crate::cdp::page::{
    FrameId, GetFrameTreeReturns, GetFrameTreeReturnsView, GetLayoutMetricsReturns,
    GetLayoutMetricsReturnsView,
};
use crate::cdp::runtime::{CallFunctionOnReturns, ExecutionContextId, RemoteObject};
use crate::cdp::target::{SessionId, TargetId};
use crate::conversation::cookies::{can_have_cookies, refusal};
use crate::conversation::elements::last_entry_counts;
use crate::cookies::validate_cookie_url;
use crate::element::{flat_attributes, pair_up, pairs, select_names};
use crate::error::CdpError;
use crate::flow::{done, remaining, Await, Step};
use crate::handler::page::{finish_evaluation, PageInner};
use crate::js::EvaluationResult;
use crate::json::Json;
use crate::layout::BoundingBox;
use crate::names::NameMap;
use crate::page::Page;
use crate::protocol::{DomWorldKind, ReplyView, RequestView, Rescaled};
use crate::screenshot::{shoot_element, shoot_page, ScreenshotParams, Shot};
use crate::text::{characters, one_character, same_text, starts_with};

verus! {

/// A text begins with another where that stands at its start, character by character. Two texts
/// are the same where they have the same characters.
pub proof fn texts_are_compared(
    text: &str,
    other: &str,
    begins: bool,
    same: bool,
    chars: Vec<char>,
    c: char,
    single: String,
)
    requires
        call_ensures(starts_with, (text, other), begins),
        call_ensures(same_text, (text, other), same),
        call_ensures(characters, (text,), chars),
        call_ensures(one_character, (c,), single),
    ensures
        begins <==> other@.len() <= text@.len() && forall|i: int|
            0 <= i < other@.len() ==> #[trigger] text@[i] == other@[i],
        same <==> other@.len() == text@.len() && begins,
        chars@.len() == text@.len(),
        forall|i: int| 0 <= i < text@.len() ==> #[trigger] chars@[i] == text@[i],
        single@.len() == 1 && single@[0] == c,
{
    if other@.len() <= text@.len() && (forall|i: int|
        0 <= i < other@.len() ==> #[trigger] text@[i] == other@[i]) {
        assert(other@ =~= text@.subrange(0, other@.len() as int));
    }
    if begins {
        assert(other@ == text@.subrange(0, other@.len() as int));
        assert forall|i: int| 0 <= i < other@.len() implies #[trigger] text@[i] == other@[i] by {
            assert(text@.subrange(0, other@.len() as int)[i] == text@[i]);
        }
    }
    if other@.len() == text@.len() && begins {
        assert(text@ =~= other@);
    }
    if same {
        assert(other@ =~= text@.subrange(0, other@.len() as int));
    }
}

/// A URL is refused for cookies where it can have none, with the reason, and nowhere else.
pub proof fn url_is_refused_where_it_has_no_cookies(url: &str, result: Result<(), CdpError>)
    requires
        call_ensures(validate_cookie_url, (url,), result),
    ensures
        result is Ok <==> can_have_cookies(url@),
        result is Err ==> result->Err_0.deep_view() == refusal(url@),
{
}

/// The attributes of a node are those that it lists. Of such a list, the names stand at the even
/// places, and each is paired with the value that follows it.
pub proof fn attributes_are_taken_apart(
    node: Node,
    listed: Vec<String>,
    flat: Vec<String>,
    names: Vec<String>,
    map: NameMap<String>,
    i: int,
)
    requires
        call_ensures(flat_attributes, (node,), listed),
        call_ensures(select_names, (&flat,), names),
        call_ensures(pair_up, (&flat,), map),
    ensures
        listed.deep_view() == if node.attributes is Some {
            node.attributes->0.deep_view()
        } else {
            Seq::empty()
        },
        2 * names@.len() == flat@.len() || 2 * names@.len() == flat@.len() + 1,
        0 <= i < names@.len() ==> names@[i]@ == flat@[2 * i]@,
        ({
            &&& 0 <= 2 * i < flat@.len() - 1
            &&& forall|j: int|
                i < j && 2 * j < flat@.len() - 1 ==> flat@[#[trigger] (2 * j)]@ != flat@[2 * i]@
        }) ==> map.deep_view().contains_key(flat@[2 * i]@) && map.deep_view()[flat@[2 * i]@]
            == flat@[2 * i + 1]@,
{
    assert(node.deep_view().attributes == node.attributes.deep_view());
    let all = flat.deep_view();
    let chosen = names.deep_view();
    assert(chosen.len() == names@.len());
    if 0 <= i < names@.len() {
        assert(chosen[i] == names@[i]@);
    }
    if 0 <= 2 * i < flat@.len() - 1 && (forall|j: int|
        i < j && 2 * j < flat@.len() - 1 ==> flat@[#[trigger] (2 * j)]@ != flat@[2 * i]@) {
        let entries = pairs(all);
        assert forall|j: int| i < j < entries.len() implies (#[trigger] entries[j]).0
            != flat@[2 * i]@ by {
            assert(flat@[2 * j]@ != flat@[2 * i]@);
        }
        last_entry_counts(entries, flat@[2 * i]@, i);
    }
}

/// What comes of a script that returned is the exception that it threw, or else the value.
pub proof fn evaluation_is_finished(
    returned: CallFunctionOnReturns,
    result: Result<EvaluationResult, CdpError>,
)
    requires
        call_ensures(finish_evaluation, (returned,), result),
    ensures
        returned.exception_details is None ==> result is Ok && result->Ok_0.inner
            == returned.result,
        returned.exception_details is Some ==> result is Err
            && result->Err_0 is JavascriptException && *result->Err_0->JavascriptException_0
            == returned.exception_details->0,
{
}

/// A shot of a page, and one of an element, is taken with the format and the quality that are
/// set, from the surface or beyond the screen as it is set, of some region.
pub proof fn shots_keep_what_is_set(
    params: ScreenshotParams,
    bounds: BoundingBox,
    metrics: GetLayoutMetricsReturns,
    scale: Option<Rescaled>,
    of_page: Shot,
    of_element: Shot,
)
    requires
        call_ensures(shoot_page, (params, &metrics, scale), of_page),
        call_ensures(shoot_element, (params, bounds, &metrics, scale), of_element),
    ensures
        of_page.capture.format == params.capture_screenshot_params.format,
        of_page.capture.quality == params.capture_screenshot_params.quality,
        of_page.capture.from_surface == params.capture_screenshot_params.from_surface,
        of_page.capture.capture_beyond_viewport
            == params.capture_screenshot_params.capture_beyond_viewport,
        of_page.capture.clip is Some,
        of_page.restore is Some <==> params.full_page == Some(true),
        of_element.capture.format == params.capture_screenshot_params.format,
        of_element.capture.quality == params.capture_screenshot_params.quality,
        of_element.capture.from_surface == params.capture_screenshot_params.from_surface,
        of_element.capture.capture_beyond_viewport
            == params.capture_screenshot_params.capture_beyond_viewport,
        of_element.capture.clip is Some,
        of_element.capture.clip->0.x == bounds.x,
        of_element.capture.clip->0.width == bounds.width,
        of_element.restore is Some,
        of_element.omit_background == of_page.omit_background,
{
}

/// A page and its session have one target and one session.
pub proof fn page_is_its_session(
    page: &Page,
    target: &TargetId,
    session: &SessionId,
    target_of_tab: &TargetId,
    session_of_tab: &SessionId,
)
    requires
        call_ensures(Page::target_id, (page,), target),
        call_ensures(Page::session_id, (page,), session),
        call_ensures(PageInner::target_id, (&page.inner,), target_of_tab),
        call_ensures(PageInner::session_id, (&page.inner,), session_of_tab),
    ensures
        *target == page.inner.target_id && *session == page.inner.session_id,
        *target_of_tab == *target && *session_of_tab == *session,
{
}

/// What a session asks the page for is what it is named after, and is yielded as it is answered.
pub proof fn session_asks_the_page(
    tab: &PageInner,
    frame_id: FrameId,
    navigation: Step<Await<Json>, Json>,
    main: Step<Await<Option<ExecutionContextId>>, Option<ExecutionContextId>>,
    secondary: Step<Await<Option<ExecutionContextId>>, Option<ExecutionContextId>>,
    layout: Step<Await<GetLayoutMetricsReturns>, GetLayoutMetricsReturns>,
    tree: Step<Await<GetFrameTreeReturns>, GetFrameTreeReturns>,
    session_id: i64,
    acknowledged: Step<Await<()>, ()>,
    request: Seq<char>,
    context: Option<ExecutionContextId>,
    metrics: GetLayoutMetricsReturnsView,
    frames: GetFrameTreeReturnsView,
    reply: ReplyView,
)
    requires
        call_ensures(PageInner::wait_for_navigation, (tab,), navigation),
        call_ensures(PageInner::frame_execution_context, (tab, frame_id), main),
        call_ensures(PageInner::frame_secondary_execution_context, (tab, frame_id), secondary),
        call_ensures(PageInner::layout_metrics, (tab,), layout),
        call_ensures(PageInner::frame_tree, (tab,), tree),
        call_ensures(PageInner::screencast_frame_ack, (tab, session_id), acknowledged),
    ensures
        remaining(navigation).asks(RequestView::Navigation, ReplyView::Payload(request)) == done(
            request,
        ),
        remaining(main).asks(
            RequestView::ExecutionContext {
                frame_id: Some(frame_id.0@),
                world: DomWorldKind::Main,
            },
            ReplyView::Context(context),
        ) == done(context),
        remaining(secondary).asks(
            RequestView::ExecutionContext {
                frame_id: Some(frame_id.0@),
                world: DomWorldKind::Secondary,
            },
            ReplyView::Context(context),
        ) == done(context),
        remaining(layout).sends(CommandView::GetLayoutMetrics, ReplyView::LayoutMetrics(metrics))
            == done(metrics),
        remaining(tree).sends(CommandView::GetFrameTree, ReplyView::FrameTree(frames)) == done(
            frames,
        ),
        remaining(acknowledged).sends(CommandView::ScreencastFrameAck { session_id }, reply)
            == done(()),
{
}

/// The object that a script evaluated to has what the result has, a context is the number behind
/// it, and the dimensions of an image are those that are set.
pub proof fn parts_are_handed_out(
    result: &EvaluationResult,
    object: &RemoteObject,
    context: &ExecutionContextId,
    number: &i64,
    params: &ScreenshotParams,
    dimensions: Option<(i64, i64)>,
)
    requires
        call_ensures(EvaluationResult::object, (result,), object),
        call_ensures(ExecutionContextId::inner, (context,), number),
        call_ensures(ScreenshotParams::screenshot_dimensions, (params,), dimensions),
    ensures
        object.deep_view() == result.inner.deep_view(),
        *number == context.0,
        dimensions == params.screenshot_dimensions,
{
}

} // verus!
