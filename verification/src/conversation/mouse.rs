//! Clicks, moves of the mouse and scrolling.
use vstd::prelude::*;

use crate::cdp::command::CommandView;
use crate::cdp::dom::{BackendNodeId, Node, NodeView, Rect};
use crate::cdp::input::{DispatchMouseEventParams, DispatchMouseEventType, MouseButton};
use crate::cdp::page::GetLayoutMetricsReturnsView;
use crate::element::{first_spacious, whole_quads, Element, FindPoint, ThenClick, ThenHover};
use crate::error::ErrorView;
use crate::flow::{bind, done, fail, remaining, same_is_equal, Await, Chain, Prog, Step};
use crate::handler::page::{click_op, layout_metrics_op, scroll_op, PageInner, ScrollTo};
use crate::laws::{bind_only_asks, only_asks};
use crate::layout::{ElementQuad, Point};
use crate::number::Num;
use crate::page::{click_point_op, scroll_point_op, ClickPoint, Page, ScrollPoint};
use crate::protocol::{Measure, ReplyView, RequestView};
use crate::sequence::{sequence, Sequence};

verus! {

impl Prog<()> {
    /// What is left of an operation once it has clicked at a point: the mouse is moved there,
    /// and the left button is pressed there once and released there.
    pub open spec fn clicks(
        self,
        point: Point,
        moved: ReplyView,
        pressed: ReplyView,
        released: ReplyView,
    ) -> Prog<()> {
        self.sends(
            CommandView::DispatchMouseEvent(
                DispatchMouseEventParams {
                    kind: DispatchMouseEventType::MouseMoved,
                    x: point.x,
                    y: point.y,
                    button: None,
                    click_count: None,
                },
            ),
            moved,
        ).sends(
            CommandView::DispatchMouseEvent(
                DispatchMouseEventParams {
                    kind: DispatchMouseEventType::MousePressed,
                    x: point.x,
                    y: point.y,
                    button: Some(MouseButton::Left),
                    click_count: Some(1),
                },
            ),
            pressed,
        ).sends(
            CommandView::DispatchMouseEvent(
                DispatchMouseEventParams {
                    kind: DispatchMouseEventType::MouseReleased,
                    x: point.x,
                    y: point.y,
                    button: Some(MouseButton::Left),
                    click_count: Some(1),
                },
            ),
            released,
        )
    }
}

/// The mouse is moved to the point that is given.
pub proof fn mouse_moves_to_the_point(
    page: &Page,
    tab: &PageInner,
    point: Point,
    of_page: Step<Await<()>, ()>,
    of_tab: Step<Await<()>, ()>,
    reply: ReplyView,
)
    requires
        call_ensures(Page::move_mouse, (page, point), of_page),
        call_ensures(PageInner::move_mouse, (tab, point), of_tab),
    ensures
        remaining(of_page).sends(
            CommandView::DispatchMouseEvent(
                DispatchMouseEventParams {
                    kind: DispatchMouseEventType::MouseMoved,
                    x: point.x,
                    y: point.y,
                    button: None,
                    click_count: None,
                },
            ),
            reply,
        ) == done(()),
        remaining(of_tab) == remaining(of_page),
{
    broadcast use same_is_equal;

}

/// A click of a session is made at the point that is given, and there is nothing more to it.
pub proof fn session_clicks_at_the_point(
    tab: &PageInner,
    point: Point,
    step: Step<Sequence, ()>,
    moved: ReplyView,
    pressed: ReplyView,
    released: ReplyView,
)
    requires
        call_ensures(PageInner::click, (tab, point), step),
    ensures
        remaining(step).clicks(point, moved, pressed, released) == done(()),
{
    reveal_with_fuel(sequence, 4);
}

/// A session scrolls the rectangle that is given into view, in the document as a whole.
pub proof fn session_scrolls_to_the_rectangle(
    tab: &PageInner,
    rect: Rect,
    step: Step<Chain<Await<Node>, ScrollTo>, ()>,
    root: NodeView,
    scrolled: ReplyView,
)
    requires
        call_ensures(PageInner::scroll, (tab, rect), step),
    ensures
        remaining(step).sends(
            CommandView::GetDocument { depth: Some((-1) as i64), pierce: Some(true) },
            ReplyView::Node(root),
        ).sends(
            CommandView::ScrollIntoViewIfNeeded {
                backend_node_id: root.backend_node_id,
                rect: Some(rect),
            },
            scrolled,
        ) == done(()),
{
    reveal_with_fuel(bind, 3);
}

/// To scroll to a point of a page is to scroll the whole of its contents, moved to that
/// point, into view.
pub proof fn page_scrolls_to_the_point(
    page: &Page,
    point: Point,
    step: Step<ScrollPoint, ()>,
    metrics: GetLayoutMetricsReturnsView,
    root: NodeView,
    scrolled: ReplyView,
)
    requires
        call_ensures(Page::scroll, (page, point), step),
    ensures
        remaining(step).sends(
            CommandView::GetLayoutMetrics,
            ReplyView::LayoutMetrics(metrics),
        ).sends(
            CommandView::GetDocument { depth: Some((-1) as i64), pierce: Some(true) },
            ReplyView::Node(root),
        ).sends(
            CommandView::ScrollIntoViewIfNeeded {
                backend_node_id: root.backend_node_id,
                rect: Some(
                    Rect {
                        x: point.x,
                        y: point.y,
                        width: metrics.css_content_size.width,
                        height: metrics.css_content_size.height,
                    },
                ),
            },
            scrolled,
        ) == done(()),
{
    reveal_with_fuel(bind, 4);
}

/// A click at a point of a page scrolls to that very point, and is made at that very point.
pub proof fn page_clicks_at_the_point(
    page: &Page,
    point: Point,
    step: Step<Chain<ScrollPoint, ClickPoint>, ()>,
    metrics: GetLayoutMetricsReturnsView,
    root: NodeView,
    scrolled: ReplyView,
    moved: ReplyView,
    pressed: ReplyView,
    released: ReplyView,
)
    requires
        call_ensures(Page::click, (page, point), step),
    ensures
        remaining(step).sends(
            CommandView::GetLayoutMetrics,
            ReplyView::LayoutMetrics(metrics),
        ).sends(
            CommandView::GetDocument { depth: Some((-1) as i64), pierce: Some(true) },
            ReplyView::Node(root),
        ).sends(
            CommandView::ScrollIntoViewIfNeeded {
                backend_node_id: root.backend_node_id,
                rect: Some(
                    Rect {
                        x: point.x,
                        y: point.y,
                        width: metrics.css_content_size.width,
                        height: metrics.css_content_size.height,
                    },
                ),
            },
            scrolled,
        ).clicks(point, moved, pressed, released) == done(()),
{
    reveal_with_fuel(bind, 5);
    reveal_with_fuel(sequence, 4);
}

/// Whatever the browser answers, a click at a point of a page uses the mouse at that point
/// only, and scrolls to that point only.
pub proof fn page_click_keeps_to_the_point(point: Point)
    ensures
        only_asks(
            click_point_op(point),
            |request: RequestView|
                match request {
                    RequestView::Command(CommandView::DispatchMouseEvent(event)) => event.x
                        == point.x && event.y == point.y,
                    RequestView::Command(
                        CommandView::ScrollIntoViewIfNeeded { rect, .. },
                    ) => rect matches Some(r) && r.x == point.x && r.y == point.y,
                    _ => true,
                },
        ),
{
    let allowed = |request: RequestView|
        match request {
            RequestView::Command(CommandView::DispatchMouseEvent(event)) => event.x == point.x
                && event.y == point.y,
            RequestView::Command(CommandView::ScrollIntoViewIfNeeded { rect, .. }) => rect matches
                Some(r) && r.x == point.x && r.y == point.y,
            _ => true,
        };
    reveal_with_fuel(only_asks, 4);
    reveal_with_fuel(sequence, 4);
    assert(only_asks(click_op(point), allowed));
    let scroll = |metrics: GetLayoutMetricsReturnsView|
        scroll_op(Rect { x: point.x, y: point.y, ..metrics.css_content_size });
    assert forall|metrics: GetLayoutMetricsReturnsView|
        only_asks(#[trigger] scroll(metrics), allowed) by {
        reveal_with_fuel(bind, 3);
    }
    bind_only_asks(layout_metrics_op(), scroll, allowed);
    bind_only_asks(scroll_point_op(point), |u: ()| click_op(point), allowed);
}

/// The quads that are measured are those that have four corners, each with its corners in
/// turn, in the order in which the browser lists them.
proof fn quads_with_four_corners(quads: Seq<Seq<Num>>)
    ensures
        whole_quads(quads) == quads.filter(|quad: Seq<Num>| quad.len() == 8).map_values(
            |quad: Seq<Num>|
                ElementQuad {
                    top_left: Point { x: quad[0], y: quad[1] },
                    top_right: Point { x: quad[2], y: quad[3] },
                    bottom_right: Point { x: quad[4], y: quad[5] },
                    bottom_left: Point { x: quad[6], y: quad[7] },
                },
        ),
    decreases quads.len(),
{
    let whole = |quad: Seq<Num>| quad.len() == 8;
    let corners = |quad: Seq<Num>|
        ElementQuad {
            top_left: Point { x: quad[0], y: quad[1] },
            top_right: Point { x: quad[2], y: quad[3] },
            bottom_right: Point { x: quad[4], y: quad[5] },
            bottom_left: Point { x: quad[6], y: quad[7] },
        };
    reveal(Seq::filter);
    if quads.len() > 0 {
        quads_with_four_corners(quads.drop_last());
        assert(whole_quads(quads) =~= quads.filter(whole).map_values(corners));
    } else {
        assert(whole_quads(quads) =~= quads.filter(whole).map_values(corners));
    }
}

/// The first quad that is large enough decides where to click.
proof fn first_large_quad_decides(measures: Seq<Measure>, i: int)
    requires
        0 <= i < measures.len(),
        measures[i].spacious,
        forall|j: int| 0 <= j < i ==> !(#[trigger] measures[j]).spacious,
    ensures
        first_spacious(measures) == done(measures[i].center),
    decreases i,
{
    if i > 0 {
        assert(!measures[0].spacious);
        assert forall|j: int| 0 <= j < i - 1 implies !(#[trigger] measures.skip(1)[j]).spacious by {
            assert(measures.skip(1)[j] == measures[j + 1]);
        }
        first_large_quad_decides(measures.skip(1), i - 1);
    }
}

/// Where no quad is large enough, there is nothing to click on.
proof fn without_a_large_quad_it_fails(measures: Seq<Measure>)
    requires
        forall|j: int| 0 <= j < measures.len() ==> !(#[trigger] measures[j]).spacious,
    ensures
        first_spacious(measures) == fail::<Point>(
            ErrorView::ChromeMessage("Node is either not visible or not an HTMLElement"@),
        ),
    decreases measures.len(),
{
    if measures.len() > 0 {
        assert(!measures[0].spacious);
        assert forall|j: int| 0 <= j < measures.skip(1).len() implies !(
        #[trigger] measures.skip(1)[j]).spacious by {
            assert(measures.skip(1)[j] == measures[j + 1]);
        }
        without_a_large_quad_it_fails(measures.skip(1));
    }
}

impl<T> Prog<T> {
    /// What is left of an operation once it has had the quads of an element measured: those
    /// that have four corners, with their corners in turn.
    pub open spec fn measures(
        self,
        backend_node_id: BackendNodeId,
        quads: Seq<Seq<Num>>,
        measures: Seq<Measure>,
    ) -> Prog<T> {
        self.sends(
            CommandView::GetContentQuads { backend_node_id },
            ReplyView::Quads(quads),
        ).asks(
            RequestView::Measure {
                quads: quads.filter(|quad: Seq<Num>| quad.len() == 8).map_values(
                    |quad: Seq<Num>|
                        ElementQuad {
                            top_left: Point { x: quad[0], y: quad[1] },
                            top_right: Point { x: quad[2], y: quad[3] },
                            bottom_right: Point { x: quad[4], y: quad[5] },
                            bottom_left: Point { x: quad[6], y: quad[7] },
                        },
                ),
            },
            ReplyView::Measured(measures),
        )
    }
}

/// Whether, of the quads of an element with four corners, each is measured, and the `i`th is
/// the first that is large enough.
pub open spec fn first_large(quads: Seq<Seq<Num>>, measures: Seq<Measure>, i: int) -> bool {
    &&& measures.len() == quads.filter(|quad: Seq<Num>| quad.len() == 8).len()
    &&& 0 <= i < measures.len()
    &&& measures[i].spacious
    &&& forall|j: int| 0 <= j < i ==> !(#[trigger] measures[j]).spacious
}

/// The point of an element that is clicked on is the centre of the first of its quads that is
/// large enough.
pub proof fn clickable_point_is_a_centre(
    element: &Element,
    step: Step<FindPoint, Point>,
    quads: Seq<Seq<Num>>,
    measures: Seq<Measure>,
    i: int,
)
    requires
        call_ensures(Element::clickable_point, (element,), step),
        first_large(quads, measures, i),
    ensures
        remaining(step).measures(element.backend_node_id, quads, measures) == done(
            measures[i].center,
        ),
{
    quads_with_four_corners(quads);
    first_large_quad_decides(measures, i);
    reveal_with_fuel(bind, 3);
}

/// An element of whose quads none is large enough has no point to click on.
pub proof fn small_elements_cannot_be_clicked(
    element: &Element,
    step: Step<FindPoint, Point>,
    quads: Seq<Seq<Num>>,
    measures: Seq<Measure>,
)
    requires
        call_ensures(Element::clickable_point, (element,), step),
        measures.len() == quads.filter(|quad: Seq<Num>| quad.len() == 8).len(),
        measures.len() > 0,
        forall|j: int| 0 <= j < measures.len() ==> !(#[trigger] measures[j]).spacious,
    ensures
        remaining(step).measures(element.backend_node_id, quads, measures) == fail::<Point>(
            ErrorView::ChromeMessage("Node is either not visible or not an HTMLElement"@),
        ),
{
    quads_with_four_corners(quads);
    without_a_large_quad_it_fails(measures);
    reveal_with_fuel(bind, 3);
}

/// An element without a quad that has four corners has no point to click on, and nothing is
/// measured.
pub proof fn elements_without_quads_cannot_be_clicked(
    element: &Element,
    step: Step<FindPoint, Point>,
    quads: Seq<Seq<Num>>,
)
    requires
        call_ensures(Element::clickable_point, (element,), step),
        quads.filter(|quad: Seq<Num>| quad.len() == 8).len() == 0,
    ensures
        remaining(step).sends(
            CommandView::GetContentQuads { backend_node_id: element.backend_node_id },
            ReplyView::Quads(quads),
        ) == fail::<Point>(
            ErrorView::ChromeMessage("Node is either not visible or not an HTMLElement"@),
        ),
{
    quads_with_four_corners(quads);
    reveal_with_fuel(bind, 3);
}

/// A click on an element scrolls the element into view, and is made at the centre of the first
/// of its quads that is large enough.
pub proof fn element_is_clicked_at_a_centre(
    element: &Element,
    step: Step<Chain<Await<()>, ThenClick>, ()>,
    scrolled: ReplyView,
    quads: Seq<Seq<Num>>,
    measures: Seq<Measure>,
    i: int,
    moved: ReplyView,
    pressed: ReplyView,
    released: ReplyView,
)
    requires
        call_ensures(Element::click, (element,), step),
        first_large(quads, measures, i),
    ensures
        remaining(step).sends(
            CommandView::ScrollIntoViewIfNeeded {
                backend_node_id: element.backend_node_id,
                rect: None,
            },
            scrolled,
        ).measures(element.backend_node_id, quads, measures).clicks(
            measures[i].center,
            moved,
            pressed,
            released,
        ) == done(()),
{
    quads_with_four_corners(quads);
    first_large_quad_decides(measures, i);
    reveal_with_fuel(bind, 5);
    reveal_with_fuel(sequence, 4);
}

/// To hover over an element is to scroll it into view and to move the mouse to the centre of
/// the first of its quads that is large enough. No button is pressed.
pub proof fn mouse_hovers_over_a_centre(
    element: &Element,
    step: Step<Chain<Await<()>, ThenHover>, ()>,
    scrolled: ReplyView,
    quads: Seq<Seq<Num>>,
    measures: Seq<Measure>,
    i: int,
    moved: ReplyView,
)
    requires
        call_ensures(Element::hover, (element,), step),
        first_large(quads, measures, i),
    ensures
        remaining(step).sends(
            CommandView::ScrollIntoViewIfNeeded {
                backend_node_id: element.backend_node_id,
                rect: None,
            },
            scrolled,
        ).measures(element.backend_node_id, quads, measures).sends(
            CommandView::DispatchMouseEvent(
                DispatchMouseEventParams {
                    kind: DispatchMouseEventType::MouseMoved,
                    x: measures[i].center.x,
                    y: measures[i].center.y,
                    button: None,
                    click_count: None,
                },
            ),
            moved,
        ) == done(()),
{
    quads_with_four_corners(quads);
    first_large_quad_decides(measures, i);
    reveal_with_fuel(bind, 5);
}

/// An element is scrolled into view as a whole.
pub proof fn element_scrolls_into_view(
    element: &Element,
    step: Step<Await<()>, ()>,
    scrolled: ReplyView,
)
    requires
        call_ensures(Element::scroll_into_view, (element,), step),
    ensures
        remaining(step).sends(
            CommandView::ScrollIntoViewIfNeeded {
                backend_node_id: element.backend_node_id,
                rect: None,
            },
            scrolled,
        ) == done(()),
{
}

/// An element that gets the focus is scrolled into view before.
pub proof fn element_gets_the_focus(
    element: &Element,
    step: Step<Sequence, ()>,
    scrolled: ReplyView,
    focused: ReplyView,
)
    requires
        call_ensures(Element::focus, (element,), step),
    ensures
        remaining(step).sends(
            CommandView::ScrollIntoViewIfNeeded {
                backend_node_id: element.backend_node_id,
                rect: None,
            },
            scrolled,
        ).sends(
            CommandView::Focus { backend_node_id: element.backend_node_id },
            focused,
        ) == done(()),
{
    reveal_with_fuel(sequence, 3);
}

} // verus!
