//! DOM elements and the operations on them.
use vstd::prelude::*;

use crate::cdp::command::{Command, CommandView};
use crate::cdp::dom::{BackendNodeId, Node, NodeId, NodeView};
use crate::cdp::runtime::{
    CallFunctionOnReturns, CallFunctionOnReturnsView, PropertyDescriptor, PropertyDescriptorView,
    RemoteObject, RemoteObjectId, RemoteObjectType, RemoteObjectView,
};
use crate::error::{CdpError, ErrorView};
use crate::flow::{
    ask, asking, bind, chain, done, execute, executing, fail, follows, read, result_view,
    same_is_equal, Await, Chain, Ended, Flow, FromReply, Next, Prog, Start, Step, Suspended,
};
use crate::handler::page::{
    call_js_fn_op, call_on_object, click_at, click_op, each_character, keys_op, move_mouse_op,
    move_mouse_to, query_selector_all_op, query_selector_op, remove_op, PageInner, Typing,
    WHOLE_SUBTREE,
};
use crate::json::{json_optional_string, json_string, optional_string_of, string_of, Json};
use crate::laws::{asks_first, bind_is_associative, bind_yields, points, scrolls, yields};
use crate::layout::{quad_of, BoundingBox, BoxModel, ElementQuad, Point};
use crate::names::{entries_map, NameMap};
use crate::number::Num;
use crate::protocol::{
    BoxModelReply, BoxModelReplyView, Measure, Reply, ReplyView, Request, RequestView, Resolved,
    ResolvedView,
};
use crate::sequence::{in_sequence, sequence, Sequence};
use crate::text::{decimal, to_decimal};

verus! {

/// A DOM element.
#[derive(Debug, PartialEq, Eq)]
pub struct Element {
    /// Identifies the element's object in the page.
    pub remote_object_id: RemoteObjectId,
    /// Identifies the element's node to the backend.
    pub backend_node_id: BackendNodeId,
    /// Identifies the element's node.
    pub node_id: NodeId,
}

/// The contents of an [`Element`].
pub struct ElementView {
    pub remote_object_id: Seq<char>,
    pub backend_node_id: BackendNodeId,
    pub node_id: NodeId,
}

impl DeepView for Element {
    type V = ElementView;

    open spec fn deep_view(&self) -> ElementView {
        ElementView {
            remote_object_id: self.remote_object_id.deep_view(),
            backend_node_id: self.backend_node_id,
            node_id: self.node_id,
        }
    }
}

// How a node becomes an element.

/// The message of the error where a node has no object.
pub open spec fn no_object_message(node_id: NodeId) -> Seq<char> {
    "No object Id found for NodeId("@ + decimal(node_id.0 as int) + ")"@
}

/// Makes a node an element: finds out its backend id, then its object.
pub open spec fn new_op(node_id: NodeId) -> Prog<ElementView> {
    bind(
        execute::<Node>(
            CommandView::DescribeNode {
                node_id: Some(node_id),
                backend_node_id: None,
                depth: Some(WHOLE_SUBTREE),
            },
        ),
        |node: NodeView| resolve_op(node_id, node.backend_node_id),
    )
}

/// Finds out the object of a node.
pub open spec fn resolve_op(node_id: NodeId, backend_node_id: BackendNodeId) -> Prog<ElementView> {
    bind(
        execute::<RemoteObject>(CommandView::ResolveNode { backend_node_id }),
        |object: RemoteObjectView| made_of(node_id, backend_node_id, object),
    )
}

/// The element of an object.
pub open spec fn made_of(
    node_id: NodeId,
    backend_node_id: BackendNodeId,
    object: RemoteObjectView,
) -> Prog<ElementView> {
    match object.object_id {
        Some(remote_object_id) => done(
            ElementView { remote_object_id, backend_node_id, node_id },
        ),
        None => fail(ErrorView::ChromeMessage(no_object_message(node_id))),
    }
}

/// A node that is made an element.
pub enum NewElement {
    /// Waits for the description of the node.
    Describing { node_id: NodeId },
    /// Waits for the object of the node.
    Resolving { node_id: NodeId, backend_node_id: BackendNodeId },
}

impl Suspended for NewElement {
    type Output = Element;

    open spec fn after(self, reply: ReplyView) -> Prog<ElementView> {
        match self {
            NewElement::Describing { node_id } => bind(
                read(Node::found_in(reply)),
                |node: NodeView| resolve_op(node_id, node.backend_node_id),
            ),
            NewElement::Resolving { node_id, backend_node_id } => bind(
                read(RemoteObject::found_in(reply)),
                |object: RemoteObjectView| made_of(node_id, backend_node_id, object),
            ),
        }
    }
}

impl Flow for NewElement {
    fn resume(self, reply: Reply) -> (step: Step<NewElement, Element>) {
        reveal_with_fuel(bind, 2);
        match self {
            NewElement::Describing { node_id } => match Node::from_reply(reply) {
                Some(node) => Step::Ask(
                    Request::Command(
                        Command::ResolveNode { backend_node_id: node.backend_node_id },
                    ),
                    NewElement::Resolving { node_id, backend_node_id: node.backend_node_id },
                ),
                None => Step::Abort,
            },
            NewElement::Resolving { node_id, backend_node_id } => {
                match RemoteObject::from_reply(reply) {
                    Some(object) => match object.object_id {
                        Some(remote_object_id) => Step::Done(
                            Ok(Element { remote_object_id, backend_node_id, node_id }),
                        ),
                        None => {
                            let mut message = "No object Id found for NodeId(".to_owned();
                            message.append(to_decimal(node_id.0).as_str());
                            message.append(")");
                            Step::Done(Err(CdpError::ChromeMessage(message)))
                        },
                    },
                    None => Step::Abort,
                }
            },
        }
    }
}

/// The first error among what became of nodes.
pub open spec fn first_failure(results: Seq<ResolvedView>) -> Option<ErrorView>
    decreases results.len(),
{
    if results.len() == 0 {
        None
    } else {
        match results[0] {
            ResolvedView::Failed(error) => Some(error),
            ResolvedView::Element(_) => first_failure(results.skip(1)),
        }
    }
}

/// All elements, or the first error.
pub open spec fn collected(results: Seq<ResolvedView>) -> Prog<Seq<ElementView>> {
    match first_failure(results) {
        Some(error) => fail(error),
        None => done(results.map_values(|result: ResolvedView| result->Element_0)),
    }
}

/// Makes nodes elements, side by side. It fails where one of them fails, with the error
/// of the first that did.
pub open spec fn from_nodes_op(node_ids: Seq<NodeId>) -> Prog<Seq<ElementView>> {
    bind(
        ask::<Vec<Resolved>>(RequestView::Elements { node_ids }),
        |results: Seq<ResolvedView>|
            if results.len() == node_ids.len() {
                collected(results)
            } else {
                Prog::Abort
            },
    )
}

/// The elements are those that came of the nodes, in their order, and an error is the very
/// one that came of the first node that failed.
pub open spec fn collects(
    results: Seq<Resolved>,
    elements: Result<Vec<Element>, CdpError>,
) -> bool {
    match elements {
        Ok(elements) => {
            &&& elements@.len() == results.len()
            &&& forall|i: int|
                0 <= i < results.len() ==> #[trigger] results[i] == Resolved::Element(elements@[i])
        },
        Err(error) => exists|i: int|
            {
                &&& 0 <= i < results.len()
                &&& #[trigger] results[i] == Resolved::Failed(error)
                &&& forall|j: int| 0 <= j < i ==> #[trigger] results[j] is Element
            },
    }
}

/// All elements, or the first error.
pub fn collect_elements(results: Vec<Resolved>) -> (elements: Result<Vec<Element>, CdpError>)
    ensures
        Prog::Done(result_view(elements)) == collected(results.deep_view()),
        collects(results@, elements),
{
    let ghost all = results.deep_view();
    let mut rest = results;
    let mut elements: Vec<Element> = Vec::new();
    assert(all.skip(0) =~= all);
    while rest.len() > 0
        invariant
            all == results.deep_view(),
            all.len() == elements@.len() + rest@.len(),
            rest.deep_view() == all.skip(elements@.len() as int),
            rest@ == results@.skip(elements@.len() as int),
            first_failure(all) == first_failure(all.skip(elements@.len() as int)),
            forall|i: int|
                0 <= i < elements@.len() ==> #[trigger] results@[i] == Resolved::Element(
                    elements@[i],
                ),
            forall|i: int|
                0 <= i < elements@.len() ==> #[trigger] elements@[i].deep_view()
                    == all[i]->Element_0,
        decreases rest@.len(),
    {
        let ghost before = rest.deep_view();
        let result = rest.remove(0);
        assert(before[0] == result.deep_view());
        assert(rest.deep_view() =~= before.skip(1));
        assert(all.skip(elements@.len() as int).skip(1) =~= all.skip((elements@.len() + 1) as int));
        match result {
            Resolved::Element(element) => {
                elements.push(element);
            },
            Resolved::Failed(error) => {
                return Err(error);
            },
        }
    }
    assert(elements.deep_view() =~= all.map_values(|result: ResolvedView| result->Element_0));
    Ok(elements)
}

/// Collects the elements that were made of `count` nodes.
pub struct Collect {
    pub count: usize,
}

impl Next for Collect {
    type Input = Vec<Resolved>;

    type Rest = Ended<Vec<Element>>;

    open spec fn next(self, results: Seq<ResolvedView>) -> Prog<Seq<ElementView>> {
        if results.len() == self.count {
            collected(results)
        } else {
            Prog::Abort
        }
    }
}

impl Start for Collect {
    fn start(self, results: Vec<Resolved>) -> (step: Step<Ended<Vec<Element>>, Vec<Element>>)
        ensures
            step matches Step::Done(elements) ==> collects(results@, elements),
    {
        if results.len() == self.count {
            Step::Done(collect_elements(results))
        } else {
            Step::Abort
        }
    }
}

/// Elements that are made of nodes.
pub type FromNodes = Chain<Await<Vec<Resolved>>, Collect>;

/// A node that was found is made an element.
pub struct MakeElement;

impl Next for MakeElement {
    type Input = NodeId;

    type Rest = NewElement;

    open spec fn next(self, node_id: NodeId) -> Prog<ElementView> {
        new_op(node_id)
    }
}

impl Start for MakeElement {
    fn start(self, node_id: NodeId) -> (step: Step<NewElement, Element>) {
        Element::new(node_id)
    }
}

/// Nodes that were found are made elements.
pub struct MakeElements;

impl Next for MakeElements {
    type Input = Vec<NodeId>;

    type Rest = FromNodes;

    open spec fn next(self, node_ids: Seq<NodeId>) -> Prog<Seq<ElementView>> {
        from_nodes_op(node_ids)
    }
}

impl Start for MakeElements {
    fn start(self, node_ids: Vec<NodeId>) -> (step: Step<FromNodes, Vec<Element>>) {
        Element::from_nodes(node_ids)
    }
}

impl Element {
    /// Makes a node an element.
    pub fn new(node_id: NodeId) -> (step: Step<NewElement, Element>)
        ensures
            follows(step, new_op(node_id)),
    {
        Step::Ask(
            Request::Command(
                Command::DescribeNode {
                    node_id: Some(node_id),
                    backend_node_id: None,
                    depth: Some(WHOLE_SUBTREE),
                },
            ),
            NewElement::Describing { node_id },
        )
    }

    /// Makes nodes elements.
    pub fn from_nodes(node_ids: Vec<NodeId>) -> (step: Step<FromNodes, Vec<Element>>)
        ensures
            follows(step, from_nodes_op(node_ids.deep_view())),
    {
        broadcast use same_is_equal;

        let count: usize = node_ids.len();
        chain(asking::<Vec<Resolved>>(Request::Elements { node_ids }), Collect { count })
    }
}

// Where an element is.

/// The boxes of an element, where each is given by its four corners.
pub open spec fn boxes_of(model: BoxModelReplyView) -> Prog<BoxModel> {
    if model.content.len() == 8 && model.padding.len() == 8 && model.border.len() == 8
        && model.margin.len() == 8 {
        done(
            BoxModel {
                content: quad_of(model.content),
                padding: quad_of(model.padding),
                border: quad_of(model.border),
                margin: quad_of(model.margin),
                width: model.width as u32,
                height: model.height as u32,
            },
        )
    } else {
        Prog::Abort
    }
}

/// Yields the boxes of an element.
pub open spec fn box_model_op(backend_node_id: BackendNodeId) -> Prog<BoxModel> {
    bind(
        execute::<BoxModelReply>(
            CommandView::GetBoxModel { backend_node_id },
        ),
        |model: BoxModelReplyView| boxes_of(model),
    )
}

/// Yields the bounding box of an element: that of its border.
pub open spec fn bounding_box_op(backend_node_id: BackendNodeId) -> Prog<BoundingBox> {
    bind(
        box_model_op(backend_node_id),
        |model: BoxModel| ask::<BoundingBox>(RequestView::Bounds { quad: model.border }),
    )
}

/// The quads that have four corners.
pub open spec fn whole_quads(quads: Seq<Seq<Num>>) -> Seq<ElementQuad>
    decreases quads.len(),
{
    if quads.len() == 0 {
        seq![]
    } else if quads.last().len() == 8 {
        whole_quads(quads.drop_last()).push(quad_of(quads.last()))
    } else {
        whole_quads(quads.drop_last())
    }
}

/// The error where there is nothing to click on.
pub open spec fn not_visible() -> ErrorView {
    ErrorView::ChromeMessage("Node is either not visible or not an HTMLElement"@)
}

/// The centre of the first quad that is large enough.
pub open spec fn first_spacious(measures: Seq<Measure>) -> Prog<Point>
    decreases measures.len(),
{
    if measures.len() == 0 {
        fail(not_visible())
    } else if measures[0].spacious {
        done(measures[0].center)
    } else {
        first_spacious(measures.skip(1))
    }
}

/// Yields the centre of the first of some quads that is large enough.
pub open spec fn click_among_op(quads: Seq<ElementQuad>) -> Prog<Point> {
    if quads.len() == 0 {
        fail(not_visible())
    } else {
        bind(
            ask::<Vec<Measure>>(RequestView::Measure { quads }),
            |measures: Seq<Measure>|
                if measures.len() == quads.len() {
                    first_spacious(measures)
                } else {
                    Prog::Abort
                },
        )
    }
}

/// Yields the best point of an element to click on.
pub open spec fn clickable_point_op(backend_node_id: BackendNodeId) -> Prog<Point> {
    bind(
        execute::<Vec<Vec<Num>>>(
            CommandView::GetContentQuads { backend_node_id },
        ),
        |quads: Seq<Seq<Num>>| click_among_op(whole_quads(quads)),
    )
}

/// Scrolls an element into view.
pub open spec fn scroll_into_view_op(backend_node_id: BackendNodeId) -> Prog<()> {
    execute::<()>(
        CommandView::ScrollIntoViewIfNeeded {
            backend_node_id,
            rect: None,
        },
    )
}

/// Scrolls an element into view and moves the mouse over it.
pub open spec fn hover_op(backend_node_id: BackendNodeId) -> Prog<()> {
    bind(
        scroll_into_view_op(backend_node_id),
        |u: ()| bind(clickable_point_op(backend_node_id), |point: Point| move_mouse_op(point)),
    )
}

/// Scrolls an element into view and clicks on it.
pub open spec fn click_element_op(backend_node_id: BackendNodeId) -> Prog<()> {
    bind(
        scroll_into_view_op(backend_node_id),
        |u: ()| bind(clickable_point_op(backend_node_id), |point: Point| click_op(point)),
    )
}

/// Scrolls an element into view and focuses it.
pub open spec fn focus_op(backend_node_id: BackendNodeId) -> Prog<()> {
    sequence(
        seq![
            RequestView::Command(
                CommandView::ScrollIntoViewIfNeeded {
                    backend_node_id,
                    rect: None,
                },
            ),
            RequestView::Command(CommandView::Focus { backend_node_id }),
        ],
    )
}

/// Reads the boxes of an element.
pub struct ReadBoxes;

impl Next for ReadBoxes {
    type Input = BoxModelReply;

    type Rest = Ended<BoxModel>;

    open spec fn next(self, model: BoxModelReplyView) -> Prog<BoxModel> {
        boxes_of(model)
    }
}

impl Start for ReadBoxes {
    fn start(self, model: BoxModelReply) -> (step: Step<Ended<BoxModel>, BoxModel>) {
        match read_boxes(&model) {
            Some(boxes) => {
                assert(boxes.deep_view() == boxes);
                Step::Done(Ok(boxes))
            },
            None => Step::Abort,
        }
    }
}

/// The boxes of an element, where each is given by its four corners.
pub fn read_boxes(model: &BoxModelReply) -> (boxes: Option<BoxModel>)
    ensures
        read(boxes) == boxes_of(model.deep_view()),
{
    proof {
        assert(model.content.deep_view() =~= model.content@);
        assert(model.padding.deep_view() =~= model.padding@);
        assert(model.border.deep_view() =~= model.border@);
        assert(model.margin.deep_view() =~= model.margin@);
    }
    if model.content.len() == 8 && model.padding.len() == 8 && model.border.len() == 8
        && model.margin.len() == 8 {
        Some(
            BoxModel {
                content: ElementQuad::from_quad(&model.content),
                padding: ElementQuad::from_quad(&model.padding),
                border: ElementQuad::from_quad(&model.border),
                margin: ElementQuad::from_quad(&model.margin),
                width: #[verifier::truncate]
                (model.width as u32),
                height: #[verifier::truncate]
                (model.height as u32),
            },
        )
    } else {
        None
    }
}

/// The boxes of an element that are fetched.
pub type FetchBoxes = Chain<Await<BoxModelReply>, ReadBoxes>;

/// Finds the bounds of the border.
pub struct BoundBorder;

impl Next for BoundBorder {
    type Input = BoxModel;

    type Rest = Await<BoundingBox>;

    open spec fn next(self, model: BoxModel) -> Prog<BoundingBox> {
        ask::<BoundingBox>(RequestView::Bounds { quad: model.border })
    }
}

impl Start for BoundBorder {
    fn start(self, model: BoxModel) -> (step: Step<Await<BoundingBox>, BoundingBox>) {
        asking(Request::Bounds { quad: model.border })
    }
}

/// The bounding box of an element that is fetched.
pub type FetchBounds = Chain<FetchBoxes, BoundBorder>;

/// The centre of the first quad that is large enough.
pub fn pick_spacious(measures: &Vec<Measure>) -> (point: Result<Point, CdpError>)
    ensures
        Prog::Done(result_view(point)) == first_spacious(measures@),
{
    let mut i: usize = 0;
    assert(measures@.skip(0) =~= measures@);
    while i < measures.len()
        invariant
            i <= measures@.len(),
            first_spacious(measures@) == first_spacious(measures@.skip(i as int)),
        decreases measures@.len() - i,
    {
        assert(measures@.skip(i as int).skip(1) =~= measures@.skip(i + 1));
        if measures[i].spacious {
            return Ok(measures[i].center);
        }
        i = i + 1;
    }
    Err(CdpError::msg("Node is either not visible or not an HTMLElement"))
}

/// Picks among `count` quads that were measured.
pub struct PickSpacious {
    pub count: usize,
}

impl Next for PickSpacious {
    type Input = Vec<Measure>;

    type Rest = Ended<Point>;

    open spec fn next(self, measures: Seq<Measure>) -> Prog<Point> {
        if measures.len() == self.count {
            first_spacious(measures)
        } else {
            Prog::Abort
        }
    }
}

impl Start for PickSpacious {
    fn start(self, measures: Vec<Measure>) -> (step: Step<Ended<Point>, Point>) {
        assert(measures.deep_view() =~= measures@);
        if measures.len() == self.count {
            Step::Done(pick_spacious(&measures))
        } else {
            Step::Abort
        }
    }
}

/// The quads that have four corners.
pub fn select_whole_quads(quads: &Vec<Vec<Num>>) -> (whole: Vec<ElementQuad>)
    ensures
        whole@ == whole_quads(quads.deep_view()),
{
    let ghost all = quads.deep_view();
    let mut whole: Vec<ElementQuad> = Vec::new();
    let mut i: usize = 0;
    assert(all.take(0) =~= seq![]);
    while i < quads.len()
        invariant
            i <= quads@.len(),
            all == quads.deep_view(),
            whole@ == whole_quads(all.take(i as int)),
        decreases quads@.len() - i,
    {
        assert(all.take(i + 1).drop_last() =~= all.take(i as int));
        assert(all[i as int] =~= quads@[i as int]@);
        if quads[i].len() == 8 {
            whole.push(ElementQuad::from_quad(&quads[i]));
        }
        i = i + 1;
    }
    assert(all.take(i as int) =~= all);
    whole
}

/// Looks for a point to click on among the quads of an element.
pub struct PickPoint;

impl Next for PickPoint {
    type Input = Vec<Vec<Num>>;

    type Rest = Chain<Await<Vec<Measure>>, PickSpacious>;

    open spec fn next(self, quads: Seq<Seq<Num>>) -> Prog<Point> {
        click_among_op(whole_quads(quads))
    }
}

impl Start for PickPoint {
    fn start(self, quads: Vec<Vec<Num>>) -> (step: Step<
        Chain<Await<Vec<Measure>>, PickSpacious>,
        Point,
    >) {
        broadcast use same_is_equal;

        let whole = select_whole_quads(&quads);
        assert(whole.deep_view() =~= whole@);
        if whole.len() == 0 {
            Step::Done(Err(CdpError::msg("Node is either not visible or not an HTMLElement")))
        } else {
            let count: usize = whole.len();
            chain(asking::<Vec<Measure>>(Request::Measure { quads: whole }), PickSpacious { count })
        }
    }
}

/// A point to click on that is looked for.
pub type FindPoint = Chain<Await<Vec<Vec<Num>>>, PickPoint>;

/// Moves the mouse to a point.
pub struct MoveThere;

impl Next for MoveThere {
    type Input = Point;

    type Rest = Await<()>;

    open spec fn next(self, point: Point) -> Prog<()> {
        move_mouse_op(point)
    }
}

impl Start for MoveThere {
    fn start(self, point: Point) -> (step: Step<Await<()>, ()>) {
        move_mouse_to(point)
    }
}

/// Clicks at a point.
pub struct ClickThere;

impl Next for ClickThere {
    type Input = Point;

    type Rest = Sequence;

    open spec fn next(self, point: Point) -> Prog<()> {
        click_op(point)
    }
}

impl Start for ClickThere {
    fn start(self, point: Point) -> (step: Step<Sequence, ()>) {
        click_at(point)
    }
}

/// Moves the mouse over an element, once it is in view.
pub struct ThenHover {
    pub backend_node_id: BackendNodeId,
}

impl Next for ThenHover {
    type Input = ();

    type Rest = Chain<FindPoint, MoveThere>;

    open spec fn next(self, u: ()) -> Prog<()> {
        bind(clickable_point_op(self.backend_node_id), |point: Point| move_mouse_op(point))
    }
}

impl Start for ThenHover {
    fn start(self, u: ()) -> (step: Step<Chain<FindPoint, MoveThere>, ()>) {
        broadcast use same_is_equal;

        chain(find_point(self.backend_node_id), MoveThere)
    }
}

/// Clicks on an element, once it is in view.
pub struct ThenClick {
    pub backend_node_id: BackendNodeId,
}

impl Next for ThenClick {
    type Input = ();

    type Rest = Chain<FindPoint, ClickThere>;

    open spec fn next(self, u: ()) -> Prog<()> {
        bind(clickable_point_op(self.backend_node_id), |point: Point| click_op(point))
    }
}

impl Start for ThenClick {
    fn start(self, u: ()) -> (step: Step<Chain<FindPoint, ClickThere>, ()>) {
        broadcast use same_is_equal;

        chain(find_point(self.backend_node_id), ClickThere)
    }
}

/// Looks for the best point of a node to click on.
fn find_point(backend_node_id: BackendNodeId) -> (step: Step<FindPoint, Point>)
    ensures
        follows(step, clickable_point_op(backend_node_id)),
{
    broadcast use same_is_equal;

    chain(executing::<Vec<Vec<Num>>>(Command::GetContentQuads { backend_node_id }), PickPoint)
}

impl Element {
    /// Removes the element from the document.
    pub fn remove(&self) -> (step: Step<Await<()>, ()>)
        ensures
            follows(step, remove_op(self.node_id)),
    {
        executing(Command::RemoveNode { node_id: self.node_id })
    }

    /// Yields the first element within this one that a CSS selector matches.
    pub fn query_element(&self, selector: &String) -> (step: Step<
        Chain<Await<NodeId>, MakeElement>,
        Element,
    >)
        ensures
            follows(
                step,
                bind(query_selector_op(selector@, self.node_id), |id: NodeId| new_op(id)),
            ),
    {
        broadcast use same_is_equal;

        chain(
            executing::<NodeId>(
                Command::QuerySelector { node_id: self.node_id, selector: selector.clone() },
            ),
            MakeElement,
        )
    }

    /// Yields all elements within this one that a CSS selector matches.
    pub fn query_elements(&self, selector: &String) -> (step: Step<
        Chain<Await<Vec<NodeId>>, MakeElements>,
        Vec<Element>,
    >)
        ensures
            follows(
                step,
                bind(
                    query_selector_all_op(selector@, self.node_id),
                    |ids: Seq<NodeId>| from_nodes_op(ids),
                ),
            ),
    {
        broadcast use same_is_equal;

        chain(
            executing::<Vec<NodeId>>(
                Command::QuerySelectorAll { node_id: self.node_id, selector: selector.clone() },
            ),
            MakeElements,
        )
    }

    /// Yields the boxes of the element.
    pub fn box_model(&self) -> (step: Step<FetchBoxes, BoxModel>)
        ensures
            follows(step, box_model_op(self.backend_node_id)),
    {
        broadcast use same_is_equal;

        chain(
            executing::<BoxModelReply>(
                Command::GetBoxModel { backend_node_id: self.backend_node_id },
            ),
            ReadBoxes,
        )
    }

    /// Yields the bounding box of the element, relative to the main frame.
    pub fn bounding_box(&self) -> (step: Step<FetchBounds, BoundingBox>)
        ensures
            follows(step, bounding_box_op(self.backend_node_id)),
    {
        broadcast use same_is_equal;

        chain(self.box_model(), BoundBorder)
    }

    /// Yields the best point of the element to click on.
    pub fn clickable_point(&self) -> (step: Step<FindPoint, Point>)
        ensures
            follows(step, clickable_point_op(self.backend_node_id)),
    {
        find_point(self.backend_node_id)
    }

    /// Scrolls the element into view and focuses it.
    pub fn focus(&self) -> (step: Step<Sequence, ()>)
        ensures
            follows(step, focus_op(self.backend_node_id)),
    {
        let ghost backend_node_id = self.backend_node_id;
        let requests: Vec<Request> = vec![
            Request::Command(
                Command::ScrollIntoViewIfNeeded {
                    backend_node_id: self.backend_node_id,
                    rect: None,
                },
            ),
            Request::Command(Command::Focus { backend_node_id: self.backend_node_id }),
        ];
        assert(requests.deep_view() =~= seq![
            RequestView::Command(
                CommandView::ScrollIntoViewIfNeeded { backend_node_id, rect: None },
            ),
            RequestView::Command(CommandView::Focus { backend_node_id }),
        ]);
        in_sequence(requests)
    }

    /// Scrolls the element into view and moves the mouse over it.
    pub fn hover(&self) -> (step: Step<Chain<Await<()>, ThenHover>, ()>)
        ensures
            follows(step, hover_op(self.backend_node_id)),
    {
        broadcast use same_is_equal;

        chain(self.scroll_into_view(), ThenHover { backend_node_id: self.backend_node_id })
    }

    /// Scrolls the element into view.
    pub fn scroll_into_view(&self) -> (step: Step<Await<()>, ()>)
        ensures
            follows(step, scroll_into_view_op(self.backend_node_id)),
    {
        executing(
            Command::ScrollIntoViewIfNeeded { backend_node_id: self.backend_node_id, rect: None },
        )
    }

    /// Scrolls the element into view and clicks on it.
    pub fn click(&self) -> (step: Step<Chain<Await<()>, ThenClick>, ()>)
        ensures
            follows(step, click_element_op(self.backend_node_id)),
    {
        broadcast use same_is_equal;

        chain(self.scroll_into_view(), ThenClick { backend_node_id: self.backend_node_id })
    }

    /// Types a text: each of its characters is a keystroke of its own.
    pub fn type_str(&self, tab: &PageInner, input: &str) -> (step: Step<Typing, ()>)
        ensures
            follows(step, keys_op(each_character(input@))),
    {
        tab.type_str(input)
    }

    /// Presses a key and releases it.
    pub fn press_key(&self, tab: &PageInner, key: String) -> (step: Step<Typing, ()>)
        ensures
            follows(step, keys_op(seq![key@])),
    {
        tab.press_key(key)
    }
}

/// Scrolls an element into view, unless it is in view already. It returns `false`, or a
/// text that says why it cannot.
pub const SCROLL_INTO_VIEW: &'static str = "async function() {
                if (!this.isConnected)
                    return 'Node is detached from document';
                if (this.nodeType !== Node.ELEMENT_NODE)
                    return 'Node is not of type HTMLElement';

                const visibleRatio = await new Promise(resolve => {
                    const observer = new IntersectionObserver(entries => {
                        resolve(entries[0].intersectionRatio);
                        observer.disconnect();
                    });
                    observer.observe(this);
                });

                if (visibleRatio !== 1.0)
                    this.scrollIntoView({
                        block: 'center',
                        inline: 'center',
                        behavior: 'smooth'
                    });
                return false;
            }";

// What is read of an element.

/// Calls a function on an element.
pub open spec fn call_op(
    element: ElementView,
    function_declaration: Seq<char>,
    await_promise: bool,
) -> Prog<CallFunctionOnReturnsView> {
    call_js_fn_op(function_declaration, await_promise, element.remote_object_id)
}

/// A value that has to be there.
pub open spec fn value_or_missing(value: Option<Seq<char>>) -> Prog<Seq<char>> {
    match value {
        Some(json) => done(json),
        None => fail(ErrorView::NotFound),
    }
}

/// Yields an element as a JSON value.
pub open spec fn json_value_op(element: ElementView) -> Prog<Seq<char>> {
    bind(
        call_op(element, "function() { return this; }"@, false),
        |returned: CallFunctionOnReturnsView| value_or_missing(returned.result.value),
    )
}

/// The function that reads an attribute.
pub open spec fn attribute_reader(attribute: Seq<char>) -> Seq<char> {
    "function() { return this.getAttribute('"@ + attribute + "'); }"@
}

/// The value of an attribute, where it has one.
pub open spec fn attribute_value(value: Option<Seq<char>>) -> Prog<Option<Seq<char>>> {
    match value {
        Some(json) => match json_optional_string(json) {
            Some(text) => done(text),
            None => fail(ErrorView::Serde),
        },
        None => done(None),
    }
}

/// Yields the value of an attribute, read by a script.
pub open spec fn attribute_js_op(element: ElementView, attribute: Seq<char>) -> Prog<
    Option<Seq<char>>,
> {
    bind(
        call_op(element, attribute_reader(attribute), false),
        |returned: CallFunctionOnReturnsView| attribute_value(returned.result.value),
    )
}

/// The function that reads a property.
pub open spec fn property_reader(property: Seq<char>) -> Seq<char> {
    "function() { return this."@ + property + "; }"@
}

/// Yields the value of a property, where it has one.
pub open spec fn property_op(element: ElementView, property: Seq<char>) -> Prog<
    Option<Seq<char>>,
> {
    bind(
        call_op(element, property_reader(property), false),
        |returned: CallFunctionOnReturnsView| done(returned.result.value),
    )
}

/// A text, or nothing where it is empty.
pub open spec fn unless_empty(text: Seq<char>) -> Option<Seq<char>> {
    if text.len() == 0 {
        None
    } else {
        Some(text)
    }
}

/// The text that a JSON value denotes, or nothing where it is empty.
pub open spec fn text_value(json: Seq<char>) -> Prog<Option<Seq<char>>> {
    match json_string(json) {
        Some(text) => done(unless_empty(text)),
        None => fail(ErrorView::Serde),
    }
}

/// The value of a property that has to be a text.
pub open spec fn string_property_value(value: Option<Seq<char>>) -> Prog<Option<Seq<char>>> {
    match value {
        Some(json) => text_value(json),
        None => fail(ErrorView::NotFound),
    }
}

/// Yields the text of a property, or nothing where it is empty.
pub open spec fn string_property_op(element: ElementView, property: Seq<char>) -> Prog<
    Option<Seq<char>>,
> {
    bind(
        property_op(element, property),
        |value: Option<Seq<char>>| string_property_value(value),
    )
}

/// What came of scrolling an element into view by a script: a text says why it failed.
pub open spec fn scrolled(returned: CallFunctionOnReturnsView) -> Prog<()> {
    if returned.result.kind == RemoteObjectType::String {
        match returned.result.value {
            Some(json) => match json_string(json) {
                Some(text) => fail(ErrorView::ScrollingFailed(text)),
                None => Prog::Abort,
            },
            None => Prog::Abort,
        }
    } else {
        done(())
    }
}

/// Scrolls an element into view by a script.
pub open spec fn scroll_into_view_js_op(element: ElementView) -> Prog<()> {
    bind(
        call_op(element, SCROLL_INTO_VIEW@, true),
        |returned: CallFunctionOnReturnsView| scrolled(returned),
    )
}

/// Yields the description of an element's node, with all of its subtree.
pub open spec fn description_op(element: ElementView) -> Prog<NodeView> {
    execute::<Node>(
        CommandView::DescribeNode {
            node_id: None,
            backend_node_id: Some(element.backend_node_id),
            depth: Some(WHOLE_SUBTREE),
        },
    )
}

/// The attributes of a node: names and values in turn.
pub open spec fn attributes_of(node: NodeView) -> Seq<Seq<char>> {
    match node.attributes {
        Some(attributes) => attributes,
        None => seq![],
    }
}

/// Yields the attributes of an element, names and values in turn.
pub open spec fn attributes_op(element: ElementView) -> Prog<Seq<Seq<char>>> {
    bind(description_op(element), |node: NodeView| done(attributes_of(node)))
}

/// The pairs that a flat list holds.
pub open spec fn pairs(flat: Seq<Seq<char>>) -> Seq<(Seq<char>, Seq<char>)> {
    Seq::new(flat.len() / 2, |i: int| (flat[2 * i], flat[2 * i + 1]))
}

/// The names that stand in a flat list of names and values in turn.
pub open spec fn names_in(flat: Seq<Seq<char>>) -> Seq<Seq<char>> {
    Seq::new(((flat.len() + 1) / 2) as nat, |i: int| flat[2 * i])
}

/// Yields the attributes of an element by their names.
pub open spec fn attributes_map_op(element: ElementView) -> Prog<Map<Seq<char>, Seq<char>>> {
    bind(
        description_op(element),
        |node: NodeView| done(entries_map(pairs(attributes_of(node)))),
    )
}

/// What a map holds under a name.
pub open spec fn entry_of<V>(map: Map<Seq<char>, V>, name: Seq<char>) -> Option<V> {
    if map.contains_key(name) {
        Some(map[name])
    } else {
        None
    }
}

/// Yields the value of an attribute of an element.
pub open spec fn attribute_op(element: ElementView, attribute: Seq<char>) -> Prog<
    Option<Seq<char>>,
> {
    bind(
        description_op(element),
        |node: NodeView| done(entry_of(entries_map(pairs(attributes_of(node))), attribute)),
    )
}

/// The children of a node.
pub open spec fn child_ids(node: NodeView) -> Seq<NodeId> {
    match node.children {
        Some(children) => children.map_values(|child: NodeView| child.node_id),
        None => seq![],
    }
}

/// Yields the children of an element.
pub open spec fn children_op(element: ElementView) -> Prog<Seq<ElementView>> {
    bind(
        execute::<()>(
            CommandView::RequestChildNodes {
                node_id: element.node_id,
                depth: Some(WHOLE_SUBTREE),
                pierce: Some(true),
            },
        ),
        |u: ()|
            bind(
                description_op(element),
                |node: NodeView| from_nodes_op(child_ids(node)),
            ),
    )
}

/// Properties by their names.
pub open spec fn properties_map(properties: Seq<PropertyDescriptorView>) -> Map<
    Seq<char>,
    PropertyDescriptorView,
> {
    entries_map(properties.map_values(|p: PropertyDescriptorView| (p.name, p)))
}

/// Yields the properties that an element itself has, by their names.
pub open spec fn properties_op(element: ElementView) -> Prog<
    Map<Seq<char>, PropertyDescriptorView>,
> {
    bind(
        execute::<Vec<PropertyDescriptor>>(
            CommandView::GetProperties {
                object_id: element.remote_object_id,
                own_properties: Some(true),
            },
        ),
        |properties: Seq<PropertyDescriptorView>| done(properties_map(properties)),
    )
}

// How it is read.

/// A text, or nothing where it is empty.
pub fn text_or_none(text: Result<String, serde_json::Error>) -> (result: Result<
    Option<String>,
    CdpError,
>)
    ensures
        match text {
            Ok(t) => result is Ok && result->Ok_0.deep_view() == unless_empty(t@),
            Err(error) => result == Err::<Option<String>, CdpError>(CdpError::Serde(error)),
        },
{
    match text {
        Ok(t) => if t.as_str().is_empty() {
            Ok(None)
        } else {
            Ok(Some(t))
        },
        Err(error) => Err(CdpError::Serde(error)),
    }
}

/// The value of an attribute, or the error of the JSON parser.
pub fn attribute_or_error(text: Result<Option<String>, serde_json::Error>) -> (result: Result<
    Option<String>,
    CdpError,
>)
    ensures
        match text {
            Ok(t) => result == Ok::<Option<String>, CdpError>(t),
            Err(error) => result == Err::<Option<String>, CdpError>(CdpError::Serde(error)),
        },
{
    match text {
        Ok(t) => Ok(t),
        Err(error) => Err(CdpError::Serde(error)),
    }
}

/// Reads a value that has to be there.
pub struct ReadValue;

impl Next for ReadValue {
    type Input = CallFunctionOnReturns;

    type Rest = Ended<Json>;

    open spec fn next(self, returned: CallFunctionOnReturnsView) -> Prog<Seq<char>> {
        value_or_missing(returned.result.value)
    }
}

impl Start for ReadValue {
    fn start(self, returned: CallFunctionOnReturns) -> (step: Step<Ended<Json>, Json>) {
        match returned.result.value {
            Some(json) => Step::Done(Ok(json)),
            None => Step::Done(Err(CdpError::NotFound)),
        }
    }
}

/// Reads the value of an attribute.
pub struct ReadAttribute;

impl Next for ReadAttribute {
    type Input = CallFunctionOnReturns;

    type Rest = Ended<Option<String>>;

    open spec fn next(self, returned: CallFunctionOnReturnsView) -> Prog<Option<Seq<char>>> {
        attribute_value(returned.result.value)
    }
}

impl Start for ReadAttribute {
    fn start(self, returned: CallFunctionOnReturns) -> (step: Step<
        Ended<Option<String>>,
        Option<String>,
    >) {
        match returned.result.value {
            Some(json) => Step::Done(attribute_or_error(optional_string_of(&json))),
            None => Step::Done(Ok(None)),
        }
    }
}

/// An attribute that is read by a script.
pub type FetchAttribute = Chain<Await<CallFunctionOnReturns>, ReadAttribute>;

/// Reads the value of a property.
pub struct ReadProperty;

impl Next for ReadProperty {
    type Input = CallFunctionOnReturns;

    type Rest = Ended<Option<Json>>;

    open spec fn next(self, returned: CallFunctionOnReturnsView) -> Prog<Option<Seq<char>>> {
        done(returned.result.value)
    }
}

impl Start for ReadProperty {
    fn start(self, returned: CallFunctionOnReturns) -> (step: Step<
        Ended<Option<Json>>,
        Option<Json>,
    >) {
        Step::Done(Ok(returned.result.value))
    }
}

/// A property that is read.
pub type FetchProperty = Chain<Await<CallFunctionOnReturns>, ReadProperty>;

/// Reads a value that has to be a text.
pub struct ReadText;

impl Next for ReadText {
    type Input = Option<Json>;

    type Rest = Ended<Option<String>>;

    open spec fn next(self, value: Option<Seq<char>>) -> Prog<Option<Seq<char>>> {
        string_property_value(value)
    }
}

impl Start for ReadText {
    fn start(self, value: Option<Json>) -> (step: Step<Ended<Option<String>>, Option<String>>) {
        match value {
            Some(json) => Step::Done(text_or_none(string_of(&json))),
            None => Step::Done(Err(CdpError::NotFound)),
        }
    }
}

/// A property that is read and has to be a text.
pub type FetchText = Chain<FetchProperty, ReadText>;

/// Ends with the reason why an element was not scrolled. There has to be one.
pub fn not_scrolled(reason: Result<String, serde_json::Error>) -> (step: Step<Ended<()>, ()>)
    ensures
        match reason {
            Ok(text) => step == Step::<Ended<()>, ()>::Done(
                Err(CdpError::ScrollingFailed(text)),
            ),
            Err(_) => step is Abort,
        },
{
    match reason {
        Ok(text) => Step::Done(Err(CdpError::ScrollingFailed(text))),
        Err(_) => Step::Abort,
    }
}

/// Reads what came of scrolling by a script.
pub struct ReadScrolled;

impl Next for ReadScrolled {
    type Input = CallFunctionOnReturns;

    type Rest = Ended<()>;

    open spec fn next(self, returned: CallFunctionOnReturnsView) -> Prog<()> {
        scrolled(returned)
    }
}

impl Start for ReadScrolled {
    fn start(self, returned: CallFunctionOnReturns) -> (step: Step<Ended<()>, ()>) {
        match returned.result.kind {
            RemoteObjectType::String => match returned.result.value {
                Some(json) => not_scrolled(string_of(&json)),
                None => Step::Abort,
            },
            _ => Step::Done(Ok(())),
        }
    }
}

/// Reads the attributes of a node.
pub struct ReadAttributes;

impl Next for ReadAttributes {
    type Input = Node;

    type Rest = Ended<Vec<String>>;

    open spec fn next(self, node: NodeView) -> Prog<Seq<Seq<char>>> {
        done(attributes_of(node))
    }
}

impl Start for ReadAttributes {
    fn start(self, node: Node) -> (step: Step<Ended<Vec<String>>, Vec<String>>) {
        Step::Done(Ok(flat_attributes(node)))
    }
}

/// The attributes of a node: names and values in turn.
pub fn flat_attributes(node: Node) -> (attributes: Vec<String>)
    ensures
        attributes.deep_view() == attributes_of(node.deep_view()),
{
    match node.attributes {
        Some(attributes) => attributes,
        None => {
            let attributes: Vec<String> = Vec::new();
            assert(attributes.deep_view() =~= seq![]);
            attributes
        },
    }
}

/// The pairs that a flat list holds.
pub fn pair_up(flat: &Vec<String>) -> (map: NameMap<String>)
    ensures
        map.deep_view() == entries_map(pairs(flat.deep_view())),
{
    let ghost all = pairs(flat.deep_view());
    let mut entries: Vec<(String, String)> = Vec::new();
    let mut i: usize = 0;
    let n: usize = flat.len();
    while n - i >= 2
        invariant
            all == pairs(flat.deep_view()),
            n == flat@.len(),
            i == 2 * entries@.len(),
            i <= n,
            forall|j: int|
                0 <= j < entries@.len() ==> (#[trigger] entries@[j]).deep_view() == all[j],
        decreases n - i,
    {
        let ghost k = entries@.len() as int;
        assert(all[k] == (flat.deep_view()[2 * k], flat.deep_view()[2 * k + 1]));
        entries.push((flat[i].clone(), flat[i + 1].clone()));
        i = i + 2;
    }
    assert(entries.deep_view() =~= all);
    NameMap { entries }
}

/// The names that stand in a flat list of names and values in turn.
pub fn select_names(flat: &Vec<String>) -> (names: Vec<String>)
    ensures
        names.deep_view() == names_in(flat.deep_view()),
{
    let mut names: Vec<String> = Vec::new();
    let mut i: usize = 0;
    let n: usize = flat.len();
    while i < n
        invariant
            n == flat@.len(),
            i == 2 * names@.len() || i == n && n + 1 == 2 * names@.len(),
            i <= n,
            forall|j: int|
                0 <= j < names@.len() ==> (#[trigger] names@[j])@ == flat.deep_view()[2 * j],
        decreases n - i,
    {
        names.push(flat[i].clone());
        if n - i >= 2 {
            i = i + 2;
        } else {
            i = n;
        }
    }
    assert(names.deep_view() =~= names_in(flat.deep_view()));
    names
}

/// Reads the attributes of a node by their names.
pub struct ReadAttributesMap;

impl Next for ReadAttributesMap {
    type Input = Node;

    type Rest = Ended<NameMap<String>>;

    open spec fn next(self, node: NodeView) -> Prog<Map<Seq<char>, Seq<char>>> {
        done(entries_map(pairs(attributes_of(node))))
    }
}

impl Start for ReadAttributesMap {
    fn start(self, node: Node) -> (step: Step<Ended<NameMap<String>>, NameMap<String>>) {
        let flat = flat_attributes(node);
        Step::Done(Ok(pair_up(&flat)))
    }
}

/// Reads one attribute of a node.
pub struct PickAttribute {
    pub attribute: String,
}

impl Next for PickAttribute {
    type Input = Node;

    type Rest = Ended<Option<String>>;

    open spec fn next(self, node: NodeView) -> Prog<Option<Seq<char>>> {
        done(entry_of(entries_map(pairs(attributes_of(node))), self.attribute@))
    }
}

impl Start for PickAttribute {
    fn start(self, node: Node) -> (step: Step<Ended<Option<String>>, Option<String>>) {
        let flat = flat_attributes(node);
        let map = pair_up(&flat);
        match map.get(self.attribute.as_str()) {
            Some(value) => Step::Done(Ok(Some(value.clone()))),
            None => Step::Done(Ok(None)),
        }
    }
}

/// The attributes of an element that are yet to be read. They are read from the last to
/// the first.
#[derive(Debug, PartialEq, Eq)]
pub struct AttributeStream {
    /// The names of the attributes.
    pub attributes: Vec<String>,
    /// The element.
    pub remote_object_id: RemoteObjectId,
    /// The attribute whose value is being read.
    pub lookup: Option<String>,
}

/// The contents of an [`AttributeStream`].
pub struct AttributeStreamView {
    pub attributes: Seq<Seq<char>>,
    pub remote_object_id: Seq<char>,
    pub lookup: Option<Seq<char>>,
}

impl DeepView for AttributeStream {
    type V = AttributeStreamView;

    open spec fn deep_view(&self) -> AttributeStreamView {
        AttributeStreamView {
            attributes: self.attributes.deep_view(),
            remote_object_id: self.remote_object_id.deep_view(),
            lookup: self.lookup.deep_view(),
        }
    }
}

/// Yields a stream over the attributes of an element.
pub open spec fn iter_attributes_op(element: ElementView) -> Prog<AttributeStreamView> {
    bind(
        description_op(element),
        |node: NodeView|
            done(
                AttributeStreamView {
                    attributes: names_in(attributes_of(node)),
                    remote_object_id: element.remote_object_id,
                    lookup: None,
                },
            ),
    )
}

/// Yields the value of an attribute of an object, read by a script.
pub open spec fn object_attribute_op(remote_object_id: Seq<char>, attribute: Seq<char>) -> Prog<
    Option<Seq<char>>,
> {
    bind(
        call_js_fn_op(attribute_reader(attribute), false, remote_object_id),
        |returned: CallFunctionOnReturnsView| attribute_value(returned.result.value),
    )
}

/// Reads an attribute of an object by a script.
fn fetch_attribute(remote_object_id: RemoteObjectId, attribute: &str) -> (step: Step<
    FetchAttribute,
    Option<String>,
>)
    ensures
        follows(step, object_attribute_op(remote_object_id.deep_view(), attribute@)),
{
    broadcast use same_is_equal;

    let mut js_fn = "function() { return this.getAttribute('".to_owned();
    js_fn.append(attribute);
    js_fn.append("'); }");
    chain(call_on_object(js_fn, false, remote_object_id), ReadAttribute)
}

/// What a poll of an [`AttributeStream`] calls for.
pub enum NextAttribute {
    /// The value of the attribute that is now looked up is to be read, from this step on.
    Read(Step<FetchAttribute, Option<String>>),
    /// The value that is being read is to be waited for.
    Wait,
    /// All attributes are read.
    End,
}

/// The stream once a poll has begun: where no attribute is looked up, the last one that is
/// left is.
pub open spec fn begun(stream: AttributeStreamView) -> AttributeStreamView {
    if stream.lookup is None && stream.attributes.len() > 0 {
        AttributeStreamView {
            attributes: stream.attributes.drop_last(),
            lookup: Some(stream.attributes.last()),
            ..stream
        }
    } else {
        stream
    }
}

/// What a poll of the stream gives.
pub enum PollView<T> {
    /// An attribute and what came of the reading of its value.
    Item(Seq<char>, T),
    /// Nothing yet.
    Pending,
    /// The end of the stream.
    End,
}

/// A poll of the stream during which the reading of the value comes to `outcome`, or to
/// nothing yet: the stream after it, and what the poll gives.
pub open spec fn polled<T>(stream: AttributeStreamView, outcome: Option<T>) -> (
    AttributeStreamView,
    PollView<T>,
) {
    let reading = begun(stream);
    match reading.lookup {
        Some(name) => match outcome {
            Some(value) => (
                AttributeStreamView { lookup: None, ..reading },
                PollView::Item(name, value),
            ),
            None => (reading, PollView::Pending),
        },
        None => (reading, PollView::End),
    }
}

impl AttributeStream {
    /// Begins a poll: takes the next attribute and starts to read its value, unless one is
    /// being read.
    pub fn poll_next(&mut self) -> (next: NextAttribute)
        ensures
            final(self).deep_view() == begun(old(self).deep_view()),
            match next {
                NextAttribute::Read(step) => {
                    &&& old(self).lookup is None
                    &&& old(self).attributes@.len() > 0
                    &&& final(self).lookup == Some(old(self).attributes@.last())
                    &&& final(self).attributes@ == old(self).attributes@.drop_last()
                    &&& follows(
                        step,
                        object_attribute_op(
                            old(self).remote_object_id.deep_view(),
                            old(self).attributes@.last()@,
                        ),
                    )
                },
                NextAttribute::Wait => old(self).lookup is Some && *final(self) == *old(self),
                NextAttribute::End => {
                    &&& old(self).lookup is None
                    &&& old(self).attributes@.len() == 0
                    &&& *final(self) == *old(self)
                },
            },
    {
        if self.lookup.is_some() {
            return NextAttribute::Wait;
        }
        if self.attributes.len() == 0 {
            return NextAttribute::End;
        }
        let ghost before = self.attributes.deep_view();
        match self.attributes.pop() {
            Some(name) => {
                assert(before.drop_last() =~= self.attributes.deep_view());
                assert(before.last() == name@);
                let step = fetch_attribute(self.remote_object_id.clone(), name.as_str());
                self.lookup = Some(name);
                NextAttribute::Read(step)
            },
            None => NextAttribute::End,
        }
    }

    /// Ends a poll with what came of the reading of the value, where it has come to something:
    /// gives the attribute that was looked up and the outcome. A failure is an outcome too.
    pub fn settle(&mut self, outcome: Option<Result<Option<String>, CdpError>>) -> (item: Option<
        (String, Result<Option<String>, CdpError>),
    >)
        ensures
            final(self).attributes == old(self).attributes,
            final(self).remote_object_id == old(self).remote_object_id,
            match (old(self).lookup, outcome) {
                (Some(name), Some(value)) => {
                    &&& item == Some((name, value))
                    &&& final(self).lookup is None
                },
                _ => item is None && *final(self) == *old(self),
            },
            old(self).lookup is Some ==> {
                let (stream, poll) = polled(old(self).deep_view(), outcome);
                &&& final(self).deep_view() == stream
                &&& match item {
                    Some((name, value)) => poll == PollView::Item(name@, value),
                    None => poll == PollView::<Result<Option<String>, CdpError>>::Pending,
                }
            },
    {
        match outcome {
            Some(value) => match self.lookup.take() {
                Some(name) => Some((name, value)),
                None => None,
            },
            None => None,
        }
    }
}

/// Makes a stream over the attributes of a node.
pub struct StreamAttributes {
    pub remote_object_id: RemoteObjectId,
}

impl Next for StreamAttributes {
    type Input = Node;

    type Rest = Ended<AttributeStream>;

    open spec fn next(self, node: NodeView) -> Prog<AttributeStreamView> {
        done(
            AttributeStreamView {
                attributes: names_in(attributes_of(node)),
                remote_object_id: self.remote_object_id.deep_view(),
                lookup: None,
            },
        )
    }
}

impl Start for StreamAttributes {
    fn start(self, node: Node) -> (step: Step<Ended<AttributeStream>, AttributeStream>) {
        let flat = flat_attributes(node);
        let attributes = select_names(&flat);
        Step::Done(
            Ok(
                AttributeStream {
                    attributes,
                    remote_object_id: self.remote_object_id,
                    lookup: None,
                },
            ),
        )
    }
}

/// Makes the children of a node elements.
pub struct MakeChildren;

impl Next for MakeChildren {
    type Input = Node;

    type Rest = FromNodes;

    open spec fn next(self, node: NodeView) -> Prog<Seq<ElementView>> {
        from_nodes_op(child_ids(node))
    }
}

impl Start for MakeChildren {
    fn start(self, node: Node) -> (step: Step<FromNodes, Vec<Element>>) {
        broadcast use same_is_equal;

        let ids = list_children(&node);
        Element::from_nodes(ids)
    }
}

/// The children of a node.
pub fn list_children(node: &Node) -> (ids: Vec<NodeId>)
    ensures
        ids.deep_view() == child_ids(node.deep_view()),
        match node.children {
            Some(children) => {
                &&& ids@.len() == children@.len()
                &&& forall|i: int|
                    0 <= i < children@.len() ==> #[trigger] ids@[i] == children@[i].node_id
            },
            None => ids@.len() == 0,
        },
{
    reveal_with_fuel(Node::contents, 2);
    let mut ids: Vec<NodeId> = Vec::new();
    if let Some(children) = &node.children {
        let mut i: usize = 0;
        while i < children.len()
            invariant
                i <= children@.len(),
                ids@.len() == i,
                forall|j: int| 0 <= j < i ==> ids@[j] == (#[trigger] children@[j]).node_id,
            decreases children@.len() - i,
        {
            ids.push(children[i].node_id);
            i = i + 1;
        }
        assert(ids.deep_view() =~= child_ids(node.deep_view()));
    } else {
        assert(ids.deep_view() =~= child_ids(node.deep_view()));
    }
    ids
}

/// Lists the children, once the page has been asked for them.
pub struct ListChildren {
    pub backend_node_id: BackendNodeId,
}

impl Next for ListChildren {
    type Input = ();

    type Rest = Chain<Await<Node>, MakeChildren>;

    open spec fn next(self, u: ()) -> Prog<Seq<ElementView>> {
        bind(
            execute::<Node>(
                CommandView::DescribeNode {
                    node_id: None,
                    backend_node_id: Some(self.backend_node_id),
                    depth: Some(WHOLE_SUBTREE),
                },
            ),
            |node: NodeView| from_nodes_op(child_ids(node)),
        )
    }
}

impl Start for ListChildren {
    fn start(self, u: ()) -> (step: Step<Chain<Await<Node>, MakeChildren>, Vec<Element>>) {
        broadcast use same_is_equal;

        chain(
            executing::<Node>(
                Command::DescribeNode {
                    node_id: None,
                    backend_node_id: Some(self.backend_node_id),
                    depth: Some(WHOLE_SUBTREE),
                },
            ),
            MakeChildren,
        )
    }
}

/// Reads the name of a node.
pub struct ReadName;

impl Next for ReadName {
    type Input = Node;

    type Rest = Ended<String>;

    open spec fn next(self, node: NodeView) -> Prog<Seq<char>> {
        done(node.node_name)
    }
}

impl Start for ReadName {
    fn start(self, node: Node) -> (step: Step<Ended<String>, String>) {
        Step::Done(Ok(node.node_name))
    }
}

/// Reads the value of a node.
pub struct ReadNodeValue;

impl Next for ReadNodeValue {
    type Input = Node;

    type Rest = Ended<String>;

    open spec fn next(self, node: NodeView) -> Prog<Seq<char>> {
        done(node.node_value)
    }
}

impl Start for ReadNodeValue {
    fn start(self, node: Node) -> (step: Step<Ended<String>, String>) {
        Step::Done(Ok(node.node_value))
    }
}

/// Reads properties by their names.
pub struct ReadProperties;

impl Next for ReadProperties {
    type Input = Vec<PropertyDescriptor>;

    type Rest = Ended<NameMap<PropertyDescriptor>>;

    open spec fn next(self, properties: Seq<PropertyDescriptorView>) -> Prog<
        Map<Seq<char>, PropertyDescriptorView>,
    > {
        done(properties_map(properties))
    }
}

impl Start for ReadProperties {
    fn start(self, properties: Vec<PropertyDescriptor>) -> (step: Step<
        Ended<NameMap<PropertyDescriptor>>,
        NameMap<PropertyDescriptor>,
    >) {
        Step::Done(Ok(name_properties(properties)))
    }
}

/// Properties by their names.
pub fn name_properties(properties: Vec<PropertyDescriptor>) -> (map: NameMap<PropertyDescriptor>)
    ensures
        map.deep_view() == properties_map(properties.deep_view()),
{
    let ghost all = properties.deep_view().map_values(|p: PropertyDescriptorView| (p.name, p));
    let mut rest = properties;
    let mut entries: Vec<(String, PropertyDescriptor)> = Vec::new();
    while rest.len() > 0
        invariant
            all.len() == entries@.len() + rest@.len(),
            forall|i: int|
                0 <= i < entries@.len() ==> (#[trigger] entries@[i]).deep_view() == all[i],
            forall|i: int|
                0 <= i < rest@.len() ==> ((#[trigger] rest@[i]).name@, rest@[i].deep_view())
                    == all[entries@.len() + i],
        decreases rest@.len(),
    {
        let property = rest.remove(0);
        entries.push((property.name.clone(), property));
    }
    assert(entries.deep_view() =~= all);
    NameMap { entries }
}

impl Element {
    /// Calls a function on the element.
    pub fn call_js_fn(&self, function_declaration: String, await_promise: bool) -> (step: Step<
        Await<CallFunctionOnReturns>,
        CallFunctionOnReturns,
    >)
        ensures
            follows(step, call_op(self.deep_view(), function_declaration@, await_promise)),
    {
        call_on_object(function_declaration, await_promise, self.remote_object_id.clone())
    }

    /// Yields the element as a JSON value.
    pub fn json_value(&self) -> (step: Step<Chain<Await<CallFunctionOnReturns>, ReadValue>, Json>)
        ensures
            follows(step, json_value_op(self.deep_view())),
    {
        broadcast use same_is_equal;

        chain(self.call_js_fn("function() { return this; }".to_owned(), false), ReadValue)
    }

    /// Calls `focus` on the element by a script.
    pub fn focus_js(&self) -> (step: Step<Await<CallFunctionOnReturns>, CallFunctionOnReturns>)
        ensures
            follows(step, call_op(self.deep_view(), "function() { this.focus(); }"@, true)),
    {
        self.call_js_fn("function() { this.focus(); }".to_owned(), true)
    }

    /// Scrolls the element into view by a script. It fails where the element's node is not
    /// an HTML element or is detached from the document.
    pub fn scroll_into_view_js(&self) -> (step: Step<
        Chain<Await<CallFunctionOnReturns>, ReadScrolled>,
        (),
    >)
        ensures
            follows(step, scroll_into_view_js_op(self.deep_view())),
    {
        broadcast use same_is_equal;

        chain(self.call_js_fn(SCROLL_INTO_VIEW.to_owned(), true), ReadScrolled)
    }

    /// Yields the description of the element's node.
    pub fn description(&self) -> (step: Step<Await<Node>, Node>)
        ensures
            follows(step, description_op(self.deep_view())),
    {
        executing(
            Command::DescribeNode {
                node_id: None,
                backend_node_id: Some(self.backend_node_id),
                depth: Some(WHOLE_SUBTREE),
            },
        )
    }

    /// Yields the attributes of the element in a flat list:
    /// `[name1, value1, name2, value2]`.
    pub fn attributes(&self) -> (step: Step<Chain<Await<Node>, ReadAttributes>, Vec<String>>)
        ensures
            follows(step, attributes_op(self.deep_view())),
    {
        broadcast use same_is_equal;

        chain(self.description(), ReadAttributes)
    }

    /// Yields the attributes of the element by their names.
    pub fn attributes_map(&self) -> (step: Step<
        Chain<Await<Node>, ReadAttributesMap>,
        NameMap<String>,
    >)
        ensures
            follows(step, attributes_map_op(self.deep_view())),
    {
        broadcast use same_is_equal;

        chain(self.description(), ReadAttributesMap)
    }

    /// Yields the value of an attribute, where the element has it.
    pub fn attribute(&self, attribute: &str) -> (step: Step<
        Chain<Await<Node>, PickAttribute>,
        Option<String>,
    >)
        ensures
            follows(step, attribute_op(self.deep_view(), attribute@)),
    {
        broadcast use same_is_equal;

        chain(self.description(), PickAttribute { attribute: attribute.to_owned() })
    }

    /// Yields the value of an attribute, read by a script.
    pub fn attribute_js(&self, attribute: &str) -> (step: Step<FetchAttribute, Option<String>>)
        ensures
            follows(step, attribute_js_op(self.deep_view(), attribute@)),
    {
        fetch_attribute(self.remote_object_id.clone(), attribute)
    }

    /// Sets an attribute.
    pub fn set_attribute(&self, name: String, value: String) -> (step: Step<Await<()>, ()>)
        ensures
            follows(
                step,
                execute::<()>(
                    CommandView::SetAttributeValue {
                        node_id: self.node_id,
                        name: name@,
                        value: value@,
                    },
                ),
            ),
    {
        executing(Command::SetAttributeValue { node_id: self.node_id, name, value })
    }

    /// Yields a stream over all attributes and their values.
    pub fn iter_attributes(&self) -> (step: Step<
        Chain<Await<Node>, StreamAttributes>,
        AttributeStream,
    >)
        ensures
            follows(step, iter_attributes_op(self.deep_view())),
    {
        broadcast use same_is_equal;

        chain(
            self.description(),
            StreamAttributes { remote_object_id: self.remote_object_id.clone() },
        )
    }

    /// Yields the children of the element.
    pub fn children(&self) -> (step: Step<Chain<Await<()>, ListChildren>, Vec<Element>>)
        ensures
            follows(step, children_op(self.deep_view())),
    {
        broadcast use same_is_equal;

        chain(
            executing::<()>(
                Command::RequestChildNodes {
                    node_id: self.node_id,
                    depth: Some(WHOLE_SUBTREE),
                    pierce: Some(true),
                },
            ),
            ListChildren { backend_node_id: self.backend_node_id },
        )
    }

    /// Yields the name of the element's node.
    pub fn tag(&self) -> (step: Step<Chain<Await<Node>, ReadName>, String>)
        ensures
            follows(
                step,
                bind(description_op(self.deep_view()), |node: NodeView| done(node.node_name)),
            ),
    {
        broadcast use same_is_equal;

        chain(self.description(), ReadName)
    }

    /// Yields the value of the element's node.
    pub fn value(&self) -> (step: Step<Chain<Await<Node>, ReadNodeValue>, String>)
        ensures
            follows(
                step,
                bind(description_op(self.deep_view()), |node: NodeView| done(node.node_value)),
            ),
    {
        broadcast use same_is_equal;

        chain(self.description(), ReadNodeValue)
    }

    /// Yields the inner text of the element.
    pub fn inner_text(&self) -> (step: Step<FetchText, Option<String>>)
        ensures
            follows(step, string_property_op(self.deep_view(), "innerText"@)),
    {
        self.string_property("innerText")
    }

    /// Yields the inner HTML of the element.
    pub fn inner_html(&self) -> (step: Step<FetchText, Option<String>>)
        ensures
            follows(step, string_property_op(self.deep_view(), "innerHTML"@)),
    {
        self.string_property("innerHTML")
    }

    /// Yields the outer HTML of the element.
    pub fn outer_html(&self) -> (step: Step<FetchText, Option<String>>)
        ensures
            follows(step, string_property_op(self.deep_view(), "outerHTML"@)),
    {
        self.string_property("outerHTML")
    }

    /// Yields a property of the element that is a text. `None` where it is empty.
    pub fn string_property(&self, property: &str) -> (step: Step<FetchText, Option<String>>)
        ensures
            follows(step, string_property_op(self.deep_view(), property@)),
    {
        broadcast use same_is_equal;

        chain(self.property(property), ReadText)
    }

    /// Yields a property of the element.
    pub fn property(&self, property: &str) -> (step: Step<FetchProperty, Option<Json>>)
        ensures
            follows(step, property_op(self.deep_view(), property@)),
    {
        broadcast use same_is_equal;

        let mut js_fn = "function() { return this.".to_owned();
        js_fn.append(property);
        js_fn.append("; }");
        chain(self.call_js_fn(js_fn, false), ReadProperty)
    }

    /// Yields the properties that the element itself has, by their names.
    pub fn properties(&self) -> (step: Step<
        Chain<Await<Vec<PropertyDescriptor>>, ReadProperties>,
        NameMap<PropertyDescriptor>,
    >)
        ensures
            follows(step, properties_op(self.deep_view())),
    {
        broadcast use same_is_equal;

        chain(
            executing::<Vec<PropertyDescriptor>>(
                Command::GetProperties {
                    object_id: self.remote_object_id.clone(),
                    own_properties: Some(true),
                },
            ),
            ReadProperties,
        )
    }

    /// Yields the HTML of the element.
    pub fn get_content(&self) -> (step: Step<Await<String>, String>)
        ensures
            follows(
                step,
                execute::<String>(
                    CommandView::GetOuterHtml {
                        node_id: Some(self.node_id),
                        backend_node_id: Some(self.backend_node_id),
                        object_id: Some(self.remote_object_id.deep_view()),
                    },
                ),
            ),
    {
        executing(
            Command::GetOuterHtml {
                node_id: Some(self.node_id),
                backend_node_id: Some(self.backend_node_id),
                object_id: Some(self.remote_object_id.clone()),
            },
        )
    }

    /// Replaces the element by the elements of an HTML text.
    pub fn set_content(&self, html: &str) -> (step: Step<Await<()>, ()>)
        ensures
            follows(
                step,
                execute::<()>(
                    CommandView::SetOuterHtml { node_id: self.node_id, outer_html: html@ },
                ),
            ),
    {
        executing(Command::SetOuterHtml { node_id: self.node_id, outer_html: html.to_owned() })
    }
}

// What holds whatever the browser answers.

/// A click on an element scrolls it into view first.
pub proof fn click_scrolls_first(backend_node_id: BackendNodeId)
    ensures
        asks_first(
            click_element_op(backend_node_id),
            |request: RequestView| scrolls(request),
            |request: RequestView| points(request),
        ),
{
}

/// To hover over an element scrolls it into view first.
pub proof fn hover_scrolls_first(backend_node_id: BackendNodeId)
    ensures
        asks_first(
            hover_op(backend_node_id),
            |request: RequestView| scrolls(request),
            |request: RequestView| points(request),
        ),
{
}

/// To focus an element scrolls it into view first.
pub proof fn focus_scrolls_first(backend_node_id: BackendNodeId)
    ensures
        asks_first(
            focus_op(backend_node_id),
            |request: RequestView| scrolls(request),
            |request: RequestView| points(request),
        ),
{
}

/// The value of an attribute is what the map of all attributes holds under its name.
pub proof fn attribute_agrees_with_map(element: ElementView, attribute: Seq<char>)
    ensures
        attribute_op(element, attribute) == bind(
            attributes_map_op(element),
            |map: Map<Seq<char>, Seq<char>>| done(entry_of(map, attribute)),
        ),
{
    let read_map = |node: NodeView| done(entries_map(pairs(attributes_of(node))));
    let pick = |map: Map<Seq<char>, Seq<char>>| done(entry_of(map, attribute));
    bind_is_associative(description_op(element), read_map, pick);
    assert((|node: NodeView| bind(read_map(node), pick)) =~= (|node: NodeView|
        done(entry_of(entries_map(pairs(attributes_of(node))), attribute))));
}

/// The map of all attributes is read of the flat list of names and values.
pub proof fn map_agrees_with_attributes(element: ElementView)
    ensures
        attributes_map_op(element) == bind(
            attributes_op(element),
            |flat: Seq<Seq<char>>| done(entries_map(pairs(flat))),
        ),
{
    let read_flat = |node: NodeView| done(attributes_of(node));
    let pair = |flat: Seq<Seq<char>>| done(entries_map(pairs(flat)));
    bind_is_associative(description_op(element), read_flat, pair);
    assert((|node: NodeView| bind(read_flat(node), pair)) =~= (|node: NodeView|
        done(entries_map(pairs(attributes_of(node))))));
}

/// The map of entries has the names of the entries.
proof fn entries_map_has_names<V>(entries: Seq<(Seq<char>, V)>, name: Seq<char>)
    ensures
        entries_map(entries).contains_key(name) <==> exists|i: int|
            0 <= i < entries.len() && (#[trigger] entries[i]).0 == name,
    decreases entries.len(),
{
    if entries.len() > 0 {
        let shorter = entries.drop_last();
        entries_map_has_names(shorter, name);
        if entries_map(shorter).contains_key(name) {
            let i = choose|i: int| 0 <= i < shorter.len() && (#[trigger] shorter[i]).0 == name;
            assert(entries[i].0 == name);
        }
        assert(entries[entries.len() - 1] == entries.last());
        if exists|i: int| 0 <= i < entries.len() && (#[trigger] entries[i]).0 == name {
            let i = choose|i: int| 0 <= i < entries.len() && (#[trigger] entries[i]).0 == name;
            if i < shorter.len() {
                assert(shorter[i].0 == name);
            }
        }
    }
}

/// The stream over the attributes has just the names that the map of attributes has,
/// where each name has a value.
pub proof fn stream_agrees_with_map(flat: Seq<Seq<char>>, name: Seq<char>)
    requires
        flat.len() % 2 == 0,
    ensures
        names_in(flat).contains(name) <==> entries_map(pairs(flat)).contains_key(name),
{
    let entries = pairs(flat);
    entries_map_has_names(entries, name);
    if names_in(flat).contains(name) {
        let i = choose|i: int| 0 <= i < names_in(flat).len() && names_in(flat)[i] == name;
        assert(entries[i].0 == name);
    }
    if entries_map(entries).contains_key(name) {
        let i = choose|i: int| 0 <= i < entries.len() && (#[trigger] entries[i]).0 == name;
        assert(names_in(flat)[i] == name);
    }
}

/// The text of a property is never yielded where it is empty.
pub proof fn property_is_never_empty(element: ElementView, property: Seq<char>)
    ensures
        yields(
            string_property_op(element, property),
            |text: Option<Seq<char>>| text matches Some(t) ==> t.len() > 0,
        ),
{
    let filled = |text: Option<Seq<char>>| text matches Some(t) ==> t.len() > 0;
    let read = |value: Option<Seq<char>>| string_property_value(value);
    assert forall|value: Option<Seq<char>>| yields(#[trigger] read(value), filled) by {
    }
    bind_yields(property_op(element, property), read, filled);
}

/// The attributes that the stream is yet to give, in the order in which it gives them.
pub open spec fn yet_to_come(stream: AttributeStreamView) -> Seq<Seq<char>> {
    match stream.lookup {
        Some(name) => seq![name] + stream.attributes.reverse(),
        None => stream.attributes.reverse(),
    }
}

/// The stream after polls with these outcomes.
pub open spec fn after_polls<T>(
    stream: AttributeStreamView,
    outcomes: Seq<Option<T>>,
) -> AttributeStreamView
    decreases outcomes.len(),
{
    if outcomes.len() == 0 {
        stream
    } else {
        after_polls(polled(stream, outcomes[0]).0, outcomes.skip(1))
    }
}

/// The items that polls with these outcomes give.
pub open spec fn items_of_polls<T>(
    stream: AttributeStreamView,
    outcomes: Seq<Option<T>>,
) -> Seq<(Seq<char>, T)>
    decreases outcomes.len(),
{
    if outcomes.len() == 0 {
        seq![]
    } else {
        let (after, poll) = polled(stream, outcomes[0]);
        let rest = items_of_polls(after, outcomes.skip(1));
        match poll {
            PollView::Item(name, value) => seq![(name, value)] + rest,
            _ => rest,
        }
    }
}

/// The attributes whose values polls with these outcomes start to read.
pub open spec fn started_by_polls<T>(
    stream: AttributeStreamView,
    outcomes: Seq<Option<T>>,
) -> Seq<Seq<char>>
    decreases outcomes.len(),
{
    if outcomes.len() == 0 {
        seq![]
    } else {
        let rest = started_by_polls(polled(stream, outcomes[0]).0, outcomes.skip(1));
        if stream.lookup is None && stream.attributes.len() > 0 {
            seq![stream.attributes.last()] + rest
        } else {
            rest
        }
    }
}

/// The outcomes that are not pending.
pub open spec fn settled_outcomes<T>(outcomes: Seq<Option<T>>) -> Seq<T>
    decreases outcomes.len(),
{
    if outcomes.len() == 0 {
        seq![]
    } else {
        match outcomes[0] {
            Some(value) => seq![value] + settled_outcomes(outcomes.skip(1)),
            None => settled_outcomes(outcomes.skip(1)),
        }
    }
}

/// The names of items.
pub open spec fn names_of_items<T>(items: Seq<(Seq<char>, T)>) -> Seq<Seq<char>> {
    items.map_values(|item: (Seq<char>, T)| item.0)
}

/// A poll is its beginning followed by its end, and it finds the end of the stream where its
/// beginning leaves no attribute looked up.
pub proof fn poll_is_its_beginning_and_its_end<T>(stream: AttributeStreamView, outcome: Option<T>)
    ensures
        polled(begun(stream), outcome) == polled(stream, outcome),
        polled(stream, outcome).1 is End <==> begun(stream).lookup is None,
{
}

/// Whatever the polls come to, the names of the items that were given, followed by those that
/// are yet to come, are the names that were to come at the start: the stream gives each
/// attribute once, from the last to the first, and a poll that is pending loses none.
pub proof fn stream_gives_each_attribute_once<T>(
    stream: AttributeStreamView,
    outcomes: Seq<Option<T>>,
)
    ensures
        names_of_items(items_of_polls(stream, outcomes)) + yet_to_come(
            after_polls(stream, outcomes),
        ) == yet_to_come(stream),
    decreases outcomes.len(),
{
    let items = items_of_polls(stream, outcomes);
    if outcomes.len() == 0 {
        assert(names_of_items(items) + yet_to_come(stream) =~= yet_to_come(stream));
    } else {
        let (after, poll) = polled(stream, outcomes[0]);
        let rest = items_of_polls(after, outcomes.skip(1));
        let left = yet_to_come(after_polls(stream, outcomes));
        stream_gives_each_attribute_once(after, outcomes.skip(1));
        assert(yet_to_come(begun(stream)) =~= yet_to_come(stream));
        match poll {
            PollView::Item(name, value) => {
                assert(names_of_items(items) =~= seq![name] + names_of_items(rest));
                assert(seq![name] + (names_of_items(rest) + left) =~= names_of_items(items) + left);
            },
            _ => {},
        }
    }
}

/// The stream starts to read each value once, from the last attribute to the first, and it
/// reads all of them from the same element: a poll that is pending starts no second reading.
pub proof fn stream_starts_each_reading_once<T>(
    stream: AttributeStreamView,
    outcomes: Seq<Option<T>>,
)
    ensures
        started_by_polls(stream, outcomes) + after_polls(stream, outcomes).attributes.reverse()
            == stream.attributes.reverse(),
        after_polls(stream, outcomes).remote_object_id == stream.remote_object_id,
    decreases outcomes.len(),
{
    if outcomes.len() == 0 {
        assert(started_by_polls(stream, outcomes) + stream.attributes.reverse()
            =~= stream.attributes.reverse());
    } else {
        let after = polled(stream, outcomes[0]).0;
        let rest = started_by_polls(after, outcomes.skip(1));
        let left = after_polls(stream, outcomes).attributes.reverse();
        stream_starts_each_reading_once(after, outcomes.skip(1));
        if stream.lookup is None && stream.attributes.len() > 0 {
            let name = stream.attributes.last();
            assert(stream.attributes.reverse() =~= seq![name]
                + stream.attributes.drop_last().reverse());
            assert(seq![name] + (rest + left) =~= started_by_polls(stream, outcomes) + left);
        }
    }
}

/// Each item holds the outcome of its own reading, whether it is a value or a failure: the
/// items hold, in order, the outcomes that came before the end. A failure ends nothing.
pub proof fn items_hold_the_outcomes<T>(stream: AttributeStreamView, outcomes: Seq<Option<T>>)
    ensures
        ({
            let items = items_of_polls(stream, outcomes);
            let settled = settled_outcomes(outcomes);
            let count = yet_to_come(stream).len();
            &&& items.len() == if settled.len() < count {
                settled.len()
            } else {
                count
            }
            &&& forall|i: int| 0 <= i < items.len() ==> #[trigger] items[i].1 == settled[i]
        }),
    decreases outcomes.len(),
{
    if outcomes.len() > 0 {
        let after = polled(stream, outcomes[0]).0;
        items_hold_the_outcomes(after, outcomes.skip(1));
        let rest = items_of_polls(after, outcomes.skip(1));
        let settled = settled_outcomes(outcomes.skip(1));
        assert(yet_to_come(begun(stream)).len() == yet_to_come(stream).len());
        assert forall|i: int| 0 <= i < items_of_polls(stream, outcomes).len() implies
            #[trigger] items_of_polls(stream, outcomes)[i].1 == settled_outcomes(outcomes)[i] by {
            if outcomes[0] is Some {
                if i > 0 {
                    assert(rest[i - 1].1 == settled[i - 1]);
                }
            } else {
                assert(rest[i].1 == settled[i]);
            }
        }
    }
}

/// A poll finds the end where nothing is yet to come, and nowhere else.
pub proof fn stream_ends_when_all_is_given<T>(stream: AttributeStreamView, outcome: Option<T>)
    ensures
        polled(stream, outcome).1 is End <==> yet_to_come(stream).len() == 0,
{
}

/// Once a poll has found the end, the stream stays as it is, gives nothing more, starts no
/// reading, and each further poll finds the end.
pub proof fn end_of_stream_is_final<T>(
    stream: AttributeStreamView,
    outcome: Option<T>,
    outcomes: Seq<Option<T>>,
    further: Option<T>,
)
    requires
        polled(stream, outcome).1 is End,
    ensures
        after_polls(stream, outcomes) == stream,
        items_of_polls(stream, outcomes) == Seq::<(Seq<char>, T)>::empty(),
        started_by_polls(stream, outcomes) == Seq::<Seq<char>>::empty(),
        polled(after_polls(stream, outcomes), further) == (stream, PollView::<T>::End),
    decreases outcomes.len(),
{
    if outcomes.len() > 0 {
        end_of_stream_is_final(stream, outcome, outcomes.skip(1), further);
    }
}

/// A stream with no reading under way that is polled until it finds its end has given exactly
/// its attributes, from the last to the first, each with the outcome of its own reading, and
/// has started exactly these readings.
pub proof fn drained_stream_gave_all_attributes<T>(
    stream: AttributeStreamView,
    outcomes: Seq<Option<T>>,
    outcome: Option<T>,
)
    requires
        stream.lookup is None,
        polled(after_polls(stream, outcomes), outcome).1 is End,
    ensures
        ({
            let items = items_of_polls(stream, outcomes);
            let names = stream.attributes;
            &&& items.len() == names.len()
            &&& forall|i: int|
                0 <= i < items.len() ==> #[trigger] items[i] == (
                    names[names.len() - 1 - i],
                    settled_outcomes(outcomes)[i],
                )
        }),
        started_by_polls(stream, outcomes) == stream.attributes.reverse(),
{
    let items = items_of_polls(stream, outcomes);
    let after = after_polls(stream, outcomes);
    stream_gives_each_attribute_once(stream, outcomes);
    stream_starts_each_reading_once(stream, outcomes);
    items_hold_the_outcomes(stream, outcomes);
    assert(names_of_items(items) + yet_to_come(after) =~= names_of_items(items));
    assert forall|i: int| 0 <= i < items.len() implies #[trigger] items[i] == (
        stream.attributes[stream.attributes.len() - 1 - i],
        settled_outcomes(outcomes)[i],
    ) by {
        assert(names_of_items(items)[i] == items[i].0);
        assert(stream.attributes.reverse()[i] == items[i].0);
        assert(items[i].1 == settled_outcomes(outcomes)[i]);
    }
    assert(started_by_polls(stream, outcomes) + after.attributes.reverse()
        =~= started_by_polls(stream, outcomes));
}

/// The stream reads a value as [`Element::attribute_js`] does.
pub proof fn stream_reads_by_the_script(element: ElementView, attribute: Seq<char>)
    ensures
        object_attribute_op(element.remote_object_id, attribute) == attribute_js_op(
            element,
            attribute,
        ),
{
}

} // verus!
