//! Elements that are looked for.
use vstd::prelude::*;

use crate::cdp::command::CommandView;
use crate::cdp::dom::{Node, NodeId, NodeView, PerformSearchReturnsView};
use crate::cdp::runtime::RemoteObjectView;
use crate::element::{collected, Element, ElementView, MakeElement, MakeElements, NewElement};
use crate::error::ErrorView;
use crate::flow::{bind, done, fail, remaining, same_is_equal, Await, Chain, Prog, Step};
use crate::handler::page::{PageInner, Search};
use crate::page::{Page, QueryRoot, QueryRootAll, SearchAll, SearchAwaited, SearchFirst};
use crate::protocol::{ReplyView, RequestView, ResolvedView};
use crate::text::decimal;

verus! {

impl<T> Prog<T> {
    /// What is left of an operation once it has asked for the document, with all of its nodes.
    pub open spec fn gets_document(self, root: NodeView) -> Prog<T> {
        self.sends(
            CommandView::GetDocument { depth: Some((-1) as i64), pierce: Some(true) },
            ReplyView::Node(root),
        )
    }

    /// What is left of an operation once it has searched the document for a query: it fetches
    /// all that was found, and discards the search.
    pub open spec fn searches(
        self,
        query: Seq<char>,
        found: PerformSearchReturnsView,
        node_ids: Seq<NodeId>,
        discarded: ReplyView,
    ) -> Prog<T> {
        self.sends(
            CommandView::PerformSearch { query, include_user_agent_shadow_dom: Some(true) },
            ReplyView::Search(found),
        ).sends(
            CommandView::GetSearchResults {
                search_id: found.search_id,
                from_index: 0,
                to_index: found.result_count,
            },
            ReplyView::NodeIds(node_ids),
        ).sends(CommandView::DiscardSearchResults { search_id: found.search_id }, discarded)
    }
}

impl Prog<ElementView> {
    /// Whether an operation goes on to make an element of a node: it finds out the backend id
    /// of that node, then the object that it is in the page, and these make up the element. A
    /// node without an object is an error that names the node.
    pub open spec fn makes_element(
        self,
        node_id: NodeId,
        node: NodeView,
        object: RemoteObjectView,
    ) -> bool {
        let made = self.sends(
            CommandView::DescribeNode {
                node_id: Some(node_id),
                backend_node_id: None,
                depth: Some((-1) as i64),
            },
            ReplyView::Node(node),
        ).sends(
            CommandView::ResolveNode { backend_node_id: node.backend_node_id },
            ReplyView::Object(object),
        );
        if object.object_id is Some {
            made == done(
                ElementView {
                    remote_object_id: object.object_id->0,
                    backend_node_id: node.backend_node_id,
                    node_id,
                },
            )
        } else {
            made == fail::<ElementView>(
                ErrorView::ChromeMessage(
                    "No object Id found for NodeId("@ + decimal(node_id.0 as int) + ")"@,
                ),
            )
        }
    }
}

/// A node becomes an element.
pub proof fn node_becomes_an_element(
    node_id: NodeId,
    step: Step<NewElement, Element>,
    node: NodeView,
    object: RemoteObjectView,
)
    requires
        call_ensures(Element::new, (node_id,), step),
    ensures
        remaining(step).makes_element(node_id, node, object),
{
    reveal_with_fuel(bind, 3);
}

/// The element that a selector finds is that of the node that the browser finds for it, in the
/// whole document. To wait for it is to look for it.
pub proof fn selector_finds_an_element(
    page: &Page,
    selector: String,
    step: Step<Chain<Await<Node>, QueryRoot>, Element>,
    waiting: Step<Chain<Await<Node>, QueryRoot>, Element>,
    root: NodeView,
    node_id: NodeId,
    node: NodeView,
    object: RemoteObjectView,
)
    requires
        call_ensures(Page::find_element, (page, selector), step),
        call_ensures(Page::wait_for_element, (page, &selector), waiting),
    ensures
        remaining(step).gets_document(root).sends(
            CommandView::QuerySelector { node_id: root.node_id, selector: selector@ },
            ReplyView::NodeId(node_id),
        ).makes_element(node_id, node, object),
        remaining(waiting) == remaining(step),
{
    broadcast use same_is_equal;

    reveal_with_fuel(bind, 5);
}

/// The elements that a selector finds are those of all nodes that the browser finds for it, in
/// the whole document.
pub proof fn selector_finds_elements(
    page: &Page,
    selector: String,
    step: Step<Chain<Await<Node>, QueryRootAll>, Vec<Element>>,
    root: NodeView,
    node_ids: Seq<NodeId>,
    elements: Seq<ElementView>,
)
    requires
        call_ensures(Page::find_elements, (page, selector), step),
        elements.len() == node_ids.len(),
    ensures
        remaining(step).gets_document(root).sends(
            CommandView::QuerySelectorAll { node_id: root.node_id, selector: selector@ },
            ReplyView::NodeIds(node_ids),
        ).asks(
            RequestView::Elements { node_ids },
            ReplyView::Elements(
                elements.map_values(|element: ElementView| ResolvedView::Element(element)),
            ),
        ) == done(elements),
{
    all_elements_are_yielded(elements);
    reveal_with_fuel(bind, 5);
}

/// Where all nodes became elements, these are yielded.
proof fn all_elements_are_yielded(elements: Seq<ElementView>)
    ensures
        collected(
            elements.map_values(|element: ElementView| ResolvedView::Element(element)),
        ) == done(elements),
    decreases elements.len(),
{
    let results = elements.map_values(|element: ElementView| ResolvedView::Element(element));
    if elements.len() > 0 {
        all_elements_are_yielded(elements.skip(1));
        assert(elements.skip(1).map_values(|element: ElementView| ResolvedView::Element(element))
            =~= results.skip(1));
    }
    assert(results.map_values(|result: ResolvedView| result->Element_0) =~= elements);
}

/// An XPath is searched for in the document, and the first node that is found becomes the
/// element. To wait for it is to look for it, but that nothing found is an error of its own.
pub proof fn xpath_finds_an_element(
    page: &Page,
    selector: String,
    step: Step<Chain<Await<Node>, SearchFirst>, Element>,
    waiting: Step<Chain<Await<Node>, SearchAwaited>, Element>,
    root: NodeView,
    found: PerformSearchReturnsView,
    node_ids: Seq<NodeId>,
    discarded: ReplyView,
    node: NodeView,
    object: RemoteObjectView,
)
    requires
        call_ensures(Page::find_xpath, (page, selector), step),
        call_ensures(Page::wait_for_xpath, (page, &selector), waiting),
    ensures
        node_ids.len() > 0 ==> remaining(step).gets_document(root).searches(
            selector@,
            found,
            node_ids,
            discarded,
        ).makes_element(node_ids[0], node, object),
        node_ids.len() > 0 ==> remaining(waiting).gets_document(root).searches(
            selector@,
            found,
            node_ids,
            discarded,
        ).makes_element(node_ids[0], node, object),
        node_ids.len() == 0 ==> remaining(waiting).gets_document(root).searches(
            selector@,
            found,
            node_ids,
            discarded,
        ) == fail::<ElementView>(ErrorView::NotFound),
{
    reveal_with_fuel(bind, 7);
}

/// All nodes that an XPath finds become the elements.
pub proof fn xpath_finds_elements(
    page: &Page,
    selector: String,
    step: Step<Chain<Await<Node>, SearchAll>, Vec<Element>>,
    root: NodeView,
    found: PerformSearchReturnsView,
    node_ids: Seq<NodeId>,
    discarded: ReplyView,
    elements: Seq<ElementView>,
)
    requires
        call_ensures(Page::find_xpaths, (page, selector), step),
        elements.len() == node_ids.len(),
    ensures
        remaining(step).gets_document(root).searches(selector@, found, node_ids, discarded).asks(
            RequestView::Elements { node_ids },
            ReplyView::Elements(
                elements.map_values(|element: ElementView| ResolvedView::Element(element)),
            ),
        ) == done(elements),
{
    all_elements_are_yielded(elements);
    reveal_with_fuel(bind, 7);
}

/// What is looked for within an element is looked for among the nodes below its node.
pub proof fn elements_are_found_within_an_element(
    element: &Element,
    selector: &String,
    one: Step<Chain<Await<NodeId>, MakeElement>, Element>,
    all: Step<Chain<Await<Vec<NodeId>>, MakeElements>, Vec<Element>>,
    node_id: NodeId,
    node: NodeView,
    object: RemoteObjectView,
    node_ids: Seq<NodeId>,
    elements: Seq<ElementView>,
)
    requires
        call_ensures(Element::query_element, (element, selector), one),
        call_ensures(Element::query_elements, (element, selector), all),
        elements.len() == node_ids.len(),
    ensures
        remaining(one).sends(
            CommandView::QuerySelector { node_id: element.node_id, selector: selector@ },
            ReplyView::NodeId(node_id),
        ).makes_element(node_id, node, object),
        remaining(all).sends(
            CommandView::QuerySelectorAll { node_id: element.node_id, selector: selector@ },
            ReplyView::NodeIds(node_ids),
        ).asks(
            RequestView::Elements { node_ids },
            ReplyView::Elements(
                elements.map_values(|element: ElementView| ResolvedView::Element(element)),
            ),
        ) == done(elements),
{
    all_elements_are_yielded(elements);
    reveal_with_fuel(bind, 4);
}

/// A session looks for nodes where it is told, and yields what the browser finds.
pub proof fn session_finds_nodes(
    tab: &PageInner,
    selector: String,
    within: NodeId,
    one: Step<Await<NodeId>, NodeId>,
    all: Step<Await<Vec<NodeId>>, Vec<NodeId>>,
    search: Step<Search, Vec<NodeId>>,
    document: Step<Await<Node>, Node>,
    removed: Step<Await<()>, ()>,
    node_id: NodeId,
    node_ids: Seq<NodeId>,
    found: PerformSearchReturnsView,
    root: NodeView,
    reply: ReplyView,
)
    requires
        call_ensures(PageInner::query_selector, (tab, selector, within), one),
        call_ensures(PageInner::query_selector_all, (tab, selector, within), all),
        call_ensures(PageInner::perfrom_search, (tab, selector), search),
        call_ensures(PageInner::get_document, (tab,), document),
        call_ensures(PageInner::remove, (tab, within), removed),
    ensures
        remaining(one).sends(
            CommandView::QuerySelector { node_id: within, selector: selector@ },
            ReplyView::NodeId(node_id),
        ) == done(node_id),
        remaining(all).sends(
            CommandView::QuerySelectorAll { node_id: within, selector: selector@ },
            ReplyView::NodeIds(node_ids),
        ) == done(node_ids),
        remaining(search).searches(selector@, found, node_ids, reply) == done(node_ids),
        remaining(document).gets_document(root) == done(root),
        remaining(removed).sends(CommandView::RemoveNode { node_id: within }, reply) == done(()),
{
    reveal_with_fuel(bind, 4);
}

} // verus!
