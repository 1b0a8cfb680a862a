//! What is read of elements, and what is changed of them.
use vstd::prelude::*;

use crate::cdp::command::CommandView;
use crate::cdp::dom::{Node, NodeId, NodeView};
use crate::cdp::runtime::{
    CallFunctionOnParamsView, CallFunctionOnReturns, CallFunctionOnReturnsView, PropertyDescriptor,
    PropertyDescriptorView, RemoteObjectType,
};
use crate::conversation::screenshots::has_whole_boxes;
use crate::element::{
    attributes_of, child_ids, first_failure, list_children, pairs, AttributeStream, Element,
    ElementView, FetchAttribute, FetchBounds, FetchBoxes, FetchProperty, FetchText, FromNodes,
    ListChildren, PickAttribute, ReadAttributes, ReadAttributesMap, ReadName, ReadNodeValue,
    ReadProperties, ReadScrolled, ReadValue, StreamAttributes, SCROLL_INTO_VIEW,
};
use crate::error::ErrorView;
use crate::flow::{bind, done, fail, remaining, Await, Chain, Prog, Step};
use crate::json::{json_optional_string, json_string, Json};
use crate::layout::{BoundingBox, BoxModel, ElementQuad, Point};
use crate::names::{entries_map, NameMap};
use crate::number::Num;
use crate::protocol::{BoxModelReplyView, ReplyView, RequestView, ResolvedView};

verus! {

impl<T> Prog<T> {
    /// What is left of an operation once the node of an element is described, with all that is
    /// below it.
    pub open spec fn describes(self, element: &Element, node: NodeView) -> Prog<T> {
        self.sends(
            CommandView::DescribeNode {
                node_id: None,
                backend_node_id: Some(element.backend_node_id),
                depth: Some((-1) as i64),
            },
            ReplyView::Node(node),
        )
    }

    /// What is left of an operation once a function is called on the object of an element.
    pub open spec fn calls(
        self,
        element: &Element,
        function_declaration: Seq<char>,
        await_promise: bool,
        returned: CallFunctionOnReturnsView,
    ) -> Prog<T> {
        self.sends(
            CommandView::CallFunctionOn(
                CallFunctionOnParamsView {
                    function_declaration,
                    object_id: Some(element.remote_object_id.0@),
                    arguments: None,
                    silent: None,
                    return_by_value: None,
                    generate_preview: Some(true),
                    user_gesture: None,
                    await_promise: Some(await_promise),
                    execution_context_id: None,
                    object_group: None,
                    throw_on_side_effect: None,
                    unique_context_id: None,
                    serialization_options: None,
                },
            ),
            ReplyView::Evaluated(returned),
        )
    }
}

// What a node says of itself.

/// A description is asked for of the node of the element, and yielded as it is.
pub proof fn element_is_described(element: &Element, step: Step<Await<Node>, Node>, node: NodeView)
    requires
        call_ensures(Element::description, (element,), step),
    ensures
        remaining(step).describes(element, node) == done(node),
{
}

/// The tag and the value of an element are those of its node.
pub proof fn tag_and_value_are_read(
    element: &Element,
    tag: Step<Chain<Await<Node>, ReadName>, String>,
    value: Step<Chain<Await<Node>, ReadNodeValue>, String>,
    node: NodeView,
)
    requires
        call_ensures(Element::tag, (element,), tag),
        call_ensures(Element::value, (element,), value),
    ensures
        remaining(tag).describes(element, node) == done(node.node_name),
        remaining(value).describes(element, node) == done(node.node_value),
{
    reveal_with_fuel(bind, 2);
}

/// The attributes of an element are those of its node, names and values in turn. A node that
/// lists none has none.
pub proof fn attributes_are_read(
    element: &Element,
    step: Step<Chain<Await<Node>, ReadAttributes>, Vec<String>>,
    node: NodeView,
)
    requires
        call_ensures(Element::attributes, (element,), step),
    ensures
        node.attributes is Some ==> remaining(step).describes(element, node) == done(
            node.attributes->0,
        ),
        node.attributes is None ==> remaining(step).describes(element, node) == done(
            Seq::<Seq<char>>::empty(),
        ),
{
    reveal_with_fuel(bind, 2);
}

/// Of the entries with one name, the last counts.
pub proof fn last_entry_counts<V>(entries: Seq<(Seq<char>, V)>, name: Seq<char>, i: int)
    requires
        0 <= i < entries.len(),
        entries[i].0 == name,
        forall|j: int| i < j < entries.len() ==> (#[trigger] entries[j]).0 != name,
    ensures
        entries_map(entries).contains_key(name),
        entries_map(entries)[name] == entries[i].1,
    decreases entries.len(),
{
    if i < entries.len() - 1 {
        assert(entries[entries.len() - 1].0 != name);
        assert forall|j: int| i < j < entries.drop_last().len() implies (
        #[trigger] entries.drop_last()[j]).0 != name by {
            assert(entries.drop_last()[j] == entries[j]);
        }
        last_entry_counts(entries.drop_last(), name, i);
    }
}

/// A name that no entry has is not in the map.
pub proof fn no_entry_no_name<V>(entries: Seq<(Seq<char>, V)>, name: Seq<char>)
    requires
        forall|j: int| 0 <= j < entries.len() ==> (#[trigger] entries[j]).0 != name,
    ensures
        !entries_map(entries).contains_key(name),
    decreases entries.len(),
{
    if entries.len() > 0 {
        assert(entries[entries.len() - 1].0 != name);
        assert forall|j: int| 0 <= j < entries.drop_last().len() implies (
        #[trigger] entries.drop_last()[j]).0 != name by {
            assert(entries.drop_last()[j] == entries[j]);
        }
        no_entry_no_name(entries.drop_last(), name);
    }
}

/// The value that is found under a name is that of the last entry with the name, and nothing
/// is found where no entry has it.
pub proof fn names_find_their_values(
    map: NameMap<String>,
    name: &str,
    value: Option<&String>,
    i: int,
)
    requires
        call_ensures(NameMap::<String>::get, (&map, name), value),
    ensures
        ({
            &&& 0 <= i < map.entries@.len()
            &&& map.entries@[i].0@ == name@
            &&& forall|j: int|
                i < j < map.entries@.len() ==> (#[trigger] map.entries@[j]).0@ != name@
        }) ==> value is Some && value->0@ == map.entries@[i].1@,
        (forall|j: int|
            0 <= j < map.entries@.len() ==> (#[trigger] map.entries@[j]).0@ != name@)
            ==> value is None,
{
    let entries = map.entries.deep_view();
    assert(entries.len() == map.entries@.len());
    if 0 <= i < map.entries@.len() && map.entries@[i].0@ == name@ && (forall|j: int|
        i < j < map.entries@.len() ==> (#[trigger] map.entries@[j]).0@ != name@) {
        assert forall|j: int| i < j < entries.len() implies (#[trigger] entries[j]).0 != name@ by {
            assert(map.entries@[j].0@ != name@);
        }
        last_entry_counts(entries, name@, i);
    }
    if forall|j: int| 0 <= j < map.entries@.len() ==> (#[trigger] map.entries@[j]).0@ != name@ {
        assert forall|j: int| 0 <= j < entries.len() implies (#[trigger] entries[j]).0 != name@ by {
            assert(map.entries@[j].0@ != name@);
        }
        no_entry_no_name(entries, name@);
    }
}

/// An attribute that the node lists as its `i`th, and not again, is yielded with the value that
/// follows its name, by its name and in the map of all.
pub proof fn attribute_is_found(
    element: &Element,
    attribute: &str,
    step: Step<Chain<Await<Node>, PickAttribute>, Option<String>>,
    of_all: Step<Chain<Await<Node>, ReadAttributesMap>, NameMap<String>>,
    node: NodeView,
    i: int,
)
    requires
        call_ensures(Element::attribute, (element, attribute), step),
        call_ensures(Element::attributes_map, (element,), of_all),
        node.attributes is Some,
        0 <= 2 * i < node.attributes->0.len() - 1,
        node.attributes->0[2 * i] == attribute@,
        forall|j: int|
            i < j && 2 * j < node.attributes->0.len() - 1 ==> node.attributes->0[#[trigger] (2
                * j)] != attribute@,
    ensures
        remaining(step).describes(element, node) == done(Some(node.attributes->0[2 * i + 1])),
        remaining(of_all).describes(element, node) is Done,
        remaining(of_all).describes(element, node)->Done_0 is Ok,
        ({
            let map = remaining(of_all).describes(element, node)->Done_0->Ok_0;
            map.contains_key(attribute@) && map[attribute@] == node.attributes->0[2 * i + 1]
        }),
{
    let flat = node.attributes->0;
    let entries = pairs(flat);
    assert forall|j: int| i < j < entries.len() implies (
    #[trigger] entries[j]).0 != attribute@ by {
        assert(flat[2 * j] != attribute@);
    }
    last_entry_counts(entries, attribute@, i);
    reveal_with_fuel(bind, 2);
}

/// An attribute that the node does not list is not yielded, nor is it in the map of all.
pub proof fn attribute_is_not_found(
    element: &Element,
    attribute: &str,
    step: Step<Chain<Await<Node>, PickAttribute>, Option<String>>,
    of_all: Step<Chain<Await<Node>, ReadAttributesMap>, NameMap<String>>,
    node: NodeView,
)
    requires
        call_ensures(Element::attribute, (element, attribute), step),
        call_ensures(Element::attributes_map, (element,), of_all),
        node.attributes is Some ==> forall|j: int|
            0 <= j && 2 * j < node.attributes->0.len() - 1 ==> node.attributes->0[#[trigger] (2
                * j)] != attribute@,
    ensures
        remaining(step).describes(element, node) == done(None::<Seq<char>>),
        remaining(of_all).describes(element, node) is Done,
        remaining(of_all).describes(element, node)->Done_0 is Ok,
        !remaining(of_all).describes(element, node)->Done_0->Ok_0.contains_key(attribute@),
{
    let flat = attributes_of(node);
    let entries = pairs(flat);
    assert forall|j: int| 0 <= j < entries.len() implies (
    #[trigger] entries[j]).0 != attribute@ by {
        assert(flat[2 * j] != attribute@);
    }
    no_entry_no_name(entries, attribute@);
    reveal_with_fuel(bind, 2);
}

/// The stream over the attributes of an element starts with all their names, in the order in
/// which the node lists them, and nothing looked up yet.
pub proof fn stream_starts_with_the_names(
    element: &Element,
    step: Step<Chain<Await<Node>, StreamAttributes>, AttributeStream>,
    node: NodeView,
)
    requires
        call_ensures(Element::iter_attributes, (element,), step),
        node.attributes is Some,
        node.attributes->0.len() % 2 == 0,
    ensures
        remaining(step).describes(element, node) is Done,
        remaining(step).describes(element, node)->Done_0 is Ok,
        ({
            let flat = node.attributes->0;
            let stream = remaining(step).describes(element, node)->Done_0->Ok_0;
            &&& stream.remote_object_id == element.remote_object_id.0@
            &&& stream.lookup is None
            &&& 2 * stream.attributes.len() == flat.len()
            &&& forall|i: int|
                0 <= i < stream.attributes.len() ==> #[trigger] stream.attributes[i] == flat[2 * i]
        }),
{
    reveal_with_fuel(bind, 2);
}

// Its children.

/// The children of a node are listed by the ids of the nodes that stand under it, one for each
/// and in their order. A node that lists none has none.
pub proof fn children_are_listed(node: &Node, ids: Vec<NodeId>)
    requires
        call_ensures(list_children, (node,), ids),
    ensures
        match node.children {
            Some(children) => {
                &&& ids@.len() == children@.len()
                &&& forall|i: int|
                    0 <= i < children@.len() ==> #[trigger] ids@[i] == children@[i].node_id
            },
            None => ids@.len() == 0,
        },
{
    reveal_with_fuel(Node::contents, 2);
    let listed = ids.deep_view();
    assert(listed.len() == ids@.len());
    if let Some(children) = node.children {
        assert forall|i: int| 0 <= i < children@.len() implies #[trigger] ids@[i]
            == children@[i].node_id by {
            assert(listed[i] == ids@[i]);
        }
    }
}

/// Nodes that all become elements yield these, in their order; else the first error counts.
proof fn results_decide(results: Seq<ResolvedView>, i: int)
    ensures
        (forall|j: int| 0 <= j < results.len() ==> #[trigger] results[j] is Element)
            ==> first_failure(results) is None,
        ({
            &&& 0 <= i < results.len()
            &&& results[i] is Failed
            &&& forall|j: int| 0 <= j < i ==> #[trigger] results[j] is Element
        }) ==> first_failure(results) == Some(results[i]->Failed_0),
    decreases results.len(),
{
    if results.len() > 0 {
        let rest = results.skip(1);
        results_decide(rest, i - 1);
        if forall|j: int| 0 <= j < results.len() ==> #[trigger] results[j] is Element {
            assert forall|j: int| 0 <= j < rest.len() implies #[trigger] rest[j] is Element by {
                assert(rest[j] == results[j + 1]);
            }
            assert(results[0] is Element);
        }
        if 0 < i < results.len() && results[i] is Failed && (forall|j: int|
            0 <= j < i ==> #[trigger] results[j] is Element) {
            assert(results[0] is Element);
            assert forall|j: int| 0 <= j < i - 1 implies #[trigger] rest[j] is Element by {
                assert(rest[j] == results[j + 1]);
            }
        }
    }
}

impl Prog<Seq<ElementView>> {
    /// Whether an operation goes on to make elements of nodes: where all become elements, it
    /// yields these, in the order of the nodes, and where the `i`th is the first that does not,
    /// it fails with the error of that one.
    pub open spec fn makes_elements(
        self,
        node_ids: Seq<NodeId>,
        results: Seq<ResolvedView>,
        i: int,
    ) -> bool {
        let made = self.asks(RequestView::Elements { node_ids }, ReplyView::Elements(results));
        &&& (forall|j: int| 0 <= j < results.len() ==> #[trigger] results[j] is Element)
            ==> made == done(results.map_values(|result: ResolvedView| result->Element_0))
        &&& ({
            &&& 0 <= i < results.len()
            &&& results[i] is Failed
            &&& forall|j: int| 0 <= j < i ==> #[trigger] results[j] is Element
        }) ==> made == fail::<Seq<ElementView>>(results[i]->Failed_0)
    }
}

/// Nodes are made elements, each node of those that are given.
pub proof fn nodes_become_elements(
    node_ids: Vec<NodeId>,
    step: Step<FromNodes, Vec<Element>>,
    results: Seq<ResolvedView>,
    i: int,
)
    requires
        call_ensures(Element::from_nodes, (node_ids,), step),
        results.len() == node_ids@.len(),
    ensures
        remaining(step).makes_elements(node_ids@, results, i),
{
    assert(node_ids.deep_view() =~= node_ids@);
    results_decide(results, i);
    reveal_with_fuel(bind, 2);
}

/// The children of an element are the elements of the nodes that stand under its node, in
/// their order.
pub proof fn children_become_elements(
    element: &Element,
    step: Step<Chain<Await<()>, ListChildren>, Vec<Element>>,
    requested: ReplyView,
    node: NodeView,
    results: Seq<ResolvedView>,
    i: int,
)
    requires
        call_ensures(Element::children, (element,), step),
        node.children is Some,
        results.len() == node.children->0.len(),
    ensures
        remaining(step).sends(
            CommandView::RequestChildNodes {
                node_id: element.node_id,
                depth: Some((-1) as i64),
                pierce: Some(true),
            },
            requested,
        ).describes(element, node).makes_elements(
            Seq::new(node.children->0.len(), |i: int| node.children->0[i].node_id),
            results,
            i,
        ),
{
    assert(child_ids(node) =~= Seq::new(
        node.children->0.len(),
        |i: int| node.children->0[i].node_id,
    ));
    results_decide(results, i);
    reveal_with_fuel(bind, 4);
}

// What scripts read of it.

/// A function is called on the object of the element, and what comes of it is yielded.
pub proof fn function_is_called_on_the_element(
    element: &Element,
    function_declaration: String,
    await_promise: bool,
    step: Step<Await<CallFunctionOnReturns>, CallFunctionOnReturns>,
    focused: Step<Await<CallFunctionOnReturns>, CallFunctionOnReturns>,
    returned: CallFunctionOnReturnsView,
)
    requires
        call_ensures(Element::call_js_fn, (element, function_declaration, await_promise), step),
        call_ensures(Element::focus_js, (element,), focused),
    ensures
        remaining(step).calls(element, function_declaration@, await_promise, returned) == done(
            returned,
        ),
        remaining(focused).calls(
            element,
            "function() { this.focus(); }"@,
            true,
            returned,
        ) == done(returned),
{
}

/// The element itself is yielded as a JSON value, where it has one.
pub proof fn element_is_read_as_json(
    element: &Element,
    step: Step<Chain<Await<CallFunctionOnReturns>, ReadValue>, Json>,
    returned: CallFunctionOnReturnsView,
)
    requires
        call_ensures(Element::json_value, (element,), step),
    ensures
        remaining(step).calls(element, "function() { return this; }"@, false, returned)
            == if returned.result.value is Some {
            done(returned.result.value->0)
        } else {
            fail(ErrorView::NotFound)
        },
{
    reveal_with_fuel(bind, 2);
}

/// An attribute that a script reads is the attribute of the name that is given: a text, or none
/// where it is null or where there is no value. Anything else is an error.
pub proof fn attribute_is_read_by_a_script(
    element: &Element,
    attribute: &str,
    step: Step<FetchAttribute, Option<String>>,
    returned: CallFunctionOnReturnsView,
)
    requires
        call_ensures(Element::attribute_js, (element, attribute), step),
    ensures
        ({
            let value = returned.result.value;
            remaining(step).calls(
                element,
                "function() { return this.getAttribute('"@ + attribute@ + "'); }"@,
                false,
                returned,
            ) == if value is None {
                done(None)
            } else if json_optional_string(value->0) is Some {
                done(json_optional_string(value->0)->0)
            } else {
                fail(ErrorView::Serde)
            }
        }),
{
    reveal_with_fuel(bind, 2);
}

/// A property that is read is the property of the name that is given, and its value is yielded
/// as it is.
pub proof fn property_is_read(
    element: &Element,
    property: &str,
    step: Step<FetchProperty, Option<Json>>,
    returned: CallFunctionOnReturnsView,
)
    requires
        call_ensures(Element::property, (element, property), step),
    ensures
        remaining(step).calls(
            element,
            "function() { return this."@ + property@ + "; }"@,
            false,
            returned,
        ) == done(returned.result.value),
{
    reveal_with_fuel(bind, 2);
}

/// What comes of a text that is read: the text, or none where it is empty. What is no text is
/// an error, and so is what is not there.
pub open spec fn text_that_is_read(value: Option<Seq<char>>) -> Prog<Option<Seq<char>>> {
    if value is None {
        fail(ErrorView::NotFound)
    } else if json_string(value->0) is None {
        fail(ErrorView::Serde)
    } else if json_string(value->0)->0.len() == 0 {
        done(None)
    } else {
        done(json_string(value->0))
    }
}

/// The texts of an element are its properties of those names.
pub proof fn texts_are_read(
    element: &Element,
    property: &str,
    step: Step<FetchText, Option<String>>,
    inner_text: Step<FetchText, Option<String>>,
    inner_html: Step<FetchText, Option<String>>,
    outer_html: Step<FetchText, Option<String>>,
    returned: CallFunctionOnReturnsView,
)
    requires
        call_ensures(Element::string_property, (element, property), step),
        call_ensures(Element::inner_text, (element,), inner_text),
        call_ensures(Element::inner_html, (element,), inner_html),
        call_ensures(Element::outer_html, (element,), outer_html),
    ensures
        remaining(step).calls(
            element,
            "function() { return this."@ + property@ + "; }"@,
            false,
            returned,
        ) == text_that_is_read(returned.result.value),
        remaining(inner_text).calls(
            element,
            "function() { return this."@ + "innerText"@ + "; }"@,
            false,
            returned,
        ) == text_that_is_read(returned.result.value),
        remaining(inner_html).calls(
            element,
            "function() { return this."@ + "innerHTML"@ + "; }"@,
            false,
            returned,
        ) == text_that_is_read(returned.result.value),
        remaining(outer_html).calls(
            element,
            "function() { return this."@ + "outerHTML"@ + "; }"@,
            false,
            returned,
        ) == text_that_is_read(returned.result.value),
{
    reveal_with_fuel(bind, 3);
}

/// An element that a script scrolls into view is there unless the script returns a text, which
/// says why it failed.
pub proof fn script_scrolls_into_view(
    element: &Element,
    step: Step<Chain<Await<CallFunctionOnReturns>, ReadScrolled>, ()>,
    returned: CallFunctionOnReturnsView,
)
    requires
        call_ensures(Element::scroll_into_view_js, (element,), step),
    ensures
        returned.result.kind != RemoteObjectType::String ==> remaining(step).calls(
            element,
            SCROLL_INTO_VIEW@,
            true,
            returned,
        ) == done(()),
        (returned.result.kind == RemoteObjectType::String && returned.result.value is Some
            && json_string(returned.result.value->0) is Some) ==> remaining(step).calls(
            element,
            SCROLL_INTO_VIEW@,
            true,
            returned,
        ) == fail::<()>(ErrorView::ScrollingFailed(json_string(returned.result.value->0)->0)),
{
    reveal_with_fuel(bind, 2);
}

/// The properties of an element are those of its object itself, each under its name. Of two
/// with one name, the later counts.
pub proof fn properties_are_read(
    element: &Element,
    step: Step<
        Chain<Await<Vec<PropertyDescriptor>>, ReadProperties>,
        NameMap<PropertyDescriptor>,
    >,
    properties: Seq<PropertyDescriptorView>,
    name: Seq<char>,
    i: int,
)
    requires
        call_ensures(Element::properties, (element,), step),
    ensures
        ({
            let read = remaining(step).sends(
                CommandView::GetProperties {
                    object_id: element.remote_object_id.0@,
                    own_properties: Some(true),
                },
                ReplyView::Properties(properties),
            );
            &&& read is Done
            &&& read->Done_0 is Ok
            &&& ({
                &&& 0 <= i < properties.len()
                &&& properties[i].name == name
                &&& forall|j: int|
                    i < j < properties.len() ==> (#[trigger] properties[j]).name != name
            }) ==> read->Done_0->Ok_0.contains_key(name) && read->Done_0->Ok_0[name]
                == properties[i]
            &&& (forall|j: int|
                0 <= j < properties.len() ==> (#[trigger] properties[j]).name != name)
                ==> !read->Done_0->Ok_0.contains_key(name)
        }),
{
    let entries = properties.map_values(|p: PropertyDescriptorView| (p.name, p));
    if 0 <= i < properties.len() && properties[i].name == name && (forall|j: int|
        i < j < properties.len() ==> (#[trigger] properties[j]).name != name) {
        assert forall|j: int| i < j < entries.len() implies (#[trigger] entries[j]).0 != name by {
            assert(properties[j].name != name);
        }
        last_entry_counts(entries, name, i);
    }
    if forall|j: int| 0 <= j < properties.len() ==> (#[trigger] properties[j]).name != name {
        assert forall|j: int| 0 <= j < entries.len() implies (#[trigger] entries[j]).0 != name by {
            assert(properties[j].name != name);
        }
        no_entry_no_name(entries, name);
    }
    reveal_with_fuel(bind, 2);
}

// Where it is.

/// The quad of eight coordinates: `x` and `y` of the corners in turn, from the upper left one
/// clockwise.
pub open spec fn corners(numbers: Seq<Num>) -> ElementQuad {
    ElementQuad {
        top_left: Point { x: numbers[0], y: numbers[1] },
        top_right: Point { x: numbers[2], y: numbers[3] },
        bottom_right: Point { x: numbers[4], y: numbers[5] },
        bottom_left: Point { x: numbers[6], y: numbers[7] },
    }
}

/// The boxes of an element are those that the browser lists, each with its corners in turn, and
/// with the width and the height that the browser gives.
pub proof fn boxes_are_read(
    element: &Element,
    step: Step<FetchBoxes, BoxModel>,
    model: BoxModelReplyView,
)
    requires
        call_ensures(Element::box_model, (element,), step),
        has_whole_boxes(model),
    ensures
        remaining(step).sends(
            CommandView::GetBoxModel { backend_node_id: element.backend_node_id },
            ReplyView::BoxModel(model),
        ) == done(
            BoxModel {
                content: corners(model.content),
                padding: corners(model.padding),
                border: corners(model.border),
                margin: corners(model.margin),
                width: model.width as u32,
                height: model.height as u32,
            },
        ),
{
    reveal_with_fuel(bind, 2);
}

/// The bounding box of an element is that of its border.
pub proof fn bounds_are_read(
    element: &Element,
    step: Step<FetchBounds, BoundingBox>,
    model: BoxModelReplyView,
    bounds: BoundingBox,
)
    requires
        call_ensures(Element::bounding_box, (element,), step),
        has_whole_boxes(model),
    ensures
        remaining(step).finds_bounds(element.backend_node_id, model, bounds) == done(bounds),
{
    reveal_with_fuel(bind, 3);
}

// What is changed of it.

/// An attribute is set on the node of the element, under the name and to the value that are
/// given.
pub proof fn attribute_is_set(
    element: &Element,
    name: String,
    value: String,
    step: Step<Await<()>, ()>,
    set: ReplyView,
)
    requires
        call_ensures(Element::set_attribute, (element, name, value), step),
    ensures
        remaining(step).sends(
            CommandView::SetAttributeValue {
                node_id: element.node_id,
                name: name@,
                value: value@,
            },
            set,
        ) == done(()),
{
}

/// The node of the element is removed.
pub proof fn element_is_removed(element: &Element, step: Step<Await<()>, ()>, removed: ReplyView)
    requires
        call_ensures(Element::remove, (element,), step),
    ensures
        remaining(step).sends(CommandView::RemoveNode { node_id: element.node_id }, removed)
            == done(()),
{
}

/// The HTML of an element is read of it and written to it.
pub proof fn html_is_read_and_written(
    element: &Element,
    html: &str,
    read: Step<Await<String>, String>,
    written: Step<Await<()>, ()>,
    text: Seq<char>,
    reply: ReplyView,
)
    requires
        call_ensures(Element::get_content, (element,), read),
        call_ensures(Element::set_content, (element, html), written),
    ensures
        remaining(read).sends(
            CommandView::GetOuterHtml {
                node_id: Some(element.node_id),
                backend_node_id: Some(element.backend_node_id),
                object_id: Some(element.remote_object_id.0@),
            },
            ReplyView::Text(text),
        ) == done(text),
        remaining(written).sends(
            CommandView::SetOuterHtml { node_id: element.node_id, outer_html: html@ },
            reply,
        ) == done(()),
{
}

} // verus!
