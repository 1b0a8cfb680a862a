use chromiumoxide::cdp::command::Command;
use chromiumoxide::cdp::dom::{BackendNodeId, Node, NodeId};
use chromiumoxide::cdp::input::{DispatchMouseEventParams, DispatchMouseEventType, MouseButton};
use chromiumoxide::cdp::runtime::{
    CallFunctionOnParams, CallFunctionOnReturns, PropertyDescriptor, RemoteObject, RemoteObjectId,
    RemoteObjectType,
};
use chromiumoxide::element::{
    not_scrolled, AttributeStream, Element, NextAttribute, SCROLL_INTO_VIEW,
};
use chromiumoxide::error::CdpError;
use chromiumoxide::flow::{Flow, Step};
use chromiumoxide::json::Json;
use chromiumoxide::layout::{BoundingBox, BoxModel, ElementQuad, Point};
use chromiumoxide::number::Num;
use chromiumoxide::protocol::{BoxModelReply, Measure, Reply, Request, Resolved};

/// How an operation ended.
#[derive(Debug)]
enum End<T> {
    Yielded(T),
    Failed(CdpError),
    Aborted,
}

/// Runs an operation with the given answers. Returns what it asked for and how it ended.
fn play<F: Flow>(first: Step<F, F::Output>, answers: Vec<Reply>) -> (Vec<Request>, End<F::Output>) {
    let mut step = first;
    let mut answers = answers.into_iter();
    let mut asked = Vec::new();
    loop {
        match step {
            Step::Ask(request, flow) => {
                asked.push(request);
                match answers.next() {
                    Some(reply) => step = flow.resume(reply),
                    None => panic!("no answer to {:?}", asked.last()),
                }
            }
            Step::Done(Ok(result)) => {
                assert!(answers.next().is_none(), "an answer is left over");
                return (asked, End::Yielded(result));
            }
            Step::Done(Err(error)) => {
                assert!(answers.next().is_none(), "an answer is left over");
                return (asked, End::Failed(error));
            }
            Step::Abort => return (asked, End::Aborted),
        }
    }
}

/// What the operation yielded.
fn yielded<T: std::fmt::Debug>(end: End<T>) -> T {
    match end {
        End::Yielded(result) => result,
        other => panic!("{:?}", other),
    }
}

/// The message that the operation failed with.
fn message<T: std::fmt::Debug>(end: End<T>) -> String {
    match end {
        End::Failed(CdpError::ChromeMessage(text)) => text,
        other => panic!("{:?}", other),
    }
}

fn command(command: Command) -> Request {
    Request::Command(command)
}

fn element() -> Element {
    Element {
        remote_object_id: RemoteObjectId("object".to_string()),
        backend_node_id: BackendNodeId(7),
        node_id: NodeId(8),
    }
}

fn node(attributes: Option<Vec<&str>>) -> Node {
    Node {
        node_id: NodeId(8),
        backend_node_id: BackendNodeId(7),
        node_name: "INPUT".to_string(),
        local_name: "input".to_string(),
        node_value: "v".to_string(),
        attributes: attributes.map(|list| list.into_iter().map(str::to_string).collect()),
        children: None,
        details: Json("{}".to_string()),
    }
}

fn object(value: Option<&str>) -> RemoteObject {
    RemoteObject {
        kind: RemoteObjectType::Object,
        subtype: None,
        class_name: None,
        value: value.map(|text| Json(text.to_string())),
        unserializable_value: None,
        description: None,
        object_id: None,
        details: Json("{}".to_string()),
    }
}

fn returned(value: Option<&str>) -> Reply {
    Reply::Evaluated(CallFunctionOnReturns { result: object(value), exception_details: None })
}

fn call(function: &str, await_promise: bool) -> Request {
    let mut params = CallFunctionOnParams::new(function.to_string());
    params.object_id = Some(RemoteObjectId("object".to_string()));
    params.generate_preview = Some(true);
    params.await_promise = Some(await_promise);
    command(Command::CallFunctionOn(params))
}

fn describe() -> Request {
    command(Command::DescribeNode {
        node_id: None,
        backend_node_id: Some(BackendNodeId(7)),
        depth: Some(-1),
    })
}

fn scroll() -> Request {
    command(Command::ScrollIntoViewIfNeeded { backend_node_id: BackendNodeId(7), rect: None })
}

fn point(x: i64, y: i64) -> Point {
    Point { x: Num::Whole(x), y: Num::Whole(y) }
}

fn quad(first: i64) -> ElementQuad {
    ElementQuad {
        top_left: point(first, first + 1),
        top_right: point(first + 2, first + 3),
        bottom_right: point(first + 4, first + 5),
        bottom_left: point(first + 6, first + 7),
    }
}

fn numbers(first: i64, count: i64) -> Vec<Num> {
    (first..first + count).map(Num::Whole).collect()
}

#[test]
fn a_node_becomes_an_element() {
    let mut found = object(None);
    found.object_id = Some(RemoteObjectId("object".to_string()));
    let (asked, end) = play(
        Element::new(NodeId(8)),
        vec![Reply::Node(node(None)), Reply::Object(found)],
    );
    assert_eq!(yielded(end), element());
    assert_eq!(
        asked,
        vec![
            command(Command::DescribeNode {
                node_id: Some(NodeId(8)),
                backend_node_id: None,
                depth: Some(-1),
            }),
            command(Command::ResolveNode { backend_node_id: BackendNodeId(7) }),
        ]
    );
}

#[test]
fn a_node_without_an_object_is_no_element() {
    let (_, end) = play(
        Element::new(NodeId(-12)),
        vec![Reply::Node(node(None)), Reply::Object(object(None))],
    );
    assert_eq!(message(end), "No object Id found for NodeId(-12)");
}

#[test]
fn nodes_become_elements_together() {
    let (asked, end) = play(
        Element::from_nodes(vec![NodeId(8), NodeId(9)]),
        vec![Reply::Elements(vec![Resolved::Element(element()), Resolved::Element(element())])],
    );
    assert_eq!(yielded(end), vec![element(), element()]);
    assert_eq!(asked, vec![Request::Elements { node_ids: vec![NodeId(8), NodeId(9)] }]);
    let (_, end) = play(
        Element::from_nodes(vec![NodeId(8), NodeId(9), NodeId(10)]),
        vec![Reply::Elements(vec![
            Resolved::Element(element()),
            Resolved::Failed(CdpError::msg("first")),
            Resolved::Failed(CdpError::msg("second")),
        ])],
    );
    assert_eq!(message(end), "first");
    let (_, end) = play(Element::from_nodes(vec![NodeId(8)]), vec![Reply::Elements(vec![])]);
    assert!(matches!(end, End::Aborted));
}

#[test]
fn elements_are_looked_for_within_an_element() {
    let mut found = object(None);
    found.object_id = Some(RemoteObjectId("object".to_string()));
    let selector = "a.b".to_string();
    let (asked, end) = play(
        element().query_element(&selector),
        vec![Reply::NodeId(NodeId(8)), Reply::Node(node(None)), Reply::Object(found)],
    );
    assert_eq!(yielded(end), element());
    assert_eq!(
        asked[0],
        command(Command::QuerySelector { node_id: NodeId(8), selector: "a.b".to_string() })
    );
    let (asked, end) = play(
        element().query_elements(&selector),
        vec![Reply::NodeIds(vec![]), Reply::Elements(vec![])],
    );
    assert!(yielded(end).is_empty());
    assert_eq!(
        asked[0],
        command(Command::QuerySelectorAll { node_id: NodeId(8), selector: "a.b".to_string() })
    );
    let (asked, end) = play(element().remove(), vec![Reply::Done]);
    yielded(end);
    assert_eq!(asked, vec![command(Command::RemoveNode { node_id: NodeId(8) })]);
}

#[test]
fn an_element_has_boxes() {
    let model = |content: Vec<Num>| {
        Reply::BoxModel(BoxModelReply {
            content,
            padding: numbers(10, 8),
            border: numbers(20, 8),
            margin: numbers(30, 8),
            width: 5,
            height: 6,
        })
    };
    let (asked, end) = play(element().box_model(), vec![model(numbers(0, 8))]);
    assert_eq!(
        yielded(end),
        BoxModel {
            content: quad(0),
            padding: quad(10),
            border: quad(20),
            margin: quad(30),
            width: 5,
            height: 6,
        }
    );
    assert_eq!(asked, vec![command(Command::GetBoxModel { backend_node_id: BackendNodeId(7) })]);
    let (_, end) = play(element().box_model(), vec![model(numbers(0, 7))]);
    assert!(matches!(end, End::Aborted));
    let bounds = BoundingBox {
        x: Num::Whole(20),
        y: Num::Whole(21),
        width: Num::Whole(6),
        height: Num::Whole(6),
    };
    let (asked, end) = play(
        element().bounding_box(),
        vec![model(numbers(0, 8)), Reply::Bounds(bounds)],
    );
    assert_eq!(yielded(end), bounds);
    assert_eq!(asked[1], Request::Bounds { quad: quad(20) });
}

#[test]
fn the_first_large_quad_is_clicked_on() {
    let measured = |spacious: [bool; 2]| {
        Reply::Measured(vec![
            Measure { spacious: spacious[0], center: point(1, 1) },
            Measure { spacious: spacious[1], center: point(2, 2) },
        ])
    };
    let quads = || Reply::Quads(vec![numbers(0, 8), numbers(0, 6), numbers(10, 8)]);
    let (asked, end) = play(element().clickable_point(), vec![quads(), measured([false, true])]);
    assert_eq!(yielded(end), point(2, 2));
    assert_eq!(
        asked,
        vec![
            command(Command::GetContentQuads { backend_node_id: BackendNodeId(7) }),
            Request::Measure { quads: vec![quad(0), quad(10)] },
        ]
    );
    let (_, end) = play(element().clickable_point(), vec![quads(), measured([true, true])]);
    assert_eq!(yielded(end), point(1, 1));
    let (_, end) = play(element().clickable_point(), vec![quads(), measured([false, false])]);
    assert_eq!(message(end), "Node is either not visible or not an HTMLElement");
    let (_, end) = play(element().clickable_point(), vec![Reply::Quads(vec![])]);
    assert_eq!(message(end), "Node is either not visible or not an HTMLElement");
}

#[test]
fn an_element_is_scrolled_into_view_before_it_is_used() {
    let quads = || Reply::Quads(vec![numbers(0, 8)]);
    let measured =
        || Reply::Measured(vec![Measure { spacious: true, center: point(4, 5) }]);
    let moved = || {
        command(Command::DispatchMouseEvent(DispatchMouseEventParams::new(
            DispatchMouseEventType::MouseMoved,
            Num::Whole(4),
            Num::Whole(5),
        )))
    };
    let button = |kind| {
        command(Command::DispatchMouseEvent(DispatchMouseEventParams {
            kind,
            x: Num::Whole(4),
            y: Num::Whole(5),
            button: Some(MouseButton::Left),
            click_count: Some(1),
        }))
    };
    let (asked, end) = play(
        element().hover(),
        vec![Reply::Done, quads(), measured(), Reply::Done],
    );
    yielded(end);
    assert_eq!(asked[0], scroll());
    assert_eq!(asked[3], moved());
    let (asked, end) = play(
        element().click(),
        vec![Reply::Done, quads(), measured(), Reply::Done, Reply::Done, Reply::Done],
    );
    yielded(end);
    assert_eq!(asked[0], scroll());
    assert_eq!(asked[3], moved());
    assert_eq!(asked[4], button(DispatchMouseEventType::MousePressed));
    assert_eq!(asked[5], button(DispatchMouseEventType::MouseReleased));
    let (asked, end) = play(element().focus(), vec![Reply::Done, Reply::Done]);
    yielded(end);
    assert_eq!(
        asked,
        vec![scroll(), command(Command::Focus { backend_node_id: BackendNodeId(7) })]
    );
    let (asked, end) = play(element().scroll_into_view(), vec![Reply::Done]);
    yielded(end);
    assert_eq!(asked, vec![scroll()]);
}

#[test]
fn a_script_scrolls_an_element_or_says_why_not() {
    let (asked, end) = play(element().scroll_into_view_js(), vec![returned(Some("false"))]);
    yielded(end);
    assert_eq!(asked, vec![call(SCROLL_INTO_VIEW, true)]);
    let mut failed = object(Some("\"Node is detached from document\""));
    failed.kind = RemoteObjectType::String;
    let (_, end) = play(
        element().scroll_into_view_js(),
        vec![Reply::Evaluated(CallFunctionOnReturns { result: failed, exception_details: None })],
    );
    match end {
        End::Failed(CdpError::ScrollingFailed(text)) => {
            assert_eq!(text, "Node is detached from document")
        }
        other => panic!("{:?}", other),
    }
    match not_scrolled(Ok("why".to_string())) {
        Step::Done(Err(CdpError::ScrollingFailed(text))) => assert_eq!(text, "why"),
        _ => panic!("it goes on"),
    }
    let mut odd = object(None);
    odd.kind = RemoteObjectType::String;
    let (_, end) = play(
        element().scroll_into_view_js(),
        vec![Reply::Evaluated(CallFunctionOnReturns { result: odd, exception_details: None })],
    );
    assert!(matches!(end, End::Aborted));
}

#[test]
fn an_element_is_read_as_json() {
    let (asked, end) = play(element().json_value(), vec![returned(Some("{\"a\":1}"))]);
    assert_eq!(yielded(end), Json("{\"a\":1}".to_string()));
    assert_eq!(asked, vec![call("function() { return this; }", false)]);
    let (_, end) = play(element().json_value(), vec![returned(None)]);
    assert!(matches!(end, End::Failed(CdpError::NotFound)));
    let (asked, end) = play(element().focus_js(), vec![returned(None)]);
    yielded(end);
    assert_eq!(asked, vec![call("function() { this.focus(); }", true)]);
    let (asked, end) = play(
        element().call_js_fn("f".to_string(), true),
        vec![returned(Some("1"))],
    );
    assert_eq!(yielded(end).result, object(Some("1")));
    assert_eq!(asked, vec![call("f", true)]);
}

#[test]
fn attributes_are_listed_and_mapped() {
    let listed = || Reply::Node(node(Some(vec!["id", "x", "class", "y", "id", "z"])));
    let (asked, end) = play(element().attributes(), vec![listed()]);
    assert_eq!(yielded(end), vec!["id", "x", "class", "y", "id", "z"]);
    assert_eq!(asked, vec![describe()]);
    let (_, end) = play(element().attributes(), vec![Reply::Node(node(None))]);
    assert!(yielded(end).is_empty());
    let (_, end) = play(element().attributes_map(), vec![listed()]);
    let map = yielded(end);
    assert_eq!(map.get("id").map(String::as_str), Some("z"));
    assert_eq!(map.get("class").map(String::as_str), Some("y"));
    assert_eq!(map.get("x"), None);
    let (_, end) = play(element().attribute("id"), vec![listed()]);
    assert_eq!(yielded(end), Some("z".to_string()));
    let (_, end) = play(element().attribute("title"), vec![listed()]);
    assert_eq!(yielded(end), None);
}

#[test]
fn an_attribute_is_read_by_a_script() {
    let (asked, end) = play(element().attribute_js("id"), vec![returned(Some("\"a\\\"b\""))]);
    assert_eq!(yielded(end), Some("a\"b".to_string()));
    assert_eq!(asked, vec![call("function() { return this.getAttribute('id'); }", false)]);
    let (_, end) = play(element().attribute_js("id"), vec![returned(Some("null"))]);
    assert_eq!(yielded(end), None);
    let (_, end) = play(element().attribute_js("id"), vec![returned(None)]);
    assert_eq!(yielded(end), None);
    let (_, end) = play(element().attribute_js("id"), vec![returned(Some("3"))]);
    assert!(matches!(end, End::Failed(CdpError::Serde(_))));
    let (asked, end) = play(
        element().set_attribute("id".to_string(), "x".to_string()),
        vec![Reply::Done],
    );
    yielded(end);
    assert_eq!(
        asked,
        vec![command(Command::SetAttributeValue {
            node_id: NodeId(8),
            name: "id".to_string(),
            value: "x".to_string(),
        })]
    );
}

#[test]
fn the_stream_goes_over_the_names_of_the_attributes() {
    let (_, end) = play(
        element().iter_attributes(),
        vec![Reply::Node(node(Some(vec!["id", "x", "class", "y"])))],
    );
    let mut stream = yielded(end);
    assert_eq!(stream.attributes, vec!["id".to_string(), "class".to_string()]);
    assert_eq!(stream.lookup, None);
    let step = match stream.poll_next() {
        NextAttribute::Read(step) => step,
        _ => panic!("no reading"),
    };
    assert_eq!(stream.lookup, Some("class".to_string()));
    let (asked, end) = play(step, vec![returned(Some("\"y\""))]);
    assert_eq!(asked, vec![call("function() { return this.getAttribute('class'); }", false)]);
    let (name, value) = stream.settle(Some(Ok(yielded(end)))).unwrap();
    assert_eq!(name, "class");
    assert_eq!(value.unwrap(), Some("y".to_string()));
    assert!(matches!(stream.poll_next(), NextAttribute::Read(_)));
    assert_eq!(stream.settle(Some(Ok(None))).unwrap().0, "id");
    assert!(matches!(stream.poll_next(), NextAttribute::End));
    assert!(matches!(stream.poll_next(), NextAttribute::End));
}

#[test]
fn a_pending_poll_loses_no_attribute() {
    let mut stream = AttributeStream {
        attributes: vec!["id".to_string(), "class".to_string()],
        remote_object_id: RemoteObjectId("object".to_string()),
        lookup: None,
    };
    assert!(matches!(stream.poll_next(), NextAttribute::Read(_)));
    assert!(stream.settle(None).is_none());
    assert_eq!(stream.attributes, vec!["id".to_string()]);
    assert_eq!(stream.lookup, Some("class".to_string()));
    assert!(matches!(stream.poll_next(), NextAttribute::Wait));
    assert!(stream.settle(None).is_none());
    assert!(matches!(stream.poll_next(), NextAttribute::Wait));
    assert_eq!(stream.settle(Some(Ok(None))).unwrap().0, "class");
    assert_eq!(stream.attributes, vec!["id".to_string()]);
    assert_eq!(stream.lookup, None);
}

#[test]
fn a_failed_reading_is_an_item_of_the_stream() {
    let mut stream = AttributeStream {
        attributes: vec!["id".to_string(), "class".to_string()],
        remote_object_id: RemoteObjectId("object".to_string()),
        lookup: None,
    };
    assert!(matches!(stream.poll_next(), NextAttribute::Read(_)));
    let (name, value) = stream.settle(Some(Err(CdpError::NotFound))).unwrap();
    assert_eq!(name, "class");
    assert!(matches!(value, Err(CdpError::NotFound)));
    assert!(matches!(stream.poll_next(), NextAttribute::Read(_)));
    let (name, value) = stream.settle(Some(Ok(Some("x".to_string())))).unwrap();
    assert_eq!(name, "id");
    assert_eq!(value.unwrap(), Some("x".to_string()));
    assert!(matches!(stream.poll_next(), NextAttribute::End));
    assert!(stream.settle(Some(Ok(None))).is_none());
    assert!(matches!(stream.poll_next(), NextAttribute::End));
}

#[test]
fn children_become_elements() {
    let mut parent = node(None);
    parent.children = Some(vec![node(None), node(None)]);
    let (asked, end) = play(
        element().children(),
        vec![
            Reply::Done,
            Reply::Node(parent),
            Reply::Elements(vec![Resolved::Element(element()), Resolved::Element(element())]),
        ],
    );
    assert_eq!(yielded(end).len(), 2);
    assert_eq!(
        asked,
        vec![
            command(Command::RequestChildNodes {
                node_id: NodeId(8),
                depth: Some(-1),
                pierce: Some(true),
            }),
            describe(),
            Request::Elements { node_ids: vec![NodeId(8), NodeId(8)] },
        ]
    );
}

#[test]
fn the_node_is_described() {
    let (_, end) = play(element().tag(), vec![Reply::Node(node(None))]);
    assert_eq!(yielded(end), "INPUT");
    let (_, end) = play(element().value(), vec![Reply::Node(node(None))]);
    assert_eq!(yielded(end), "v");
    let (asked, end) = play(element().description(), vec![Reply::Node(node(None))]);
    assert_eq!(yielded(end), node(None));
    assert_eq!(asked, vec![describe()]);
}

#[test]
fn text_properties_are_never_empty() {
    let (asked, end) = play(element().inner_text(), vec![returned(Some("\"hi\""))]);
    assert_eq!(yielded(end), Some("hi".to_string()));
    assert_eq!(asked, vec![call("function() { return this.innerText; }", false)]);
    let (asked, end) = play(element().inner_html(), vec![returned(Some("\"\""))]);
    assert_eq!(yielded(end), None);
    assert_eq!(asked, vec![call("function() { return this.innerHTML; }", false)]);
    let (asked, end) = play(element().outer_html(), vec![returned(None)]);
    assert!(matches!(end, End::Failed(CdpError::NotFound)));
    assert_eq!(asked, vec![call("function() { return this.outerHTML; }", false)]);
    let (_, end) = play(element().string_property("x"), vec![returned(Some("[]"))]);
    assert!(matches!(end, End::Failed(CdpError::Serde(_))));
    let (_, end) = play(element().property("x"), vec![returned(Some("[]"))]);
    assert_eq!(yielded(end), Some(Json("[]".to_string())));
}

#[test]
fn properties_are_mapped_by_name() {
    let property = |name: &str, details: &str| PropertyDescriptor {
        name: name.to_string(),
        details: Json(details.to_string()),
    };
    let (asked, end) = play(
        element().properties(),
        vec![Reply::Properties(vec![property("a", "1"), property("b", "2"), property("a", "3")])],
    );
    let map = yielded(end);
    assert_eq!(map.get("a"), Some(&property("a", "3")));
    assert_eq!(map.get("b"), Some(&property("b", "2")));
    assert_eq!(map.get("c"), None);
    assert_eq!(
        asked,
        vec![command(Command::GetProperties {
            object_id: RemoteObjectId("object".to_string()),
            own_properties: Some(true),
        })]
    );
}

#[test]
fn the_markup_of_an_element_is_read_and_set() {
    let (asked, end) = play(element().get_content(), vec![Reply::Text("<p>".to_string())]);
    assert_eq!(yielded(end), "<p>");
    assert_eq!(
        asked,
        vec![command(Command::GetOuterHtml {
            node_id: Some(NodeId(8)),
            backend_node_id: Some(BackendNodeId(7)),
            object_id: Some(RemoteObjectId("object".to_string())),
        })]
    );
    let (asked, end) = play(element().set_content("<p>"), vec![Reply::Done]);
    yielded(end);
    assert_eq!(
        asked,
        vec![command(Command::SetOuterHtml {
            node_id: NodeId(8),
            outer_html: "<p>".to_string(),
        })]
    );
}
