use chromiumoxide::cdp::browser::GetVersionReturns;
use chromiumoxide::cdp::command::Command;
use chromiumoxide::cdp::dom::{BackendNodeId, Node, NodeId, PerformSearchReturns, Rect, SearchId};
use chromiumoxide::cdp::emulation::SetDeviceMetricsOverrideParams;
use chromiumoxide::cdp::input::{
    DispatchKeyEventParams, DispatchKeyEventType, DispatchMouseEventParams, DispatchMouseEventType,
    MouseButton,
};
use chromiumoxide::cdp::page::{CaptureScreenshotParams, FrameId, GetFrameTreeReturns};
use chromiumoxide::cdp::runtime::{
    CallFunctionOnParams, CallFunctionOnReturns, EvaluateParams, ExceptionDetails,
    ExecutionContextId, RemoteObject, RemoteObjectId, RemoteObjectType,
};
use chromiumoxide::cdp::target::{SessionId, TargetId};
use chromiumoxide::element::Element;
use chromiumoxide::error::CdpError;
use chromiumoxide::flow::{proceed, Flow, Step};
use chromiumoxide::handler::page::PageInner;
use chromiumoxide::json::Json;
use chromiumoxide::layout::Point;
use chromiumoxide::number::Num;
use chromiumoxide::protocol::{DomWorldKind, Reply, Request};

/// How an operation ended.
#[derive(Debug)]
enum End<T> {
    Yielded(T),
    Failed(CdpError),
    Aborted,
}

/// Runs an operation with the given answers. Returns what it asked for and how it ended.
fn play<F: Flow>(first: Step<F, F::Output>, answers: Vec<Reply>) -> (Vec<Request>, End<F::Output>) {
    let mut step = first;
    let mut answers = answers.into_iter();
    let mut asked = Vec::new();
    loop {
        match step {
            Step::Ask(request, flow) => {
                asked.push(request);
                match answers.next() {
                    Some(reply) => step = flow.resume(reply),
                    None => panic!("no answer to {:?}", asked.last()),
                }
            }
            Step::Done(Ok(result)) => {
                assert!(answers.next().is_none(), "an answer is left over");
                return (asked, End::Yielded(result));
            }
            Step::Done(Err(error)) => {
                assert!(answers.next().is_none(), "an answer is left over");
                return (asked, End::Failed(error));
            }
            Step::Abort => return (asked, End::Aborted),
        }
    }
}

/// What the operation yielded.
fn yielded<T: std::fmt::Debug>(end: End<T>) -> T {
    match end {
        End::Yielded(result) => result,
        other => panic!("{:?}", other),
    }
}

fn command(command: Command) -> Request {
    Request::Command(command)
}

fn inner() -> PageInner {
    PageInner {
        target_id: TargetId("target".to_string()),
        session_id: SessionId("session".to_string()),
    }
}

fn point() -> Point {
    Point { x: Num::Whole(3), y: Num::Whole(4) }
}

fn mouse(kind: DispatchMouseEventType, pressed: bool) -> Request {
    command(Command::DispatchMouseEvent(DispatchMouseEventParams {
        kind,
        x: Num::Whole(3),
        y: Num::Whole(4),
        button: if pressed { Some(MouseButton::Left) } else { None },
        click_count: if pressed { Some(1) } else { None },
    }))
}

fn key_event(key: &str, kind: DispatchKeyEventType) -> DispatchKeyEventParams {
    DispatchKeyEventParams {
        kind,
        modifiers: None,
        text: Some(key.to_string()),
        unmodified_text: None,
        code: None,
        key: Some(key.to_string()),
        windows_virtual_key_code: Some(65),
        native_virtual_key_code: None,
        location: None,
    }
}

fn down(key: &str) -> DispatchKeyEventParams {
    key_event(key, DispatchKeyEventType::KeyDown)
}

fn up(key: &str) -> DispatchKeyEventParams {
    key_event(key, DispatchKeyEventType::KeyUp)
}

fn returned(kind: RemoteObjectType, exception: Option<&str>) -> Reply {
    Reply::Evaluated(CallFunctionOnReturns {
        result: RemoteObject {
            kind,
            subtype: None,
            class_name: None,
            value: None,
            unserializable_value: None,
            description: None,
            object_id: None,
            details: Json("{}".to_string()),
        },
        exception_details: exception.map(|text| ExceptionDetails {
            exception_id: 1,
            text: text.to_string(),
            line_number: 2,
            column_number: 3,
            url: None,
            stack_trace: None,
            details: Json("{}".to_string()),
        }),
    })
}

fn document() -> Node {
    Node {
        node_id: NodeId(1),
        backend_node_id: BackendNodeId(2),
        node_name: "#document".to_string(),
        local_name: String::new(),
        node_value: String::new(),
        attributes: None,
        children: None,
        details: Json("{}".to_string()),
    }
}

#[test]
fn commands_go_to_the_session_of_the_page() {
    let message = inner().execute(Command::GetVersion);
    assert_eq!(message.command, Command::GetVersion);
    assert_eq!(message.session_id, Some(SessionId("session".to_string())));
    let message = inner().command_future(Command::Reload);
    assert_eq!(message.command, Command::Reload);
    assert_eq!(message.session_id, Some(SessionId("session".to_string())));
    assert_eq!(inner().target_id(), &TargetId("target".to_string()));
    assert_eq!(inner().session_id(), &SessionId("session".to_string()));
}

#[test]
fn any_command_can_be_sent() {
    let reload = || Command::Other {
        method: "Page.reload".to_string(),
        params: Json("{\"ignoreCache\":true}".to_string()),
    };
    let message = inner().execute(reload());
    assert_eq!(message.command, reload());
    assert_eq!(message.session_id, Some(SessionId("session".to_string())));
    let (asked, end) = play(
        inner().http_future(reload()),
        vec![
            Reply::Payload(Json("{}".to_string())),
            Reply::Payload(Json("{\"url\":\"a\"}".to_string())),
        ],
    );
    assert_eq!(yielded(end), Json("{\"url\":\"a\"}".to_string()));
    assert_eq!(asked, vec![command(reload()), Request::Navigation]);
}

#[test]
fn a_failed_request_ends_the_operation() {
    match inner().click(point()) {
        Step::Ask(request, flow) => {
            match proceed(request, flow, Err(CdpError::Outside("gone".to_string()))) {
                Step::Done(Err(CdpError::Outside(text))) => assert_eq!(text, "gone"),
                _ => panic!("it goes on"),
            }
        }
        _ => panic!("it does not start"),
    }
    match inner().click(point()) {
        Step::Ask(request, flow) => {
            let error = serde_json::from_str::<u8>("x").unwrap_err();
            let text = error.to_string();
            match proceed(request, flow, Err(CdpError::Serde(error))) {
                Step::Done(Err(CdpError::Serde(error))) => assert_eq!(error.to_string(), text),
                _ => panic!("it goes on"),
            }
        }
        _ => panic!("it does not start"),
    }
    match inner().click(point()) {
        Step::Ask(request, flow) => {
            assert!(matches!(proceed(request, flow, Ok(Reply::Done)), Step::Ask(_, _)));
        }
        _ => panic!("it does not start"),
    }
}

#[test]
fn simple_commands_are_sent() {
    let (asked, end) = play(inner().activate(), vec![Reply::Done]);
    yielded(end);
    assert_eq!(
        asked,
        vec![command(Command::ActivateTarget { target_id: TargetId("target".to_string()) })]
    );
    let version = || GetVersionReturns {
        user_agent: "agent".to_string(),
        details: Json("{}".to_string()),
    };
    let (asked, end) = play(inner().version(), vec![Reply::Version(version())]);
    assert_eq!(yielded(end), version());
    assert_eq!(asked, vec![command(Command::GetVersion)]);
    let (asked, end) = play(
        inner().query_selector("a".to_string(), NodeId(5)),
        vec![Reply::NodeId(NodeId(6))],
    );
    assert_eq!(yielded(end), NodeId(6));
    assert_eq!(
        asked,
        vec![command(Command::QuerySelector { node_id: NodeId(5), selector: "a".to_string() })]
    );
    let (asked, end) = play(
        inner().query_selector_all("a".to_string(), NodeId(5)),
        vec![Reply::NodeIds(vec![NodeId(6)])],
    );
    assert_eq!(yielded(end), vec![NodeId(6)]);
    assert_eq!(
        asked,
        vec![command(Command::QuerySelectorAll { node_id: NodeId(5), selector: "a".to_string() })]
    );
    let (asked, end) = play(inner().start_screencast(), vec![Reply::Done]);
    yielded(end);
    assert_eq!(asked, vec![command(Command::StartScreencast)]);
    let (asked, end) = play(inner().stop_screencast(), vec![Reply::Done]);
    yielded(end);
    assert_eq!(asked, vec![command(Command::StopScreencast)]);
    let (asked, end) = play(inner().screencast_frame_ack(9), vec![Reply::Done]);
    yielded(end);
    assert_eq!(asked, vec![command(Command::ScreencastFrameAck { session_id: 9 })]);
    let (asked, end) = play(inner().set_background_color(None), vec![Reply::Done]);
    yielded(end);
    assert_eq!(asked, vec![command(Command::SetDefaultBackgroundColorOverride { color: None })]);
    let device = SetDeviceMetricsOverrideParams {
        width: 1,
        height: 2,
        device_scale_factor: Num::Whole(3),
        mobile: true,
    };
    let (asked, end) = play(inner().set_device_metrics(device), vec![Reply::Done]);
    yielded(end);
    assert_eq!(asked, vec![command(Command::SetDeviceMetricsOverride(device))]);
    let (asked, end) = play(inner().clear_device_metrics(), vec![Reply::Done]);
    yielded(end);
    assert_eq!(asked, vec![command(Command::ClearDeviceMetricsOverride)]);
    let tree = || GetFrameTreeReturns {
        frame_id: FrameId("f".to_string()),
        details: Json("{}".to_string()),
    };
    let (asked, end) = play(inner().frame_tree(), vec![Reply::FrameTree(tree())]);
    assert_eq!(yielded(end), tree());
    assert_eq!(asked, vec![command(Command::GetFrameTree)]);
    let (asked, end) = play(
        inner().screenshot(CaptureScreenshotParams::default()),
        vec![Reply::Text("AAE=".to_string())],
    );
    assert_eq!(yielded(end), vec![0, 1]);
    assert_eq!(
        asked,
        vec![command(Command::CaptureScreenshot(CaptureScreenshotParams::default()))]
    );
}

#[test]
fn a_navigation_is_waited_for() {
    let (asked, end) = play(
        inner().wait_for_navigation(),
        vec![Reply::Payload(Json("{}".to_string()))],
    );
    assert_eq!(yielded(end), Json("{}".to_string()));
    assert_eq!(asked, vec![Request::Navigation]);
    let (asked, end) = play(
        inner().http_future(Command::Reload),
        vec![Reply::Done, Reply::Payload(Json("{}".to_string()))],
    );
    assert_eq!(yielded(end), Json("{}".to_string()));
    assert_eq!(asked, vec![command(Command::Reload), Request::Navigation]);
}

#[test]
fn a_search_is_discarded_before_it_yields() {
    let (asked, end) = play(
        inner().perfrom_search("//a".to_string()),
        vec![
            Reply::Search(PerformSearchReturns {
                search_id: SearchId("s".to_string()),
                result_count: 2,
            }),
            Reply::NodeIds(vec![NodeId(5), NodeId(6)]),
            Reply::Done,
        ],
    );
    assert_eq!(yielded(end), vec![NodeId(5), NodeId(6)]);
    assert_eq!(
        asked,
        vec![
            command(Command::PerformSearch {
                query: "//a".to_string(),
                include_user_agent_shadow_dom: Some(true),
            }),
            command(Command::GetSearchResults {
                search_id: SearchId("s".to_string()),
                from_index: 0,
                to_index: 2,
            }),
            command(Command::DiscardSearchResults { search_id: SearchId("s".to_string()) }),
        ]
    );
}

#[test]
fn a_node_is_removed() {
    let (asked, end) = play(inner().remove(NodeId(5)), vec![Reply::Done]);
    yielded(end);
    assert_eq!(asked, vec![command(Command::RemoveNode { node_id: NodeId(5) })]);
}

#[test]
fn a_click_moves_presses_and_releases() {
    let (asked, end) = play(inner().move_mouse(point()), vec![Reply::Done]);
    yielded(end);
    assert_eq!(asked, vec![mouse(DispatchMouseEventType::MouseMoved, false)]);
    let (asked, end) = play(inner().click(point()), vec![Reply::Done, Reply::Done, Reply::Done]);
    yielded(end);
    assert_eq!(
        asked,
        vec![
            mouse(DispatchMouseEventType::MouseMoved, false),
            mouse(DispatchMouseEventType::MousePressed, true),
            mouse(DispatchMouseEventType::MouseReleased, true),
        ]
    );
}

#[test]
fn a_rectangle_is_scrolled_into_view() {
    let rect = Rect {
        x: Num::Whole(1),
        y: Num::Whole(2),
        width: Num::Whole(3),
        height: Num::Whole(4),
    };
    let (asked, end) = play(inner().scroll(rect), vec![Reply::Node(document()), Reply::Done]);
    yielded(end);
    assert_eq!(
        asked,
        vec![
            command(Command::GetDocument { depth: Some(-1), pierce: Some(true) }),
            command(Command::ScrollIntoViewIfNeeded {
                backend_node_id: BackendNodeId(2),
                rect: Some(rect),
            }),
        ]
    );
}

#[test]
fn each_character_is_a_keystroke() {
    let stroke = |key: &str| {
        vec![
            Reply::KeyEvent(down(key)),
            Reply::Done,
            Reply::KeyEvent(down(key)),
            Reply::Done,
        ]
    };
    let mut answers = stroke("E");
    answers.extend(stroke("ñ"));
    let (asked, end) = play(inner().type_str("Eñ"), answers);
    yielded(end);
    let mut expected = Vec::new();
    for key in ["E", "ñ"] {
        expected.push(Request::KeyEvent { key: key.to_string() });
        expected.push(command(Command::DispatchKeyEvent(down(key))));
        expected.push(Request::KeyEvent { key: key.to_string() });
        expected.push(command(Command::DispatchKeyEvent(up(key))));
    }
    assert_eq!(asked, expected);
    let (asked, end) = play(inner().type_str(""), vec![]);
    yielded(end);
    assert!(asked.is_empty());
    let (asked, end) = play(inner().press_key("Enter".to_string()), stroke("Enter"));
    yielded(end);
    assert_eq!(asked[0], Request::KeyEvent { key: "Enter".to_string() });
    assert_eq!(asked.len(), 4);
    let element = Element {
        remote_object_id: RemoteObjectId("object".to_string()),
        backend_node_id: BackendNodeId(7),
        node_id: NodeId(8),
    };
    let (asked, end) = play(element.type_str(&inner(), "a"), stroke("a"));
    yielded(end);
    assert_eq!(asked[1], command(Command::DispatchKeyEvent(down("a"))));
    let (asked, end) = play(element.press_key(&inner(), "Tab".to_string()), stroke("Tab"));
    yielded(end);
    assert_eq!(asked[3], command(Command::DispatchKeyEvent(up("Tab"))));
}

#[test]
fn keys_are_pressed_and_released_together() {
    let keys = || vec!["Control".to_string(), "a".to_string()];
    let events = || Reply::KeyEvents(vec![down("Control"), down("a")]);
    let (asked, end) = play(inner().keys_down(keys()), vec![events(), Reply::Done]);
    yielded(end);
    assert_eq!(
        asked,
        vec![
            Request::KeyEvents { keys: keys() },
            Request::Batch {
                commands: vec![
                    Command::DispatchKeyEvent(down("Control")),
                    Command::DispatchKeyEvent(down("a")),
                ],
                at_once: None,
            },
        ]
    );
    let (asked, end) = play(inner().keys_up(keys()), vec![events(), Reply::Done]);
    yielded(end);
    assert_eq!(
        asked[1],
        Request::Batch {
            commands: vec![
                Command::DispatchKeyEvent(up("Control")),
                Command::DispatchKeyEvent(up("a")),
            ],
            at_once: None,
        }
    );
}

#[test]
fn an_expression_is_evaluated_with_defaults() {
    let mut expected = EvaluateParams::new("1 + 2".to_string());
    expected.context_id = Some(ExecutionContextId(4));
    expected.await_promise = Some(true);
    expected.return_by_value = Some(true);
    let (asked, end) = play(
        inner().evaluate_expression(EvaluateParams::new("1 + 2".to_string())),
        vec![
            Reply::Context(Some(ExecutionContextId(4))),
            returned(RemoteObjectType::Number, None),
        ],
    );
    assert_eq!(yielded(end).object().kind, RemoteObjectType::Number);
    assert_eq!(
        asked,
        vec![
            Request::ExecutionContext { frame_id: None, world: DomWorldKind::Main },
            command(Command::Evaluate(expected)),
        ]
    );
}

#[test]
fn what_is_set_of_an_evaluation_is_kept() {
    let given = || {
        let mut params = EvaluateParams::new("x".to_string());
        params.context_id = Some(ExecutionContextId(9));
        params.await_promise = Some(false);
        params.return_by_value = Some(false);
        params
    };
    let (asked, end) = play(
        inner().evaluate_expression(given()),
        vec![returned(RemoteObjectType::Number, None)],
    );
    yielded(end);
    assert_eq!(asked, vec![command(Command::Evaluate(given()))]);
}

#[test]
fn an_exception_is_an_error() {
    let (_, end) = play(
        inner().evaluate_expression(EvaluateParams::new("x".to_string())),
        vec![Reply::Context(None), returned(RemoteObjectType::Object, Some("Uncaught"))],
    );
    match end {
        End::Failed(CdpError::JavascriptException(details)) => {
            assert_eq!(details.text, "Uncaught")
        }
        other => panic!("{:?}", other),
    }
}

#[test]
fn a_function_is_called_with_defaults() {
    let mut expected = CallFunctionOnParams::new("() => 1".to_string());
    expected.execution_context_id = Some(ExecutionContextId(4));
    expected.await_promise = Some(true);
    expected.return_by_value = Some(true);
    let (asked, end) = play(
        inner().evaluate_function(CallFunctionOnParams::new("() => 1".to_string())),
        vec![
            Reply::Context(Some(ExecutionContextId(4))),
            returned(RemoteObjectType::Number, None),
        ],
    );
    yielded(end);
    assert_eq!(
        asked,
        vec![
            Request::ExecutionContext { frame_id: None, world: DomWorldKind::Main },
            command(Command::CallFunctionOn(expected)),
        ]
    );
    let mut expected = CallFunctionOnParams::new("f".to_string());
    expected.object_id = Some(RemoteObjectId("o".to_string()));
    expected.generate_preview = Some(true);
    expected.await_promise = Some(false);
    let (asked, end) = play(
        inner().call_js_fn("f".to_string(), false, RemoteObjectId("o".to_string())),
        vec![returned(RemoteObjectType::Number, None)],
    );
    yielded(end);
    assert_eq!(asked, vec![command(Command::CallFunctionOn(expected))]);
}

#[test]
fn what_is_set_of_a_call_is_kept() {
    let given = || {
        let mut params = CallFunctionOnParams::new("f".to_string());
        params.execution_context_id = Some(ExecutionContextId(9));
        params.await_promise = Some(false);
        params.return_by_value = Some(false);
        params
    };
    let (asked, end) = play(
        inner().evaluate_function(given()),
        vec![returned(RemoteObjectType::Number, None)],
    );
    yielded(end);
    assert_eq!(asked, vec![command(Command::CallFunctionOn(given()))]);
}

#[test]
fn execution_contexts_are_looked_up() {
    let frame = || FrameId("f".to_string());
    let context = || vec![Reply::Context(Some(ExecutionContextId(1)))];
    let asked_for = |frame_id, world| vec![Request::ExecutionContext { frame_id, world }];
    let (asked, end) = play(inner().execution_context(), context());
    assert_eq!(yielded(end), Some(ExecutionContextId(1)));
    assert_eq!(asked, asked_for(None, DomWorldKind::Main));
    let (asked, _) = play(inner().secondary_execution_context(), context());
    assert_eq!(asked, asked_for(None, DomWorldKind::Secondary));
    let (asked, _) = play(inner().frame_execution_context(frame()), context());
    assert_eq!(asked, asked_for(Some(frame()), DomWorldKind::Main));
    let (asked, _) = play(inner().frame_secondary_execution_context(frame()), context());
    assert_eq!(asked, asked_for(Some(frame()), DomWorldKind::Secondary));
    let (asked, _) = play(
        inner().execution_context_for_world(Some(frame()), DomWorldKind::Main),
        context(),
    );
    assert_eq!(asked, asked_for(Some(frame()), DomWorldKind::Main));
    let (asked, end) = play(inner().get_document(), vec![Reply::Node(document())]);
    assert_eq!(yielded(end), document());
    assert_eq!(
        asked,
        vec![command(Command::GetDocument { depth: Some(-1), pierce: Some(true) })]
    );
}
