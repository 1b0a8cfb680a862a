use chromiumoxide::cdp::browser::GetVersionReturns;
use chromiumoxide::cdp::command::{Command, Domain};
use chromiumoxide::cdp::dom::{BackendNodeId, Node, NodeId, PerformSearchReturns, Rect, SearchId};
use chromiumoxide::cdp::emulation::{MediaFeature, SetGeolocationOverrideParams};
use chromiumoxide::cdp::network::SetUserAgentOverrideParams;
use chromiumoxide::cdp::page::{
    AddScriptToEvaluateOnNewDocumentParams, FrameId, GetFrameTreeReturns, GetLayoutMetricsReturns,
    NavigateParams, ScriptIdentifier,
};
use chromiumoxide::cdp::runtime::{
    ExecutionContextId, RemoteObject, RemoteObjectId, RemoteObjectType, ScriptId,
};
use chromiumoxide::cdp::target::{SessionId, TargetId};
use chromiumoxide::element::Element;
use chromiumoxide::error::CdpError;
use chromiumoxide::flow::{Flow, Step};
use chromiumoxide::handler::page::PageInner;
use chromiumoxide::json::Json;
use chromiumoxide::layout::Point;
use chromiumoxide::number::Num;
use chromiumoxide::page::{continue_wait, Page, WaitAction, WaitEvent};
use chromiumoxide::protocol::{DomWorldKind, Reply, Request};

/// How an operation ended.
#[derive(Debug)]
enum End<T> {
    Yielded(T),
    Failed(CdpError),
    Aborted,
}

/// Runs an operation with the given answers. Returns what it asked for and how it ended.
fn play<F: Flow>(first: Step<F, F::Output>, answers: Vec<Reply>) -> (Vec<Request>, End<F::Output>) {
    let mut step = first;
    let mut answers = answers.into_iter();
    let mut asked = Vec::new();
    loop {
        match step {
            Step::Ask(request, flow) => {
                asked.push(request);
                match answers.next() {
                    Some(reply) => step = flow.resume(reply),
                    None => panic!("no answer to {:?}", asked.last()),
                }
            }
            Step::Done(Ok(result)) => {
                assert!(answers.next().is_none(), "an answer is left over");
                return (asked, End::Yielded(result));
            }
            Step::Done(Err(error)) => {
                assert!(answers.next().is_none(), "an answer is left over");
                return (asked, End::Failed(error));
            }
            Step::Abort => return (asked, End::Aborted),
        }
    }
}

/// What the operation yielded.
fn yielded<T: std::fmt::Debug>(end: End<T>) -> T {
    match end {
        End::Yielded(result) => result,
        other => panic!("{:?}", other),
    }
}

/// The message that the operation failed with.
fn message<T: std::fmt::Debug>(end: End<T>) -> String {
    match end {
        End::Failed(CdpError::ChromeMessage(text)) => text,
        other => panic!("{:?}", other),
    }
}

fn page() -> Page {
    Page::from(PageInner {
        target_id: TargetId("target".to_string()),
        session_id: SessionId("session".to_string()),
    })
}

fn command(command: Command) -> Request {
    Request::Command(command)
}

fn frame() -> FrameId {
    FrameId("frame".to_string())
}

fn document() -> Node {
    Node {
        node_id: NodeId(1),
        backend_node_id: BackendNodeId(2),
        node_name: "#document".to_string(),
        local_name: String::new(),
        node_value: String::new(),
        attributes: None,
        children: None,
        details: Json("{}".to_string()),
    }
}

fn get_document() -> Request {
    command(Command::GetDocument { depth: Some(-1), pierce: Some(true) })
}

fn object() -> RemoteObject {
    RemoteObject {
        kind: RemoteObjectType::Object,
        subtype: None,
        class_name: None,
        value: None,
        unserializable_value: None,
        description: None,
        object_id: Some(RemoteObjectId("object".to_string())),
        details: Json("{}".to_string()),
    }
}

fn found(node_id: i64) -> Element {
    Element {
        remote_object_id: RemoteObjectId("object".to_string()),
        backend_node_id: BackendNodeId(2),
        node_id: NodeId(node_id),
    }
}

fn metrics() -> GetLayoutMetricsReturns {
    GetLayoutMetricsReturns {
        client_width: Num::Whole(1000),
        css_content_size: Rect {
            x: Num::Whole(0),
            y: Num::Whole(0),
            width: Num::Whole(300),
            height: Num::Whole(400),
        },
        content_width: 300,
        content_height: 400,
        details: Json("{}".to_string()),
    }
}

fn text(value: &str) -> Reply {
    Reply::OptionalText(Some(value.to_string()))
}

#[test]
fn a_page_is_made_of_its_session() {
    assert_eq!(page().target_id(), &TargetId("target".to_string()));
    assert_eq!(page().session_id(), &SessionId("session".to_string()));
    let message = page().execute(Command::BringToFront);
    assert_eq!(message.session_id, Some(SessionId("session".to_string())));
    let message = page().command_future(Command::BringToFront);
    assert_eq!(message.command, Command::BringToFront);
}

#[test]
fn a_navigation_fails_with_the_text_of_the_browser() {
    let params = || NavigateParams::new("https://example.com".to_string());
    let (asked, end) = play(page().goto(params()), vec![Reply::OptionalText(None)]);
    yielded(end);
    assert_eq!(asked, vec![command(Command::Navigate(params()))]);
    let (_, end) = play(page().goto(params()), vec![text("net::ERR_NAME_NOT_RESOLVED")]);
    assert_eq!(message(end), "net::ERR_NAME_NOT_RESOLVED");
}

#[test]
fn navigations_are_waited_for() {
    let request = || Reply::Payload(Json("{}".to_string()));
    let (asked, end) = play(page().wait_for_navigation_response(), vec![request()]);
    assert_eq!(yielded(end), Json("{}".to_string()));
    assert_eq!(asked, vec![Request::Navigation]);
    let (asked, end) = play(page().wait_for_navigation(), vec![request()]);
    yielded(end);
    assert_eq!(asked, vec![Request::Navigation]);
    let (asked, end) = play(page().reload(), vec![Reply::Done, request()]);
    yielded(end);
    assert_eq!(asked, vec![command(Command::Reload), Request::Navigation]);
    let (asked, end) = play(page().http_future(Command::Reload), vec![Reply::Done, request()]);
    assert_eq!(yielded(end), Json("{}".to_string()));
    assert_eq!(asked, vec![command(Command::Reload), Request::Navigation]);
}

#[test]
fn a_lifecycle_event_is_waited_for_in_rounds() {
    let (asked, end) = play(page().wait_for_lifecycle_event("load"), vec![text("init")]);
    assert!(!yielded(end));
    assert_eq!(asked, vec![Request::LifecycleEvent]);
    let (_, end) = play(page().wait_for_lifecycle_event("load"), vec![text("load")]);
    assert!(yielded(end));
    let (_, end) = play(
        page().wait_for_lifecycle_event("load"),
        vec![Reply::OptionalText(None)],
    );
    assert!(yielded(end));
}

#[test]
fn frames_are_asked_for() {
    let (asked, end) = play(page().frame_name(frame()), vec![text("main")]);
    assert_eq!(yielded(end), Some("main".to_string()));
    assert_eq!(asked, vec![Request::Name { frame_id: frame() }]);
    let (asked, end) = play(page().url(), vec![text("https://example.com")]);
    assert_eq!(yielded(end), Some("https://example.com".to_string()));
    assert_eq!(asked, vec![Request::Url { frame_id: None }]);
    let (asked, end) = play(page().frame_url(frame()), vec![Reply::OptionalText(None)]);
    assert_eq!(yielded(end), None);
    assert_eq!(asked, vec![Request::Url { frame_id: Some(frame()) }]);
    let (asked, end) = play(page().frame_parent(frame()), vec![Reply::Frame(None)]);
    assert_eq!(yielded(end), None);
    assert_eq!(asked, vec![Request::Parent { frame_id: frame() }]);
    let (asked, end) = play(page().mainframe(), vec![Reply::Frame(Some(frame()))]);
    assert_eq!(yielded(end), Some(frame()));
    assert_eq!(asked, vec![Request::MainFrame]);
    let (asked, end) = play(page().frames(), vec![Reply::Frames(vec![frame()])]);
    assert_eq!(yielded(end), vec![frame()]);
    assert_eq!(asked, vec![Request::AllFrames]);
    let tree = || GetFrameTreeReturns { frame_id: frame(), details: Json("{}".to_string()) };
    let (asked, end) = play(page().get_frame_tree(), vec![Reply::FrameTree(tree())]);
    assert_eq!(yielded(end), tree());
    assert_eq!(asked, vec![command(Command::GetFrameTree)]);
}

#[test]
fn the_user_agent_is_read_and_set() {
    let version = GetVersionReturns {
        user_agent: "agent".to_string(),
        details: Json("{}".to_string()),
    };
    let (asked, end) = play(page().user_agent(), vec![Reply::Version(version)]);
    assert_eq!(yielded(end), "agent");
    assert_eq!(asked, vec![command(Command::GetVersion)]);
    let params = || SetUserAgentOverrideParams::new("other".to_string());
    let (asked, end) = play(page().set_user_agent(params()), vec![Reply::Done]);
    yielded(end);
    assert_eq!(asked, vec![command(Command::SetUserAgentOverride(params()))]);
    assert_eq!(params().user_agent_metadata, None);
    let detailed = || SetUserAgentOverrideParams {
        user_agent_metadata: Some(Json("{\"mobile\":false}".to_string())),
        ..params()
    };
    let (asked, end) = play(page().set_user_agent(detailed()), vec![Reply::Done]);
    yielded(end);
    assert_eq!(asked, vec![command(Command::SetUserAgentOverride(detailed()))]);
}

#[test]
fn elements_are_found_by_selector() {
    let (asked, end) = play(
        page().find_element("a".to_string()),
        vec![
            Reply::Node(document()),
            Reply::NodeId(NodeId(5)),
            Reply::Node(document()),
            Reply::Object(object()),
        ],
    );
    assert_eq!(yielded(end), found(5));
    assert_eq!(asked[0], get_document());
    assert_eq!(
        asked[1],
        command(Command::QuerySelector { node_id: NodeId(1), selector: "a".to_string() })
    );
    let (asked, end) = play(
        page().find_elements("a".to_string()),
        vec![Reply::Node(document()), Reply::NodeIds(vec![]), Reply::Elements(vec![])],
    );
    assert!(yielded(end).is_empty());
    assert_eq!(
        asked[1],
        command(Command::QuerySelectorAll { node_id: NodeId(1), selector: "a".to_string() })
    );
    let (asked, end) = play(page().get_document_node(), vec![Reply::Node(document())]);
    assert_eq!(yielded(end), document());
    assert_eq!(asked, vec![get_document()]);
    let (asked, end) = play(page().describe_node(NodeId(5)), vec![Reply::Node(document())]);
    assert_eq!(yielded(end), document());
    assert_eq!(
        asked,
        vec![command(Command::DescribeNode {
            node_id: Some(NodeId(5)),
            backend_node_id: None,
            depth: Some(100),
        })]
    );
}

#[test]
fn elements_are_found_by_xpath() {
    let search = || {
        Reply::Search(PerformSearchReturns {
            search_id: SearchId("s".to_string()),
            result_count: 2,
        })
    };
    let (asked, end) = play(
        page().find_xpath("//a".to_string()),
        vec![
            Reply::Node(document()),
            search(),
            Reply::NodeIds(vec![NodeId(6), NodeId(7)]),
            Reply::Done,
            Reply::Node(document()),
            Reply::Object(object()),
        ],
    );
    assert_eq!(yielded(end), found(6));
    assert_eq!(asked[0], get_document());
    assert_eq!(
        asked[4],
        command(Command::DescribeNode {
            node_id: Some(NodeId(6)),
            backend_node_id: None,
            depth: Some(-1),
        })
    );
    let (_, end) = play(
        page().find_xpath("//a".to_string()),
        vec![Reply::Node(document()), search(), Reply::NodeIds(vec![]), Reply::Done],
    );
    assert!(matches!(end, End::Aborted));
    let (asked, end) = play(
        page().find_xpaths("//a".to_string()),
        vec![
            Reply::Node(document()),
            search(),
            Reply::NodeIds(vec![]),
            Reply::Done,
            Reply::Elements(vec![]),
        ],
    );
    assert!(yielded(end).is_empty());
    assert_eq!(asked[4], Request::Elements { node_ids: vec![] });
}

#[test]
fn a_wait_lasts_until_an_attempt_succeeds_or_the_time_is_up() {
    let selector = "a".to_string();
    let (asked, end) = play(
        page().wait_for_element(&selector),
        vec![
            Reply::Node(document()),
            Reply::NodeId(NodeId(5)),
            Reply::Node(document()),
            Reply::Object(object()),
        ],
    );
    assert_eq!(asked.len(), 4);
    match continue_wait(WaitEvent::Attempt(Ok(yielded(end)))) {
        WaitAction::Found(element) => assert_eq!(element, found(5)),
        other => panic!("{:?}", other),
    }
    assert!(matches!(
        continue_wait(WaitEvent::Attempt(Err(CdpError::NotFound))),
        WaitAction::LookAgain
    ));
    match continue_wait(WaitEvent::Expired("deadline has elapsed".to_string())) {
        WaitAction::Failed(CdpError::ChromeMessage(text)) => {
            assert_eq!(text, "deadline has elapsed")
        }
        other => panic!("{:?}", other),
    }
}

#[test]
fn a_wait_for_an_xpath_that_matches_nothing_looks_again() {
    let selector = "//a".to_string();
    let search = |result_count| {
        Reply::Search(PerformSearchReturns {
            search_id: SearchId("s".to_string()),
            result_count,
        })
    };
    let (asked, end) = play(
        page().wait_for_xpath(&selector),
        vec![Reply::Node(document()), search(0), Reply::NodeIds(vec![]), Reply::Done],
    );
    assert_eq!(asked[0], get_document());
    assert_eq!(
        asked[3],
        command(Command::DiscardSearchResults { search_id: SearchId("s".to_string()) })
    );
    match end {
        End::Failed(error) => {
            assert!(matches!(error, CdpError::NotFound));
            let action = continue_wait(WaitEvent::Attempt(Err(error)));
            assert!(matches!(action, WaitAction::LookAgain));
        }
        other => panic!("{:?}", other),
    }
    let (_, end) = play(
        page().wait_for_xpath(&selector),
        vec![
            Reply::Node(document()),
            search(2),
            Reply::NodeIds(vec![NodeId(6), NodeId(7)]),
            Reply::Done,
            Reply::Node(document()),
            Reply::Object(object()),
        ],
    );
    assert_eq!(yielded(end), found(6));
}

#[test]
fn a_click_scrolls_to_the_point_first() {
    let point = Point { x: Num::Whole(3), y: Num::Whole(4) };
    let scrolled = Rect {
        x: Num::Whole(3),
        y: Num::Whole(4),
        width: Num::Whole(300),
        height: Num::Whole(400),
    };
    let answers =
        || vec![Reply::LayoutMetrics(metrics()), Reply::Node(document()), Reply::Done];
    let scroll = || {
        command(Command::ScrollIntoViewIfNeeded {
            backend_node_id: BackendNodeId(2),
            rect: Some(scrolled),
        })
    };
    let (asked, end) = play(page().scroll(point), answers());
    yielded(end);
    assert_eq!(asked, vec![command(Command::GetLayoutMetrics), get_document(), scroll()]);
    let mut all = answers();
    all.extend(vec![Reply::Done, Reply::Done, Reply::Done]);
    let (asked, end) = play(page().click(point), all);
    yielded(end);
    assert_eq!(asked[2], scroll());
    assert!(matches!(asked[3], Request::Command(Command::DispatchMouseEvent(_))));
    assert_eq!(asked.len(), 6);
    let (asked, end) = play(page().move_mouse(point), vec![Reply::Done]);
    yielded(end);
    assert_eq!(asked.len(), 1);
    let (asked, end) = play(page().layout_metrics(), vec![Reply::LayoutMetrics(metrics())]);
    assert_eq!(yielded(end), metrics());
    assert_eq!(asked, vec![command(Command::GetLayoutMetrics)]);
}

#[test]
fn a_page_is_emulated() {
    let (asked, end) = play(
        page().emulate_media_features(vec![MediaFeature {
            name: "prefers-color-scheme".to_string(),
            value: "dark".to_string(),
        }]),
        vec![Reply::Done],
    );
    yielded(end);
    assert_eq!(
        asked,
        vec![command(Command::SetEmulatedMedia {
            features: vec![MediaFeature {
                name: "prefers-color-scheme".to_string(),
                value: "dark".to_string(),
            }],
        })]
    );
    let (asked, end) = play(page().emulate_timezone("UTC".to_string()), vec![Reply::Done]);
    yielded(end);
    assert_eq!(
        asked,
        vec![command(Command::SetTimezoneOverride { timezone_id: "UTC".to_string() })]
    );
    let (asked, end) = play(
        page().emulate_locale(Some("de_DE".to_string())),
        vec![Reply::Done],
    );
    yielded(end);
    assert_eq!(
        asked,
        vec![command(Command::SetLocaleOverride { locale: Some("de_DE".to_string()) })]
    );
    let position = SetGeolocationOverrideParams {
        latitude: Some(Num::Whole(1)),
        longitude: None,
        accuracy: None,
    };
    let (asked, end) = play(page().emulate_geolocation(position), vec![Reply::Done]);
    yielded(end);
    assert_eq!(asked, vec![command(Command::SetGeolocationOverride(position))]);
}

#[test]
fn domains_are_switched_on_and_off() {
    let steps = vec![
        (page().enable_log(), Command::Enable(Domain::Log)),
        (page().disable_log(), Command::Disable(Domain::Log)),
        (page().enable_runtime(), Command::Enable(Domain::Runtime)),
        (page().disable_runtime(), Command::Disable(Domain::Runtime)),
        (page().enable_debugger(), Command::Enable(Domain::Debugger)),
        (page().disable_debugger(), Command::Disable(Domain::Debugger)),
        (page().enable_dom(), Command::Enable(Domain::Dom)),
        (page().disable_dom(), Command::Disable(Domain::Dom)),
        (page().enable_css(), Command::Enable(Domain::Css)),
        (page().disable_css(), Command::Disable(Domain::Css)),
        (page().enable_network(), Command::Enable(Domain::Network)),
        (page().disable_network(), Command::Disable(Domain::Network)),
        (page().bring_to_front(), Command::BringToFront),
        (page().close(), Command::ClosePage),
        (
            page().activate(),
            Command::ActivateTarget { target_id: TargetId("target".to_string()) },
        ),
    ];
    for (step, expected) in steps {
        let (asked, end) = play(step, vec![Reply::Done]);
        yielded(end);
        assert_eq!(asked, vec![command(expected)]);
    }
}

#[test]
fn contexts_metrics_and_sources_are_read() {
    let context = || vec![Reply::Context(Some(ExecutionContextId(1)))];
    let asked_for = |frame_id, world| vec![Request::ExecutionContext { frame_id, world }];
    let (asked, end) = play(page().execution_context(), context());
    assert_eq!(yielded(end), Some(ExecutionContextId(1)));
    assert_eq!(asked, asked_for(None, DomWorldKind::Main));
    let (asked, _) = play(page().secondary_execution_context(), context());
    assert_eq!(asked, asked_for(None, DomWorldKind::Secondary));
    let (asked, _) = play(page().frame_execution_context(frame()), context());
    assert_eq!(asked, asked_for(Some(frame()), DomWorldKind::Main));
    let (asked, _) = play(page().frame_secondary_execution_context(frame()), context());
    assert_eq!(asked, asked_for(Some(frame()), DomWorldKind::Secondary));
    let (asked, end) = play(page().metrics(), vec![Reply::Payload(Json("[]".to_string()))]);
    assert_eq!(yielded(end), Json("[]".to_string()));
    assert_eq!(asked, vec![command(Command::GetMetrics)]);
    let (asked, end) = play(
        page().get_script_source("7".to_string()),
        vec![Reply::Text("x".to_string())],
    );
    assert_eq!(yielded(end), "x");
    assert_eq!(
        asked,
        vec![command(Command::GetScriptSource { script_id: ScriptId("7".to_string()) })]
    );
}

#[test]
fn scripts_are_added_to_new_documents() {
    let params = || AddScriptToEvaluateOnNewDocumentParams::new("x".to_string());
    let (asked, end) = play(
        page().evaluate_on_new_document(params()),
        vec![Reply::Script(ScriptIdentifier("3".to_string()))],
    );
    assert_eq!(yielded(end), ScriptIdentifier("3".to_string()));
    assert_eq!(asked, vec![command(Command::AddScriptToEvaluateOnNewDocument(params()))]);
    let (asked, end) = play(
        page().expose_function("run".to_string(), "(type, name) => {}"),
        vec![Reply::Done, Reply::Done],
    );
    yielded(end);
    assert_eq!(
        asked,
        vec![
            command(Command::AddBinding { name: "run".to_string() }),
            command(Command::AddScriptToEvaluateOnNewDocument(
                AddScriptToEvaluateOnNewDocumentParams::new(
                    "((type, name) => {})(\"exposedFun\",\"run\")".to_string()
                )
            )),
        ]
    );
}
