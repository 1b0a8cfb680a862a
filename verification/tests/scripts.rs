use chromiumoxide::cdp::command::{Command, Domain};
use chromiumoxide::cdp::css::{SourceRange, StyleSheetId};
use chromiumoxide::cdp::dom::{BackendNodeId, Node, NodeId};
use chromiumoxide::cdp::network::SetUserAgentOverrideParams;
use chromiumoxide::cdp::page::{
    AddScriptToEvaluateOnNewDocumentParams, FrameId, GetFrameTreeReturns,
};
use chromiumoxide::cdp::runtime::{
    CallArgument, CallFunctionOnParams, CallFunctionOnReturns, EvaluateParams, ExecutionContextId,
    RemoteObject, RemoteObjectType,
};
use chromiumoxide::cdp::target::{SessionId, TargetId};
use chromiumoxide::contents::{
    call_to_write, read_title, READ_DOCUMENT, READ_DOCUMENT_BYTES, WRITE_DOCUMENT,
};
use chromiumoxide::error::CdpError;
use chromiumoxide::flow::{Flow, Step};
use chromiumoxide::handler::page::PageInner;
use chromiumoxide::js::{evaluation_string, Evaluation};
use chromiumoxide::json::Json;
use chromiumoxide::page::Page;
use chromiumoxide::protocol::{DomWorldKind, Reply, Request};
use chromiumoxide::stealth::{
    disguise, disguise_reported, name_headed, put_on, HIDE_CHROME, HIDE_PERMISSIONS, HIDE_PLUGINS,
    HIDE_WEBDRIVER, HIDE_WEBGL_VENDOR, SPOOF_CHROME, SPOOF_MIME_TYPES, SPOOF_PERMISSIONS,
    SPOOF_PLUGINS, SPOOF_WEBDRIVER, SPOOF_WEBGL, STEALTH_USER_AGENT,
};

/// How an operation ended.
#[derive(Debug)]
enum End<T> {
    Yielded(T),
    Failed(CdpError),
    Aborted,
}

/// Runs an operation with the given answers. Returns what it asked for and how it ended.
fn play<F: Flow>(first: Step<F, F::Output>, answers: Vec<Reply>) -> (Vec<Request>, End<F::Output>) {
    let mut step = first;
    let mut answers = answers.into_iter();
    let mut asked = Vec::new();
    loop {
        match step {
            Step::Ask(request, flow) => {
                asked.push(request);
                match answers.next() {
                    Some(reply) => step = flow.resume(reply),
                    None => panic!("no answer to {:?}", asked.last()),
                }
            }
            Step::Done(Ok(result)) => {
                assert!(answers.next().is_none(), "an answer is left over");
                return (asked, End::Yielded(result));
            }
            Step::Done(Err(error)) => {
                assert!(answers.next().is_none(), "an answer is left over");
                return (asked, End::Failed(error));
            }
            Step::Abort => return (asked, End::Aborted),
        }
    }
}

/// What the operation yielded.
fn yielded<T: std::fmt::Debug>(end: End<T>) -> T {
    match end {
        End::Yielded(result) => result,
        other => panic!("{:?}", other),
    }
}

/// The message that the operation failed with.
fn message<T: std::fmt::Debug>(end: End<T>) -> String {
    match end {
        End::Failed(CdpError::ChromeMessage(text)) => text,
        other => panic!("{:?}", other),
    }
}

fn page() -> Page {
    Page::from(PageInner {
        target_id: TargetId("target".to_string()),
        session_id: SessionId("session".to_string()),
    })
}

fn command(command: Command) -> Request {
    Request::Command(command)
}

fn expression(text: &str) -> EvaluateParams {
    EvaluateParams::new(text.to_string())
}

fn object(kind: RemoteObjectType, value: Option<&str>) -> RemoteObject {
    RemoteObject {
        kind,
        subtype: None,
        class_name: None,
        value: value.map(|text| Json(text.to_string())),
        unserializable_value: None,
        description: None,
        object_id: None,
        details: Json("{}".to_string()),
    }
}

fn returned(kind: RemoteObjectType, value: Option<&str>) -> Reply {
    Reply::Evaluated(CallFunctionOnReturns { result: object(kind, value), exception_details: None })
}

fn context() -> Reply {
    Reply::Context(Some(ExecutionContextId(4)))
}

fn main_context() -> Request {
    Request::ExecutionContext { frame_id: None, world: DomWorldKind::Main }
}

/// The command that evaluates an expression with nothing else set.
fn evaluated(text: &str) -> Request {
    let mut params = expression(text);
    params.context_id = Some(ExecutionContextId(4));
    params.await_promise = Some(true);
    params.return_by_value = Some(true);
    command(Command::Evaluate(params))
}

fn added(source: &str) -> Request {
    command(Command::AddScriptToEvaluateOnNewDocument(AddScriptToEvaluateOnNewDocumentParams {
        source: source.to_string(),
        world_name: None,
        include_command_line_api: None,
    }))
}

fn agent(text: &str) -> Request {
    command(Command::SetUserAgentOverride(SetUserAgentOverrideParams {
        user_agent: text.to_string(),
        accept_language: None,
        platform: None,
        user_agent_metadata: None,
    }))
}

fn document() -> Reply {
    Reply::Node(Node {
        node_id: NodeId(1),
        backend_node_id: BackendNodeId(2),
        node_name: "#document".to_string(),
        local_name: String::new(),
        node_value: String::new(),
        attributes: None,
        children: None,
        details: Json("{}".to_string()),
    })
}

fn done(count: usize) -> Vec<Reply> {
    (0..count).map(|_| Reply::Done).collect()
}

#[test]
fn an_expression_is_evaluated() {
    let (asked, end) = play(
        page().evaluate(Evaluation::Expression(expression("1 + 2"))),
        vec![context(), returned(RemoteObjectType::Number, Some("3"))],
    );
    assert_eq!(yielded(end).value(), Some(&Json("3".to_string())));
    assert_eq!(asked, vec![main_context(), evaluated("1 + 2")]);
}

#[test]
fn a_context_that_is_not_there_is_asked_for_again() {
    let (asked, end) = play(
        page().evaluate(Evaluation::Expression(expression("1"))),
        vec![
            Reply::Context(None),
            context(),
            returned(RemoteObjectType::Number, Some("1")),
        ],
    );
    yielded(end);
    assert_eq!(asked, vec![main_context(), main_context(), evaluated("1")]);
}

#[test]
fn a_function_is_submitted_again_where_the_fallback_is_asked_for() {
    let given = || {
        let mut params = expression("() => 42");
        params.eval_as_function_fallback = Some(true);
        params.silent = Some(true);
        params
    };
    let mut first = given();
    first.context_id = Some(ExecutionContextId(4));
    first.await_promise = Some(true);
    first.return_by_value = Some(true);
    let mut second = CallFunctionOnParams::new("() => 42".to_string());
    second.silent = Some(true);
    second.execution_context_id = Some(ExecutionContextId(4));
    second.await_promise = Some(true);
    second.return_by_value = Some(true);
    let (asked, end) = play(
        page().evaluate(Evaluation::Expression(given())),
        vec![
            context(),
            returned(RemoteObjectType::Function, None),
            returned(RemoteObjectType::Number, Some("42")),
        ],
    );
    assert_eq!(yielded(end).value(), Some(&Json("42".to_string())));
    assert_eq!(
        asked,
        vec![
            main_context(),
            command(Command::Evaluate(first)),
            command(Command::CallFunctionOn(second)),
        ]
    );
    let (asked, end) = play(
        page().evaluate(Evaluation::Expression(given())),
        vec![context(), returned(RemoteObjectType::Number, Some("42"))],
    );
    yielded(end);
    assert_eq!(asked.len(), 2);
}

#[test]
fn a_function_stays_one_without_the_fallback() {
    let (asked, end) = play(
        page().evaluate(Evaluation::Expression(expression("() => 42"))),
        vec![context(), returned(RemoteObjectType::Function, None)],
    );
    assert_eq!(yielded(end).object().kind, RemoteObjectType::Function);
    assert_eq!(asked.len(), 2);
}

#[test]
fn a_function_is_called_as_one() {
    let call = CallFunctionOnParams::new("() => 1".to_string());
    let (asked, end) = play(
        page().evaluate(Evaluation::Function(call)),
        vec![context(), returned(RemoteObjectType::Number, Some("1"))],
    );
    yielded(end);
    let mut sent = CallFunctionOnParams::new("() => 1".to_string());
    sent.execution_context_id = Some(ExecutionContextId(4));
    sent.await_promise = Some(true);
    sent.return_by_value = Some(true);
    assert_eq!(asked, vec![main_context(), command(Command::CallFunctionOn(sent))]);
    let (asked, end) = play(
        page().evaluate_function(CallFunctionOnParams::new("() => 1".to_string())),
        vec![context(), returned(RemoteObjectType::Number, Some("1"))],
    );
    yielded(end);
    assert_eq!(asked.len(), 2);
    let (asked, end) = play(
        page().evaluate_expression(expression("1")),
        vec![context(), returned(RemoteObjectType::Number, Some("1"))],
    );
    yielded(end);
    assert_eq!(asked, vec![main_context(), evaluated("1")]);
}

#[test]
fn a_title_is_read() {
    let (asked, end) = play(
        page().get_title(),
        vec![context(), returned(RemoteObjectType::String, Some("\"Example \\u00e9\""))],
    );
    assert_eq!(yielded(end), Some("Example é".to_string()));
    assert_eq!(asked, vec![main_context(), evaluated("document.title")]);
    let (_, end) = play(
        page().get_title(),
        vec![context(), returned(RemoteObjectType::String, Some("\"\""))],
    );
    assert_eq!(yielded(end), None);
    let (_, end) = play(
        page().get_title(),
        vec![context(), returned(RemoteObjectType::Number, Some("3"))],
    );
    assert!(matches!(end, End::Failed(CdpError::Serde(_))));
    let (_, end) = play(
        page().get_title(),
        vec![context(), returned(RemoteObjectType::Undefined, None)],
    );
    match end {
        End::Failed(CdpError::Serde(error)) => assert_eq!(error.to_string(), "No value found"),
        other => panic!("{:?}", other),
    }
    assert_eq!(read_title(Ok("x".to_string())).unwrap(), Some("x".to_string()));
    assert_eq!(read_title(Ok(String::new())).unwrap(), None);
    assert!(matches!(read_title(Err(CdpError::NotFound)), Err(CdpError::NotFound)));
}

#[test]
fn storage_is_used_through_expressions() {
    let answers = || vec![context(), returned(RemoteObjectType::Undefined, None)];
    let cases = vec![
        (page().set_local_storage("k", "v"), "localStorage.setItem(\"k\", \"v\")"),
        (page().get_local_storage("k"), "localStorage.getItem(\"k\")"),
        (page().remove_local_storage("k"), "localStorage.removeItem(\"k\")"),
        (page().clear_local_storage(), "localStorage.clear()"),
        (page().set_session_storage("k", "v"), "sessionStorage.setItem(\"k\", \"v\")"),
        (page().get_session_storage("k"), "sessionStorage.getItem(\"k\")"),
        (page().remove_session_storage("k"), "sessionStorage.removeItem(\"k\")"),
        (page().clear_session_storage(), "sessionStorage.clear()"),
    ];
    for (step, text) in cases {
        let (asked, end) = play(step, answers());
        yielded(end);
        assert_eq!(asked, vec![main_context(), evaluated(text)]);
    }
}

#[test]
fn the_document_is_set() {
    let (asked, end) = play(
        page().set_content("<p>"),
        vec![Reply::Frame(Some(FrameId("f".to_string()))), Reply::Done],
    );
    yielded(end);
    assert_eq!(
        asked,
        vec![
            Request::MainFrame,
            command(Command::SetDocumentContent {
                frame_id: FrameId("f".to_string()),
                html: "<p>".to_string(),
            }),
        ]
    );
    let (asked, end) = play(page().set_content("<p>"), vec![Reply::Frame(None), Reply::Done]);
    yielded(end);
    assert_eq!(
        asked[1],
        command(Command::SetDocumentContent {
            frame_id: FrameId(String::new()),
            html: "<p>".to_string(),
        })
    );
}

#[test]
fn the_document_is_set_by_a_script() {
    let (asked, end) = play(
        page().set_content_js("<p id=\"a\">\n"),
        vec![context(), returned(RemoteObjectType::Undefined, None), Reply::Done],
    );
    yielded(end);
    let mut call = CallFunctionOnParams::new(WRITE_DOCUMENT.to_string());
    call.arguments = Some(vec![CallArgument {
        value: Some(Json("\"<p id=\\\"a\\\">\\n\"".to_string())),
        unserializable_value: None,
        object_id: None,
    }]);
    call.execution_context_id = Some(ExecutionContextId(4));
    call.await_promise = Some(true);
    call.return_by_value = Some(true);
    assert_eq!(
        asked,
        vec![
            Request::ExecutionContext { frame_id: None, world: DomWorldKind::Secondary },
            command(Command::CallFunctionOn(call)),
            Request::Navigation,
        ]
    );
    assert!(WRITE_DOCUMENT.contains("document.write(html);"));
    let call = call_to_write(Json("1".to_string()));
    assert_eq!(call.function_declaration, WRITE_DOCUMENT);
    assert_eq!(call.arguments.unwrap()[0].value, Some(Json("1".to_string())));
}

#[test]
fn the_document_is_read() {
    let (asked, end) = play(
        page().get_content(),
        vec![document(), Reply::Text("<html>".to_string())],
    );
    assert_eq!(yielded(end), "<html>");
    assert_eq!(
        asked[1],
        command(Command::GetOuterHtml {
            node_id: Some(NodeId(1)),
            backend_node_id: Some(BackendNodeId(2)),
            object_id: None,
        })
    );
    let (asked, end) = play(
        page().get_content_js(),
        vec![context(), returned(RemoteObjectType::String, Some("\"<html>\""))],
    );
    assert_eq!(yielded(end), "<html>");
    assert_eq!(asked[1], evaluated(READ_DOCUMENT));
    let (_, end) = play(
        page().get_content_js(),
        vec![context(), returned(RemoteObjectType::Object, Some("{}"))],
    );
    assert!(matches!(end, End::Failed(CdpError::Serde(_))));
    let (asked, end) = play(
        page().content_bytes(),
        vec![context(), returned(RemoteObjectType::String, Some("\"h\\u00e9\""))],
    );
    assert_eq!(yielded(end), vec![0x68, 0xc3, 0xa9]);
    assert_eq!(asked[1], evaluated(READ_DOCUMENT_BYTES));
    let (_, end) = play(
        page().content_bytes(),
        vec![context(), returned(RemoteObjectType::Object, Some("[1,2]"))],
    );
    assert_eq!(yielded(end), vec![1, 2]);
    let (_, end) = play(
        page().content_bytes(),
        vec![context(), returned(RemoteObjectType::Object, Some("{}"))],
    );
    assert!(matches!(end, End::Failed(CdpError::Serde(_))));
    let (_, end) = play(
        page().content_bytes(),
        vec![context(), returned(RemoteObjectType::Undefined, None)],
    );
    assert!(matches!(end, End::Failed(CdpError::Serde(_))));
}

#[test]
fn a_style_sheet_is_added_to_the_main_frame() {
    let tree = GetFrameTreeReturns {
        frame_id: FrameId("f".to_string()),
        details: Json("{}".to_string()),
    };
    let (asked, end) = play(
        page().set_stylesheet("p { color: red; }"),
        vec![
            document(),
            Reply::Done,
            Reply::Done,
            Reply::FrameTree(tree),
            Reply::StyleSheet(StyleSheetId("s".to_string())),
            Reply::Done,
        ],
    );
    yielded(end);
    assert_eq!(
        asked,
        vec![
            command(Command::GetDocument { depth: Some(-1), pierce: Some(true) }),
            command(Command::Enable(Domain::Dom)),
            command(Command::Enable(Domain::Css)),
            command(Command::GetFrameTree),
            command(Command::CreateStyleSheet { frame_id: FrameId("f".to_string()) }),
            command(Command::AddRule {
                style_sheet_id: StyleSheetId("s".to_string()),
                location: SourceRange {
                    start_line: 0,
                    start_column: 0,
                    end_line: 0,
                    end_column: 0,
                },
                rule_text: "p { color: red; }".to_string(),
            }),
        ]
    );
}

#[test]
fn stealth_mode_adds_its_scripts_in_order() {
    let scripts = || {
        vec![
            added(HIDE_WEBDRIVER),
            added(HIDE_PERMISSIONS),
            added(HIDE_PLUGINS),
            added(HIDE_WEBGL_VENDOR),
            added(HIDE_CHROME),
        ]
    };
    let (asked, end) = play(page()._enable_stealth_mode(), done(5));
    yielded(end);
    assert_eq!(asked, scripts());
    let (asked, end) = play(page().enable_stealth_mode(), done(6));
    yielded(end);
    let mut expected = scripts();
    expected.push(agent(STEALTH_USER_AGENT));
    assert_eq!(asked, expected);
    let (asked, end) = play(page().enable_stealth_mode_with_agent(""), done(5));
    yielded(end);
    assert_eq!(asked, scripts());
    let (asked, end) = play(page().enable_stealth_mode_with_agent("mine"), done(6));
    yielded(end);
    assert_eq!(asked[5], agent("mine"));
    for (step, source) in [
        (page().hide_chrome(), HIDE_CHROME),
        (page().hide_webgl_vendor(), HIDE_WEBGL_VENDOR),
        (page().hide_plugins(), HIDE_PLUGINS),
        (page().hide_permissions(), HIDE_PERMISSIONS),
        (page().hide_webdriver(), HIDE_WEBDRIVER),
    ] {
        let (asked, end) = play(step, done(1));
        yielded(end);
        assert_eq!(asked, vec![added(source)]);
    }
    assert!(HIDE_WEBDRIVER.contains("{ get: () => undefined }"));
    assert!(STEALTH_USER_AGENT.starts_with("Mozilla/5.0 (Windows NT 11.0; Win64; x64)"));
}

const REPORTED: &str = "\"Mozilla/5.0 (X11; Linux x86_64) AppleWebKit/537.36 (KHTML, like \
                        Gecko) HeadlessChrome/107.0.0.0 Safari/537.36\"";

const DISGUISED: &str = "\"Mozilla/5.0 (Windows NT 10.0; Win64; x64) AppleWebKit/537.36 (KHTML, \
                         like Gecko) Chrome/107.0.0.0 Safari/537.36\"";

#[test]
fn the_user_agent_is_disguised() {
    assert_eq!(name_headed("HeadlessChrome/1 HeadlessChrome/2"), "Chrome/1 Chrome/2");
    assert_eq!(name_headed("Chrome/1"), "Chrome/1");
    assert_eq!(disguise(REPORTED), Some(DISGUISED.to_string()));
    assert_eq!(disguise("no platform ()"), Some("no platform ()".to_string()));
    let (asked, end) = play(put_on(Some("mine".to_string())), done(1));
    yielded(end);
    assert_eq!(asked, vec![agent("mine")]);
    let (_, end) = play(put_on(None), vec![]);
    assert!(matches!(end, End::Aborted));
    let (asked, end) = play(disguise_reported(Ok(REPORTED.to_string())), done(1));
    yielded(end);
    assert_eq!(asked, vec![agent(DISGUISED)]);
}

#[test]
fn the_user_agent_of_the_page_is_spoofed() {
    let (asked, end) = play(
        page().spoof_user_agent(),
        vec![context(), returned(RemoteObjectType::String, Some(REPORTED)), Reply::Done],
    );
    yielded(end);
    assert_eq!(
        asked,
        vec![main_context(), evaluated("window.navigator.userAgent"), agent(DISGUISED)]
    );
    let (asked, end) = play(
        page().spoof_user_agent(),
        vec![context(), returned(RemoteObjectType::Object, Some("[ 1, 2 ]")), Reply::Done],
    );
    yielded(end);
    assert_eq!(asked[2], agent("[1,2]"));
    let (_, end) = play(
        page().spoof_user_agent(),
        vec![context(), returned(RemoteObjectType::Undefined, None)],
    );
    assert_eq!(message(end), "No user agent is set");
    let (_, end) = play(
        page().spoof_user_agent(),
        vec![context(), returned(RemoteObjectType::String, Some("not json"))],
    );
    assert!(matches!(end, End::Failed(CdpError::Serde(_))));
}

#[test]
fn spoofing_sets_everything_in_order() {
    let mut answers = done(4);
    answers.push(context());
    answers.push(returned(RemoteObjectType::String, Some(REPORTED)));
    answers.extend(done(3));
    let (asked, end) = play(page().enable_spoofing(), answers);
    yielded(end);
    assert_eq!(
        asked,
        vec![
            added(SPOOF_CHROME),
            added(SPOOF_PERMISSIONS),
            added(SPOOF_PLUGINS),
            added(SPOOF_MIME_TYPES),
            main_context(),
            evaluated("window.navigator.userAgent"),
            agent(DISGUISED),
            added(SPOOF_WEBDRIVER),
            added(SPOOF_WEBGL),
        ]
    );
    for (step, source) in [
        (page().spoof_webdriver(), SPOOF_WEBDRIVER),
        (page().spoof_chrome(), SPOOF_CHROME),
        (page().spoof_permissions(), SPOOF_PERMISSIONS),
        (page().spoof_plugins(), SPOOF_PLUGINS),
        (page().spoof_mime_types(), SPOOF_MIME_TYPES),
        (page().spoof_webgl(), SPOOF_WEBGL),
    ] {
        let (asked, end) = play(step, done(1));
        yielded(end);
        assert_eq!(asked, vec![added(source)]);
    }
}

#[test]
fn a_call_is_written_as_an_expression() {
    let words = |list: &[&str]| list.iter().map(|word| word.to_string()).collect::<Vec<_>>();
    assert_eq!(evaluation_string("f", &words(&[])), "(f)()");
    assert_eq!(evaluation_string("f", &words(&["a"])), "(f)(\"a\")");
    assert_eq!(evaluation_string("f", &words(&["a", "b", "c"])), "(f)(\"a\",\"b\",\"c\")");
}
