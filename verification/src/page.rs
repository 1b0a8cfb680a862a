//! A page and what can be done with it.
use vstd::prelude::*;

use crate::cdp::browser::{GetVersionReturns, GetVersionReturnsView};
use crate::cdp::command::{Command, CommandView, Domain};
use crate::cdp::dom::{Node, NodeId, NodeView, Rect};
use crate::cdp::emulation::{MediaFeature, SetGeolocationOverrideParams};
use crate::cdp::network::SetUserAgentOverrideParams;
use crate::cdp::page::{
    AddScriptToEvaluateOnNewDocumentParams, AddScriptToEvaluateOnNewDocumentParamsView, FrameId,
    GetFrameTreeReturns, GetLayoutMetricsReturns, GetLayoutMetricsReturnsView, NavigateParams,
    NavigateParamsView, PrintToPdfParams, PrintToPdfParamsView, ScriptIdentifier,
};
use crate::cdp::runtime::{CallFunctionOnParams, EvaluateParams, ExecutionContextId, ScriptId};
use crate::cdp::target::{SessionId, TargetId};
use crate::element::{
    from_nodes_op, new_op, Element, ElementView, MakeElement, MakeElements, NewElement,
};
use crate::error::{CdpError, ErrorView};
use crate::evaluate::{evaluate_op, evaluate_script, Evaluate};
use crate::flow::{
    ask, asking, bind, chain, done, execute, executing, fail, follows, same_is_equal, Await, Chain,
    Ended, Next, Prog, Start, Step,
};
use crate::handler::page::{
    activate_op, click_at, click_op, context_op, decoded, document, document_op,
    evaluate_expression_op, evaluate_function_op, frame_tree_op, http_op, layout_metrics_op,
    move_mouse_op, query_selector_all_op, query_selector_op, scroll_op, scroll_to, search,
    search_op, version_op, CommandMessage, Decode, EvaluateExpression, EvaluateFunction, Navigate,
    PageInner, ScrollTo, Search,
};
use crate::js::{call_expression, evaluation_string, Evaluation, EvaluationResult};
use crate::json::Json;
use crate::laws::{asks_first, bind_asks_first, bind_is_associative, only_asks, points, scrolls};
use crate::layout::Point;
use crate::outside::base64_decoded;
use crate::protocol::{DomWorldKind, Request, RequestView};
use crate::screenshot::{
    page_screenshot, page_screenshot_op, save_op, Save, ScreenshotParams, ShootPage,
};
use crate::sequence::{in_sequence, sequence, Sequence};
use crate::text::same_text;

verus! {

/// A page.
#[derive(Debug, PartialEq, Eq)]
pub struct Page {
    pub inner: PageInner,
}

impl From<PageInner> for Page {
    fn from(inner: PageInner) -> (page: Page) {
        Page { inner }
    }
}

impl vstd::std_specs::convert::FromSpecImpl<PageInner> for Page {
    open spec fn obeys_from_spec() -> bool {
        true
    }

    open spec fn from_spec(inner: PageInner) -> Page {
        Page { inner }
    }
}

// What each operation does.

/// Yields the URL of a frame, by default of the main frame.
pub open spec fn url_op(frame_id: Option<Seq<char>>) -> Prog<Option<Seq<char>>> {
    ask::<Option<String>>(RequestView::Url { frame_id })
}

/// Navigates to a URL. It fails with the text that the browser gives as the error.
pub open spec fn goto_op(params: NavigateParamsView) -> Prog<()> {
    bind(
        execute::<Option<String>>(CommandView::Navigate(params)),
        |error_text: Option<Seq<char>>| navigated(error_text),
    )
}

/// Ends a navigation.
pub open spec fn navigated(error_text: Option<Seq<char>>) -> Prog<()> {
    match error_text {
        Some(text) => fail(ErrorView::ChromeMessage(text)),
        None => done(()),
    }
}

/// Yields the user agent of the browser.
pub open spec fn user_agent_op() -> Prog<Seq<char>> {
    bind(version_op(), |version: GetVersionReturnsView| done(version.user_agent))
}

/// Waits for the next lifecycle event and yields whether the wait for the event of the
/// given name is over: the event has come, or none will come any more.
pub open spec fn lifecycle_op(event_name: Seq<char>) -> Prog<bool> {
    bind(
        ask::<Option<String>>(RequestView::LifecycleEvent),
        |name: Option<Seq<char>>| done(name is None || name == Some(event_name)),
    )
}

/// Yields the first element of the document that a CSS selector matches.
pub open spec fn find_element_op(selector: Seq<char>) -> Prog<ElementView> {
    bind(
        document_op(),
        |root: NodeView|
            bind(
                query_selector_op(selector, root.node_id),
                |node_id: NodeId| new_op(node_id),
            ),
    )
}

/// Yields all elements of the document that a CSS selector matches.
pub open spec fn find_elements_op(selector: Seq<char>) -> Prog<Seq<ElementView>> {
    bind(
        document_op(),
        |root: NodeView|
            bind(
                query_selector_all_op(selector, root.node_id),
                |node_ids: Seq<NodeId>| from_nodes_op(node_ids),
            ),
    )
}

/// Makes an element of the first node that was found. There has to be one.
pub open spec fn first_found_op(node_ids: Seq<NodeId>) -> Prog<ElementView> {
    if node_ids.len() == 0 {
        Prog::Abort
    } else {
        new_op(node_ids[0])
    }
}

/// Yields the first element of the document that an XPath matches. There has to be one.
pub open spec fn find_xpath_op(selector: Seq<char>) -> Prog<ElementView> {
    bind(
        document_op(),
        |root: NodeView|
            bind(search_op(selector), |node_ids: Seq<NodeId>| first_found_op(node_ids)),
    )
}

/// Makes an element of the first node that was found, where one was.
pub open spec fn awaited_op(node_ids: Seq<NodeId>) -> Prog<ElementView> {
    if node_ids.len() == 0 {
        fail(ErrorView::NotFound)
    } else {
        new_op(node_ids[0])
    }
}

/// Yields the first element of the document that an XPath matches. It fails where there is
/// none yet.
pub open spec fn await_xpath_op(selector: Seq<char>) -> Prog<ElementView> {
    bind(
        document_op(),
        |root: NodeView|
            bind(search_op(selector), |node_ids: Seq<NodeId>| awaited_op(node_ids)),
    )
}

/// Yields all elements of the document that an XPath matches.
pub open spec fn find_xpaths_op(selector: Seq<char>) -> Prog<Seq<ElementView>> {
    bind(
        document_op(),
        |root: NodeView|
            bind(search_op(selector), |node_ids: Seq<NodeId>| from_nodes_op(node_ids)),
    )
}

/// Scrolls a point of the page into view.
pub open spec fn scroll_point_op(point: Point) -> Prog<()> {
    bind(
        layout_metrics_op(),
        |metrics: GetLayoutMetricsReturnsView|
            scroll_op(Rect { x: point.x, y: point.y, ..metrics.css_content_size }),
    )
}

/// Scrolls a point of the page into view and clicks there.
pub open spec fn click_point_op(point: Point) -> Prog<()> {
    bind(scroll_point_op(point), |u: ()| click_op(point))
}

/// Prints the page as pdf.
pub open spec fn pdf_op(params: PrintToPdfParamsView) -> Prog<Seq<u8>> {
    bind(
        execute::<String>(CommandView::PrintToPdf(params)),
        |data: Seq<char>| decoded(base64_decoded(data)),
    )
}

/// Reloads the page and waits until it is loaded.
pub open spec fn reload_op() -> Prog<()> {
    sequence(seq![RequestView::Command(CommandView::Reload), RequestView::Navigation])
}

/// Makes a function of the page reach the program under a name.
pub open spec fn expose_function_op(name: Seq<char>, function: Seq<char>) -> Prog<()> {
    sequence(
        seq![
            RequestView::Command(CommandView::AddBinding { name }),
            RequestView::Command(
                CommandView::AddScriptToEvaluateOnNewDocument(
                    AddScriptToEvaluateOnNewDocumentParamsView::of(
                        call_expression(function, seq!["exposedFun"@, name]),
                    ),
                ),
            ),
        ],
    )
}

// What is left of an operation while it waits.

/// Ends a navigation.
pub struct Navigated;

impl Next for Navigated {
    type Input = Option<String>;

    type Rest = Ended<()>;

    open spec fn next(self, error_text: Option<Seq<char>>) -> Prog<()> {
        navigated(error_text)
    }
}

impl Start for Navigated {
    fn start(self, error_text: Option<String>) -> (step: Step<Ended<()>, ()>) {
        match error_text {
            Some(text) => Step::Done(Err(CdpError::ChromeMessage(text))),
            None => Step::Done(Ok(())),
        }
    }
}

/// Picks the user agent of the browser.
pub struct ReadUserAgent;

impl Next for ReadUserAgent {
    type Input = GetVersionReturns;

    type Rest = Ended<String>;

    open spec fn next(self, version: GetVersionReturnsView) -> Prog<Seq<char>> {
        done(version.user_agent)
    }
}

impl Start for ReadUserAgent {
    fn start(self, version: GetVersionReturns) -> (step: Step<Ended<String>, String>) {
        Step::Done(Ok(version.user_agent))
    }
}

/// Compares the name of an event with the one that is waited for.
pub struct MatchEvent {
    pub event_name: String,
}

impl Next for MatchEvent {
    type Input = Option<String>;

    type Rest = Ended<bool>;

    open spec fn next(self, name: Option<Seq<char>>) -> Prog<bool> {
        done(name is None || name == Some(self.event_name@))
    }
}

impl Start for MatchEvent {
    fn start(self, name: Option<String>) -> (step: Step<Ended<bool>, bool>) {
        match name {
            Some(name) => Step::Done(Ok(same_text(name.as_str(), self.event_name.as_str()))),
            None => Step::Done(Ok(true)),
        }
    }
}

/// Looks for an element below the root of the document.
pub struct QueryRoot {
    pub selector: String,
}

impl Next for QueryRoot {
    type Input = Node;

    type Rest = Chain<Await<NodeId>, MakeElement>;

    open spec fn next(self, root: NodeView) -> Prog<ElementView> {
        bind(
            query_selector_op(self.selector@, root.node_id),
            |node_id: NodeId| new_op(node_id),
        )
    }
}

impl Start for QueryRoot {
    fn start(self, root: Node) -> (step: Step<Chain<Await<NodeId>, MakeElement>, Element>) {
        broadcast use same_is_equal;

        chain(
            executing::<NodeId>(
                Command::QuerySelector { node_id: root.node_id, selector: self.selector },
            ),
            MakeElement,
        )
    }
}

/// Looks for all elements below the root of the document.
pub struct QueryRootAll {
    pub selector: String,
}

impl Next for QueryRootAll {
    type Input = Node;

    type Rest = Chain<Await<Vec<NodeId>>, MakeElements>;

    open spec fn next(self, root: NodeView) -> Prog<Seq<ElementView>> {
        bind(
            query_selector_all_op(self.selector@, root.node_id),
            |node_ids: Seq<NodeId>| from_nodes_op(node_ids),
        )
    }
}

impl Start for QueryRootAll {
    fn start(self, root: Node) -> (step: Step<
        Chain<Await<Vec<NodeId>>, MakeElements>,
        Vec<Element>,
    >) {
        broadcast use same_is_equal;

        chain(
            executing::<Vec<NodeId>>(
                Command::QuerySelectorAll { node_id: root.node_id, selector: self.selector },
            ),
            MakeElements,
        )
    }
}

/// Makes an element of the first node that was found.
pub struct MakeFirst;

impl Next for MakeFirst {
    type Input = Vec<NodeId>;

    type Rest = NewElement;

    open spec fn next(self, node_ids: Seq<NodeId>) -> Prog<ElementView> {
        first_found_op(node_ids)
    }
}

impl Start for MakeFirst {
    fn start(self, node_ids: Vec<NodeId>) -> (step: Step<NewElement, Element>) {
        assert(node_ids.deep_view() =~= node_ids@);
        if node_ids.len() == 0 {
            Step::Abort
        } else {
            Element::new(node_ids[0])
        }
    }
}

/// Looks for an element by an XPath, once the document is there.
pub struct SearchFirst {
    pub selector: String,
}

impl Next for SearchFirst {
    type Input = Node;

    type Rest = Chain<Search, MakeFirst>;

    open spec fn next(self, root: NodeView) -> Prog<ElementView> {
        bind(search_op(self.selector@), |node_ids: Seq<NodeId>| first_found_op(node_ids))
    }
}

impl Start for SearchFirst {
    fn start(self, root: Node) -> (step: Step<Chain<Search, MakeFirst>, Element>) {
        broadcast use same_is_equal;

        chain(search(self.selector), MakeFirst)
    }
}

/// Makes an element of the first node that was found, where one was.
pub struct MakeAwaited;

impl Next for MakeAwaited {
    type Input = Vec<NodeId>;

    type Rest = NewElement;

    open spec fn next(self, node_ids: Seq<NodeId>) -> Prog<ElementView> {
        awaited_op(node_ids)
    }
}

impl Start for MakeAwaited {
    fn start(self, node_ids: Vec<NodeId>) -> (step: Step<NewElement, Element>) {
        assert(node_ids.deep_view() =~= node_ids@);
        if node_ids.len() == 0 {
            Step::Done(Err(CdpError::NotFound))
        } else {
            Element::new(node_ids[0])
        }
    }
}

/// Looks for an element by an XPath that may not match yet, once the document is there.
pub struct SearchAwaited {
    pub selector: String,
}

impl Next for SearchAwaited {
    type Input = Node;

    type Rest = Chain<Search, MakeAwaited>;

    open spec fn next(self, root: NodeView) -> Prog<ElementView> {
        bind(search_op(self.selector@), |node_ids: Seq<NodeId>| awaited_op(node_ids))
    }
}

impl Start for SearchAwaited {
    fn start(self, root: Node) -> (step: Step<Chain<Search, MakeAwaited>, Element>) {
        broadcast use same_is_equal;

        chain(search(self.selector), MakeAwaited)
    }
}

/// Looks for all elements by an XPath, once the document is there.
pub struct SearchAll {
    pub selector: String,
}

impl Next for SearchAll {
    type Input = Node;

    type Rest = Chain<Search, MakeElements>;

    open spec fn next(self, root: NodeView) -> Prog<Seq<ElementView>> {
        bind(search_op(self.selector@), |node_ids: Seq<NodeId>| from_nodes_op(node_ids))
    }
}

impl Start for SearchAll {
    fn start(self, root: Node) -> (step: Step<Chain<Search, MakeElements>, Vec<Element>>) {
        broadcast use same_is_equal;

        chain(search(self.selector), MakeElements)
    }
}

/// Scrolls to a point, once the size of the page is known.
pub struct ScrollToPoint {
    pub point: Point,
}

impl Next for ScrollToPoint {
    type Input = GetLayoutMetricsReturns;

    type Rest = Chain<Await<Node>, ScrollTo>;

    open spec fn next(self, metrics: GetLayoutMetricsReturnsView) -> Prog<()> {
        scroll_op(Rect { x: self.point.x, y: self.point.y, ..metrics.css_content_size })
    }
}

impl Start for ScrollToPoint {
    fn start(self, metrics: GetLayoutMetricsReturns) -> (step: Step<
        Chain<Await<Node>, ScrollTo>,
        (),
    >) {
        let mut rect = metrics.css_content_size;
        rect.x = self.point.x;
        rect.y = self.point.y;
        scroll_to(rect)
    }
}

/// A point that is scrolled into view.
pub type ScrollPoint = Chain<Await<GetLayoutMetricsReturns>, ScrollToPoint>;

/// Clicks at a point that is in view.
pub struct ClickPoint {
    pub point: Point,
}

impl Next for ClickPoint {
    type Input = ();

    type Rest = Sequence;

    open spec fn next(self, u: ()) -> Prog<()> {
        click_op(self.point)
    }
}

impl Start for ClickPoint {
    fn start(self, u: ()) -> (step: Step<Sequence, ()>) {
        click_at(self.point)
    }
}

/// What becomes of a wait for an element.
#[derive(Debug)]
pub enum WaitAction {
    /// The element is there.
    Found(Element),
    /// The wait is given up.
    Failed(CdpError),
    /// Look again.
    LookAgain,
}

/// What happens during a wait for an element.
#[derive(Debug)]
pub enum WaitEvent {
    /// An attempt to find it has ended.
    Attempt(Result<Element, CdpError>),
    /// The time is up. The text says so.
    Expired(String),
}

/// Goes on with a wait for an element: it lasts until an attempt succeeds or the time is
/// up.
pub fn continue_wait(event: WaitEvent) -> (action: WaitAction)
    ensures
        match event {
            WaitEvent::Attempt(Ok(element)) => action == WaitAction::Found(element),
            WaitEvent::Attempt(Err(_)) => action is LookAgain,
            WaitEvent::Expired(text) => action matches WaitAction::Failed(error)
                && error.deep_view() == ErrorView::ChromeMessage(text@),
        },
{
    match event {
        WaitEvent::Attempt(Ok(element)) => WaitAction::Found(element),
        WaitEvent::Attempt(Err(_)) => WaitAction::LookAgain,
        WaitEvent::Expired(text) => WaitAction::Failed(CdpError::msg(text.as_str())),
    }
}

impl Page {
    /// Addresses a command to the session of the page.
    pub fn execute(&self, cmd: Command) -> (message: CommandMessage)
        ensures
            message.command == cmd,
            message.session_id == Some(self.inner.session_id),
    {
        self.inner.execute(cmd)
    }

    /// Addresses a command to the session of the page.
    pub fn command_future(&self, cmd: Command) -> (message: CommandMessage)
        ensures
            message.command == cmd,
            message.session_id == Some(self.inner.session_id),
    {
        self.inner.execute(cmd)
    }

    /// Sends a command that makes the page navigate, waits until the page is loaded and
    /// yields the request of the navigation.
    pub fn http_future(&self, cmd: Command) -> (step: Step<Chain<Await<()>, Navigate>, Json>)
        ensures
            follows(step, http_op(cmd.deep_view())),
    {
        self.inner.http_future(cmd)
    }

    /// Makes a function known to the page under a name: adds the binding, and has each
    /// new document call the function with `exposedFun` and the name.
    pub fn expose_function(&self, name: String, function: &str) -> (step: Step<Sequence, ()>)
        ensures
            follows(step, expose_function_op(name@, function@)),
    {
        let arguments: Vec<String> = vec!["exposedFun".to_owned(), name.clone()];
        assert(arguments.deep_view() =~= seq!["exposedFun"@, name@]);
        let expression = evaluation_string(function, &arguments);
        let params = AddScriptToEvaluateOnNewDocumentParams::new(expression);
        let requests: Vec<Request> = vec![
            Request::Command(Command::AddBinding { name }),
            Request::Command(Command::AddScriptToEvaluateOnNewDocument(params)),
        ];
        assert(requests.deep_view() =~= seq![
            RequestView::Command(CommandView::AddBinding { name: name@ }),
            RequestView::Command(CommandView::AddScriptToEvaluateOnNewDocument(params.deep_view())),
        ]);
        in_sequence(requests)
    }

    /// Waits until the navigation that is under way has finished, and yields its request.
    pub fn wait_for_navigation_response(&self) -> (step: Step<Await<Json>, Json>)
        ensures
            follows(step, ask::<Json>(RequestView::Navigation)),
    {
        self.inner.wait_for_navigation()
    }

    /// Waits until the navigation that is under way has finished.
    pub fn wait_for_navigation(&self) -> (step: Step<Await<()>, ()>)
        ensures
            follows(step, ask::<()>(RequestView::Navigation)),
    {
        asking(Request::Navigation)
    }

    /// One round of the wait for a lifecycle event. It yields whether the wait is over;
    /// where it is not, the next round follows.
    pub fn wait_for_lifecycle_event(&self, event_name: &str) -> (step: Step<
        Chain<Await<Option<String>>, MatchEvent>,
        bool,
    >)
        ensures
            follows(step, lifecycle_op(event_name@)),
    {
        broadcast use same_is_equal;

        chain(
            asking::<Option<String>>(Request::LifecycleEvent),
            MatchEvent { event_name: event_name.to_owned() },
        )
    }

    /// Navigates to a URL. It fails where the browser says why it could not.
    pub fn goto(&self, params: NavigateParams) -> (step: Step<
        Chain<Await<Option<String>>, Navigated>,
        (),
    >)
        ensures
            follows(step, goto_op(params.deep_view())),
    {
        broadcast use same_is_equal;

        chain(executing::<Option<String>>(Command::Navigate(params)), Navigated)
    }

    /// The target of the page.
    pub fn target_id(&self) -> (id: &TargetId)
        ensures
            *id == self.inner.target_id,
    {
        self.inner.target_id()
    }

    /// The session of the page.
    pub fn session_id(&self) -> (id: &SessionId)
        ensures
            *id == self.inner.session_id,
    {
        self.inner.session_id()
    }

    /// Yields the name of a frame.
    pub fn frame_name(&self, frame_id: FrameId) -> (step: Step<
        Await<Option<String>>,
        Option<String>,
    >)
        ensures
            follows(
                step,
                ask::<Option<String>>(RequestView::Name { frame_id: frame_id.deep_view() }),
            ),
    {
        asking(Request::Name { frame_id })
    }

    /// Yields the URL of the page.
    pub fn url(&self) -> (step: Step<Await<Option<String>>, Option<String>>)
        ensures
            follows(step, url_op(None)),
    {
        asking(Request::Url { frame_id: None })
    }

    /// Yields the URL of a frame.
    pub fn frame_url(&self, frame_id: FrameId) -> (step: Step<
        Await<Option<String>>,
        Option<String>,
    >)
        ensures
            follows(step, url_op(Some(frame_id.deep_view()))),
    {
        asking(Request::Url { frame_id: Some(frame_id) })
    }

    /// Yields the parent of a frame.
    pub fn frame_parent(&self, frame_id: FrameId) -> (step: Step<
        Await<Option<FrameId>>,
        Option<FrameId>,
    >)
        ensures
            follows(
                step,
                ask::<Option<FrameId>>(RequestView::Parent { frame_id: frame_id.deep_view() }),
            ),
    {
        asking(Request::Parent { frame_id })
    }

    /// Yields the main frame of the page.
    pub fn mainframe(&self) -> (step: Step<Await<Option<FrameId>>, Option<FrameId>>)
        ensures
            follows(step, ask::<Option<FrameId>>(RequestView::MainFrame)),
    {
        asking(Request::MainFrame)
    }

    /// Yields the frames of the page.
    pub fn frames(&self) -> (step: Step<Await<Vec<FrameId>>, Vec<FrameId>>)
        ensures
            follows(step, ask::<Vec<FrameId>>(RequestView::AllFrames)),
    {
        asking(Request::AllFrames)
    }

    /// Overrides the user agent.
    pub fn set_user_agent(&self, params: SetUserAgentOverrideParams) -> (step: Step<Await<()>, ()>)
        ensures
            follows(
                step,
                execute::<()>(CommandView::SetUserAgentOverride(params.deep_view())),
            ),
    {
        executing(Command::SetUserAgentOverride(params))
    }

    /// Yields the user agent of the browser.
    pub fn user_agent(&self) -> (step: Step<
        Chain<Await<GetVersionReturns>, ReadUserAgent>,
        String,
    >)
        ensures
            follows(step, user_agent_op()),
    {
        broadcast use same_is_equal;

        chain(self.inner.version(), ReadUserAgent)
    }

    /// Yields the root of the document, with all of its subtree.
    pub fn get_document_node(&self) -> (step: Step<Await<Node>, Node>)
        ensures
            follows(step, document_op()),
    {
        document()
    }

    /// Yields the first element of the document that a CSS selector matches.
    pub fn find_element(&self, selector: String) -> (step: Step<
        Chain<Await<Node>, QueryRoot>,
        Element,
    >)
        ensures
            follows(step, find_element_op(selector@)),
    {
        broadcast use same_is_equal;

        chain(document(), QueryRoot { selector })
    }

    /// Yields all elements of the document that a CSS selector matches.
    pub fn find_elements(&self, selector: String) -> (step: Step<
        Chain<Await<Node>, QueryRootAll>,
        Vec<Element>,
    >)
        ensures
            follows(step, find_elements_op(selector@)),
    {
        broadcast use same_is_equal;

        chain(document(), QueryRootAll { selector })
    }

    /// One attempt of the wait for an element that a CSS selector matches. What comes of
    /// it goes to [`continue_wait`].
    pub fn wait_for_element(&self, selector: &String) -> (step: Step<
        Chain<Await<Node>, QueryRoot>,
        Element,
    >)
        ensures
            follows(step, find_element_op(selector@)),
    {
        self.find_element(selector.clone())
    }

    /// Yields the first element of the document that an XPath matches.
    pub fn find_xpath(&self, selector: String) -> (step: Step<
        Chain<Await<Node>, SearchFirst>,
        Element,
    >)
        ensures
            follows(step, find_xpath_op(selector@)),
    {
        broadcast use same_is_equal;

        chain(document(), SearchFirst { selector })
    }

    /// Yields all elements of the document that an XPath matches.
    pub fn find_xpaths(&self, selector: String) -> (step: Step<
        Chain<Await<Node>, SearchAll>,
        Vec<Element>,
    >)
        ensures
            follows(step, find_xpaths_op(selector@)),
    {
        broadcast use same_is_equal;

        chain(document(), SearchAll { selector })
    }

    /// One attempt of the wait for an element that an XPath matches. It fails where nothing
    /// matches yet. What comes of it goes to [`continue_wait`].
    pub fn wait_for_xpath(&self, selector: &String) -> (step: Step<
        Chain<Await<Node>, SearchAwaited>,
        Element,
    >)
        ensures
            follows(step, await_xpath_op(selector@)),
    {
        broadcast use same_is_equal;

        chain(document(), SearchAwaited { selector: selector.clone() })
    }

    /// Yields a node, with its subtree to a depth of 100.
    pub fn describe_node(&self, node_id: NodeId) -> (step: Step<Await<Node>, Node>)
        ensures
            follows(
                step,
                execute::<Node>(
                    CommandView::DescribeNode {
                        node_id: Some(node_id),
                        backend_node_id: None,
                        depth: Some(100),
                    },
                ),
            ),
    {
        executing(
            Command::DescribeNode {
                node_id: Some(node_id),
                backend_node_id: None,
                depth: Some(100),
            },
        )
    }

    /// Closes the page, after its `beforeunload` hooks, if any.
    pub fn close(self) -> (step: Step<Await<()>, ()>)
        ensures
            follows(step, execute::<()>(CommandView::ClosePage)),
    {
        executing(Command::ClosePage)
    }

    /// Scrolls a point into view and clicks there, once, with the left button.
    pub fn click(&self, point: Point) -> (step: Step<Chain<ScrollPoint, ClickPoint>, ()>)
        ensures
            follows(step, click_point_op(point)),
    {
        broadcast use same_is_equal;

        chain(self.scroll(point), ClickPoint { point })
    }

    /// Scrolls a point into view.
    pub fn scroll(&self, point: Point) -> (step: Step<ScrollPoint, ()>)
        ensures
            follows(step, scroll_point_op(point)),
    {
        broadcast use same_is_equal;

        chain(self.inner.layout_metrics(), ScrollToPoint { point })
    }

    /// Moves the mouse to a point.
    pub fn move_mouse(&self, point: Point) -> (step: Step<Await<()>, ()>)
        ensures
            follows(step, move_mouse_op(point)),
    {
        self.inner.move_mouse(point)
    }

    /// Takes a screenshot of the page.
    pub fn screenshot(&self, screenshot_params: ScreenshotParams) -> (step: Step<
        ShootPage,
        Vec<u8>,
    >)
        ensures
            follows(
                step,
                page_screenshot_op(self.inner.target_id.deep_view(), screenshot_params),
            ),
    {
        page_screenshot(&self.inner, screenshot_params)
    }

    /// Takes a screenshot of the page and writes it to a file.
    pub fn save_screenshot(&self, params: ScreenshotParams, output: String) -> (step: Step<
        Chain<ShootPage, Save>,
        Vec<u8>,
    >)
        ensures
            follows(
                step,
                bind(
                    page_screenshot_op(self.inner.target_id.deep_view(), params),
                    |image: Seq<u8>| save_op(output@, image),
                ),
            ),
    {
        broadcast use same_is_equal;

        chain(self.screenshot(params), Save { path: output })
    }

    /// Prints the page as pdf.
    pub fn pdf(&self, params: PrintToPdfParams) -> (step: Step<
        Chain<Await<String>, Decode>,
        Vec<u8>,
    >)
        ensures
            follows(step, pdf_op(params.deep_view())),
    {
        broadcast use same_is_equal;

        chain(executing::<String>(Command::PrintToPdf(params)), Decode)
    }

    /// Prints the page as pdf and writes it to a file.
    pub fn save_pdf(&self, opts: PrintToPdfParams, output: String) -> (step: Step<
        Chain<Chain<Await<String>, Decode>, Save>,
        Vec<u8>,
    >)
        ensures
            follows(
                step,
                bind(pdf_op(opts.deep_view()), |pdf: Seq<u8>| save_op(output@, pdf)),
            ),
    {
        broadcast use same_is_equal;

        chain(self.pdf(opts), Save { path: output })
    }

    /// Brings the page to the front.
    pub fn bring_to_front(&self) -> (step: Step<Await<()>, ()>)
        ensures
            follows(step, execute::<()>(CommandView::BringToFront)),
    {
        executing(Command::BringToFront)
    }

    /// Emulates media features for CSS media queries.
    pub fn emulate_media_features(&self, features: Vec<MediaFeature>) -> (step: Step<Await<()>, ()>)
        ensures
            follows(
                step,
                execute::<()>(CommandView::SetEmulatedMedia { features: features.deep_view() }),
            ),
    {
        executing(Command::SetEmulatedMedia { features })
    }

    /// Overrides the time zone.
    pub fn emulate_timezone(&self, timezone_id: String) -> (step: Step<Await<()>, ()>)
        ensures
            follows(
                step,
                execute::<()>(CommandView::SetTimezoneOverride { timezone_id: timezone_id@ }),
            ),
    {
        executing(Command::SetTimezoneOverride { timezone_id })
    }

    /// Overrides the locale, or no longer does.
    pub fn emulate_locale(&self, locale: Option<String>) -> (step: Step<Await<()>, ()>)
        ensures
            follows(
                step,
                execute::<()>(CommandView::SetLocaleOverride { locale: locale.deep_view() }),
            ),
    {
        executing(Command::SetLocaleOverride { locale })
    }

    /// Overrides the geolocation. Where a parameter is left out, the position is
    /// unavailable.
    pub fn emulate_geolocation(&self, geolocation: SetGeolocationOverrideParams) -> (step: Step<
        Await<()>,
        (),
    >)
        ensures
            follows(step, execute::<()>(CommandView::SetGeolocationOverride(geolocation))),
    {
        executing(Command::SetGeolocationOverride(geolocation))
    }

    /// Reloads the page and waits until it is loaded. To ignore the cache, send `Page.reload`
    /// with its parameters as [`Command::Other`] and wait for the navigation.
    pub fn reload(&self) -> (step: Step<Sequence, ()>)
        ensures
            follows(step, reload_op()),
    {
        let requests: Vec<Request> = vec![Request::Command(Command::Reload), Request::Navigation];
        assert(requests.deep_view() =~= seq![
            RequestView::Command(CommandView::Reload),
            RequestView::Navigation,
        ]);
        in_sequence(requests)
    }

    /// Switches the reports of the log on.
    pub fn enable_log(&self) -> (step: Step<Await<()>, ()>)
        ensures
            follows(step, execute::<()>(CommandView::Enable(Domain::Log))),
    {
        executing(Command::Enable(Domain::Log))
    }

    /// Switches the reports of the log off.
    pub fn disable_log(&self) -> (step: Step<Await<()>, ()>)
        ensures
            follows(step, execute::<()>(CommandView::Disable(Domain::Log))),
    {
        executing(Command::Disable(Domain::Log))
    }

    /// Switches the reports of the runtime on.
    pub fn enable_runtime(&self) -> (step: Step<Await<()>, ()>)
        ensures
            follows(step, execute::<()>(CommandView::Enable(Domain::Runtime))),
    {
        executing(Command::Enable(Domain::Runtime))
    }

    /// Switches the reports of the runtime off.
    pub fn disable_runtime(&self) -> (step: Step<Await<()>, ()>)
        ensures
            follows(step, execute::<()>(CommandView::Disable(Domain::Runtime))),
    {
        executing(Command::Disable(Domain::Runtime))
    }

    /// Switches the reports of the debugger on.
    pub fn enable_debugger(&self) -> (step: Step<Await<()>, ()>)
        ensures
            follows(step, execute::<()>(CommandView::Enable(Domain::Debugger))),
    {
        executing(Command::Enable(Domain::Debugger))
    }

    /// Switches the reports of the debugger off.
    pub fn disable_debugger(&self) -> (step: Step<Await<()>, ()>)
        ensures
            follows(step, execute::<()>(CommandView::Disable(Domain::Debugger))),
    {
        executing(Command::Disable(Domain::Debugger))
    }

    /// Switches the reports of the DOM on.
    pub fn enable_dom(&self) -> (step: Step<Await<()>, ()>)
        ensures
            follows(step, execute::<()>(CommandView::Enable(Domain::Dom))),
    {
        executing(Command::Enable(Domain::Dom))
    }

    /// Switches the reports of the DOM off.
    pub fn disable_dom(&self) -> (step: Step<Await<()>, ()>)
        ensures
            follows(step, execute::<()>(CommandView::Disable(Domain::Dom))),
    {
        executing(Command::Disable(Domain::Dom))
    }

    /// Switches the reports of CSS on.
    pub fn enable_css(&self) -> (step: Step<Await<()>, ()>)
        ensures
            follows(step, execute::<()>(CommandView::Enable(Domain::Css))),
    {
        executing(Command::Enable(Domain::Css))
    }

    /// Switches the reports of CSS off.
    pub fn disable_css(&self) -> (step: Step<Await<()>, ()>)
        ensures
            follows(step, execute::<()>(CommandView::Disable(Domain::Css))),
    {
        executing(Command::Disable(Domain::Css))
    }

    /// Switches the reports of the network on.
    pub fn enable_network(&self) -> (step: Step<Await<()>, ()>)
        ensures
            follows(step, execute::<()>(CommandView::Enable(Domain::Network))),
    {
        executing(Command::Enable(Domain::Network))
    }

    /// Switches the reports of the network off.
    pub fn disable_network(&self) -> (step: Step<Await<()>, ()>)
        ensures
            follows(step, execute::<()>(CommandView::Disable(Domain::Network))),
    {
        executing(Command::Disable(Domain::Network))
    }

    /// Activates (focuses) the page.
    pub fn activate(&self) -> (step: Step<Await<()>, ()>)
        ensures
            follows(step, activate_op(self.inner.target_id.deep_view())),
    {
        self.inner.activate()
    }

    /// Yields run-time metrics.
    pub fn metrics(&self) -> (step: Step<Await<Json>, Json>)
        ensures
            follows(step, execute::<Json>(CommandView::GetMetrics)),
    {
        executing(Command::GetMetrics)
    }

    /// Yields metrics of the layout of the page.
    pub fn layout_metrics(&self) -> (step: Step<
        Await<GetLayoutMetricsReturns>,
        GetLayoutMetricsReturns,
    >)
        ensures
            follows(step, layout_metrics_op()),
    {
        self.inner.layout_metrics()
    }

    /// Yields the tree of frames of the page.
    pub fn get_frame_tree(&self) -> (step: Step<Await<GetFrameTreeReturns>, GetFrameTreeReturns>)
        ensures
            follows(step, frame_tree_op()),
    {
        self.inner.frame_tree()
    }

    /// Evaluates a script strictly as an expression.
    pub fn evaluate_expression(&self, evaluate: EvaluateParams) -> (step: Step<
        EvaluateExpression,
        EvaluationResult,
    >)
        ensures
            follows(step, evaluate_expression_op(evaluate.deep_view())),
    {
        self.inner.evaluate_expression(evaluate)
    }

    /// Evaluates an expression or calls a function. An expression with the option
    /// `eval_as_function_fallback` that turns out to be a function is submitted again as a
    /// function.
    pub fn evaluate(&self, evaluate: Evaluation) -> (step: Step<Evaluate, EvaluationResult>)
        ensures
            follows(step, evaluate_op(evaluate.deep_view())),
    {
        evaluate_script(evaluate)
    }

    /// Calls a function.
    pub fn evaluate_function(&self, evaluate: CallFunctionOnParams) -> (step: Step<
        EvaluateFunction,
        EvaluationResult,
    >)
        ensures
            follows(step, evaluate_function_op(evaluate.deep_view())),
    {
        self.inner.evaluate_function(evaluate)
    }

    /// Yields the execution context of the page.
    pub fn execution_context(&self) -> (step: Step<
        Await<Option<ExecutionContextId>>,
        Option<ExecutionContextId>,
    >)
        ensures
            follows(step, context_op(None, DomWorldKind::Main)),
    {
        self.inner.execution_context()
    }

    /// Yields the execution context of the page that is set apart for work on the DOM.
    pub fn secondary_execution_context(&self) -> (step: Step<
        Await<Option<ExecutionContextId>>,
        Option<ExecutionContextId>,
    >)
        ensures
            follows(step, context_op(None, DomWorldKind::Secondary)),
    {
        self.inner.secondary_execution_context()
    }

    /// Yields the execution context of a frame.
    pub fn frame_execution_context(&self, frame_id: FrameId) -> (step: Step<
        Await<Option<ExecutionContextId>>,
        Option<ExecutionContextId>,
    >)
        ensures
            follows(step, context_op(Some(frame_id.deep_view()), DomWorldKind::Main)),
    {
        self.inner.frame_execution_context(frame_id)
    }

    /// Yields the execution context of a frame that is set apart for work on the DOM.
    pub fn frame_secondary_execution_context(&self, frame_id: FrameId) -> (step: Step<
        Await<Option<ExecutionContextId>>,
        Option<ExecutionContextId>,
    >)
        ensures
            follows(step, context_op(Some(frame_id.deep_view()), DomWorldKind::Secondary)),
    {
        self.inner.frame_secondary_execution_context(frame_id)
    }

    /// Evaluates a script in every frame that is created, before the scripts of the frame.
    pub fn evaluate_on_new_document(
        &self,
        script: AddScriptToEvaluateOnNewDocumentParams,
    ) -> (step: Step<Await<ScriptIdentifier>, ScriptIdentifier>)
        ensures
            follows(
                step,
                execute::<ScriptIdentifier>(
                    CommandView::AddScriptToEvaluateOnNewDocument(script.deep_view()),
                ),
            ),
    {
        executing(Command::AddScriptToEvaluateOnNewDocument(script))
    }

    /// Yields the source of a script. The debugger has to be enabled.
    pub fn get_script_source(&self, script_id: String) -> (step: Step<Await<String>, String>)
        ensures
            follows(
                step,
                execute::<String>(CommandView::GetScriptSource { script_id: script_id@ }),
            ),
    {
        executing(Command::GetScriptSource { script_id: ScriptId(script_id) })
    }
}

// What holds whatever the browser answers.

/// A click at a point scrolls it into view first.
pub proof fn click_scrolls_first(point: Point)
    ensures
        asks_first(
            click_point_op(point),
            |request: RequestView| scrolls(request),
            |request: RequestView| points(request),
        ),
{
    let first = |request: RequestView| scrolls(request);
    let second = |request: RequestView| points(request);
    let click = |u: ()| click_op(point);
    let scroll = |metrics: GetLayoutMetricsReturnsView|
        scroll_op(Rect { x: point.x, y: point.y, ..metrics.css_content_size });
    let scroll_and_click = |metrics: GetLayoutMetricsReturnsView| bind(scroll(metrics), click);
    reveal_with_fuel(only_asks, 2);
    assert forall|metrics: GetLayoutMetricsReturnsView|
        asks_first(#[trigger] scroll_and_click(metrics), first, second) by {
        let rect = Rect { x: point.x, y: point.y, ..metrics.css_content_size };
        let to_rect = |root: NodeView|
            execute::<()>(
                CommandView::ScrollIntoViewIfNeeded {
                    backend_node_id: root.backend_node_id,
                    rect: Some(rect),
                },
            );
        let to_rect_and_click = |root: NodeView| bind(to_rect(root), click);
        bind_is_associative(document_op(), to_rect, click);
        assert forall|root: NodeView|
            asks_first(#[trigger] to_rect_and_click(root), first, second) by {
        }
        bind_asks_first(document_op(), to_rect_and_click, first, second);
    }
    bind_is_associative(layout_metrics_op(), scroll, click);
    bind_asks_first(layout_metrics_op(), scroll_and_click, first, second);
}

} // verus!
