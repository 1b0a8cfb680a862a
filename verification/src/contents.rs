//! What a page holds: its document, its style and its storage.
use vstd::prelude::*;

use crate::cdp::command::{Command, CommandView, Domain};
use crate::cdp::css::{SourceRange, StyleSheetId};
use crate::cdp::dom::{Node, NodeView};
use crate::cdp::page::{FrameId, GetFrameTreeReturns, GetFrameTreeReturnsView};
use crate::cdp::runtime::{
    CallArgument, CallArgumentView, CallFunctionOnParams, CallFunctionOnParamsView,
    ExecutionContextId, RemoteObjectView,
};
use crate::element::unless_empty;
use crate::error::{CdpError, ErrorView};
use crate::evaluate::{evaluate_text, evaluate_text_op, run, run_op, Discard, Evaluate};
use crate::flow::{
    ask, asking, bind, chain, execute, executing, follows, result_view, same_is_equal, Await, Chain,
    Ended, Next, Prog, Start, Step,
};
use crate::handler::page::{
    context_for_world, context_op, document, document_op, evaluate_as_function,
    evaluate_function_op, frame_tree_op, EvaluateFunction,
};
use crate::js::{bytes_result, string_result, EvaluationResult};
use crate::json::{json_quoted, json_string, quoted, Json};
use crate::laws::{asks_first, bind_asks_first, bind_yields, only_asks, yields};
use crate::page::Page;
use crate::protocol::{DomWorldKind, Request, RequestView};
use crate::sequence::{in_sequence, sequence, Sequence};

verus! {

/// The function that writes a document.
pub const WRITE_DOCUMENT: &'static str = "(html) => {
            document.open();
            document.write(html);
            document.close();
        }";

/// The expression that is the HTML of the document.
pub const READ_DOCUMENT: &'static str = "{
          let retVal = '';
          if (document.doctype) {
            retVal = new XMLSerializer().serializeToString(document.doctype);
          }
          if (document.documentElement) {
            retVal += document.documentElement.outerHTML;
          }
          retVal
      }
      ";

/// The expression that is the HTML of the document, where it is read as bytes.
pub const READ_DOCUMENT_BYTES: &'static str = "{
            let retVal = '';
            if (document.doctype) {
            retVal = new XMLSerializer().serializeToString(document.doctype);
            }
            if (document.documentElement) {
            retVal += document.documentElement.outerHTML;
            }
            retVal
        }
        ";

/// The expression that is the title of the document.
pub const TITLE: &'static str = "document.title";

/// The storage that outlasts the session.
pub const LOCAL_STORAGE: &'static str = "localStorage";

/// The storage of the session.
pub const SESSION_STORAGE: &'static str = "sessionStorage";

/// The place where a rule is added to a new style sheet.
pub open spec fn start_of_sheet() -> SourceRange {
    SourceRange { start_line: 0, start_column: 0, end_line: 0, end_column: 0 }
}

// What each operation does.

/// The title that a text is, or nothing where it is empty.
pub open spec fn title_of(text: Result<Seq<char>, ErrorView>) -> Result<
    Option<Seq<char>>,
    ErrorView,
> {
    match text {
        Ok(title) => Ok(unless_empty(title)),
        Err(error) => Err(error),
    }
}

/// Yields the title of the document, or nothing where it is empty.
pub open spec fn title_op() -> Prog<Option<Seq<char>>> {
    bind(
        evaluate_text_op(TITLE@),
        |object: RemoteObjectView| Prog::Done(title_of(string_result(object.value))),
    )
}

/// Sets the document of a frame, or where there is none, of the frame without a name.
pub open spec fn set_content_of_op(frame_id: Option<Seq<char>>, html: Seq<char>) -> Prog<()> {
    execute::<()>(
        CommandView::SetDocumentContent {
            frame_id: match frame_id {
                Some(id) => id,
                None => seq![],
            },
            html,
        },
    )
}

/// Sets the document of the main frame.
pub open spec fn set_content_op(html: Seq<char>) -> Prog<()> {
    bind(
        ask::<Option<FrameId>>(RequestView::MainFrame),
        |frame_id: Option<Seq<char>>| set_content_of_op(frame_id, html),
    )
}

/// The call that writes a document, given as JSON.
pub open spec fn write_call(argument: Seq<char>) -> CallFunctionOnParamsView {
    CallFunctionOnParamsView {
        arguments: Some(
            seq![
                CallArgumentView {
                    value: Some(argument),
                    unserializable_value: None,
                    object_id: None,
                },
            ],
        ),
        ..CallFunctionOnParamsView::of(WRITE_DOCUMENT@)
    }
}

/// Makes a call in a given context, and waits until the page is loaded.
pub open spec fn call_and_load_op(
    call: CallFunctionOnParamsView,
    context_id: Option<ExecutionContextId>,
) -> Prog<()> {
    bind(
        evaluate_function_op(
            CallFunctionOnParamsView { execution_context_id: context_id, ..call },
        ),
        |object: RemoteObjectView| ask::<()>(RequestView::Navigation),
    )
}

/// Sets the document by a script, in the world that is set apart for work on the DOM, and
/// waits until the page is loaded.
pub open spec fn set_content_js_op(html: Seq<char>) -> Prog<()> {
    bind(
        context_op(None, DomWorldKind::Secondary),
        |context_id: Option<ExecutionContextId>|
            call_and_load_op(write_call(json_quoted(html)), context_id),
    )
}

/// Yields the HTML of the document.
pub open spec fn get_content_op() -> Prog<Seq<char>> {
    bind(
        document_op(),
        |root: NodeView|
            execute::<String>(
                CommandView::GetOuterHtml {
                    node_id: Some(root.node_id),
                    backend_node_id: Some(root.backend_node_id),
                    object_id: None,
                },
            ),
    )
}

/// Yields the HTML of the document, read by a script.
pub open spec fn get_content_js_op() -> Prog<Seq<char>> {
    bind(
        evaluate_text_op(READ_DOCUMENT@),
        |object: RemoteObjectView| Prog::Done(string_result(object.value)),
    )
}

/// Yields the HTML of the document as bytes, read by a script.
pub open spec fn content_bytes_op() -> Prog<Seq<u8>> {
    bind(
        evaluate_text_op(READ_DOCUMENT_BYTES@),
        |object: RemoteObjectView| Prog::Done(bytes_result(object.value)),
    )
}

/// Adds a rule at the start of a style sheet.
pub open spec fn add_rule_op(style_sheet_id: Seq<char>, rule_text: Seq<char>) -> Prog<()> {
    execute::<()>(CommandView::AddRule { style_sheet_id, location: start_of_sheet(), rule_text })
}

/// Adds a style sheet with one rule to a frame.
pub open spec fn add_style_op(frame_id: Seq<char>, rule_text: Seq<char>) -> Prog<()> {
    bind(
        execute::<StyleSheetId>(CommandView::CreateStyleSheet { frame_id }),
        |style_sheet_id: Seq<char>| add_rule_op(style_sheet_id, rule_text),
    )
}

/// Adds a style sheet with one rule to the main frame.
pub open spec fn add_main_style_op(rule_text: Seq<char>) -> Prog<()> {
    bind(
        frame_tree_op(),
        |tree: GetFrameTreeReturnsView| add_style_op(tree.frame_id, rule_text),
    )
}

/// What has to be switched on for style sheets.
pub open spec fn style_domains() -> Seq<RequestView> {
    seq![
        RequestView::Command(CommandView::Enable(Domain::Dom)),
        RequestView::Command(CommandView::Enable(Domain::Css)),
    ]
}

/// Adds a style sheet to the page.
pub open spec fn set_stylesheet_op(payload: Seq<char>) -> Prog<()> {
    bind(
        document_op(),
        |root: NodeView| bind(sequence(style_domains()), |u: ()| add_main_style_op(payload)),
    )
}

/// The expression that stores an item. Nothing in it is escaped.
pub open spec fn set_item(storage: Seq<char>, key: Seq<char>, value: Seq<char>) -> Seq<char> {
    storage + ".setItem(\""@ + key + "\", \""@ + value + "\")"@
}

/// The expression that reads an item. Nothing in it is escaped.
pub open spec fn get_item(storage: Seq<char>, key: Seq<char>) -> Seq<char> {
    storage + ".getItem(\""@ + key + "\")"@
}

/// The expression that removes an item. Nothing in it is escaped.
pub open spec fn remove_item(storage: Seq<char>, key: Seq<char>) -> Seq<char> {
    storage + ".removeItem(\""@ + key + "\")"@
}

/// The expression that removes all items.
pub open spec fn clear_items(storage: Seq<char>) -> Seq<char> {
    storage + ".clear()"@
}

// What is left of an operation while it waits.

/// The title that a text is, or nothing where it is empty.
pub fn read_title(text: Result<String, CdpError>) -> (title: Result<Option<String>, CdpError>)
    ensures
        result_view(title) == title_of(result_view(text)),
        text matches Err(error) ==> title == Err::<Option<String>, CdpError>(error),
{
    match text {
        Ok(title) => if title.as_str().is_empty() {
            Ok(None)
        } else {
            Ok(Some(title))
        },
        Err(error) => Err(error),
    }
}

/// Reads the title.
pub struct ReadTitle;

impl Next for ReadTitle {
    type Input = EvaluationResult;

    type Rest = Ended<Option<String>>;

    open spec fn next(self, object: RemoteObjectView) -> Prog<Option<Seq<char>>> {
        Prog::Done(title_of(string_result(object.value)))
    }
}

impl Start for ReadTitle {
    fn start(self, result: EvaluationResult) -> (step: Step<
        Ended<Option<String>>,
        Option<String>,
    >) {
        Step::Done(read_title(result.into_string()))
    }
}

/// Sets the document, once the main frame is known.
pub struct SetContentOf {
    pub html: String,
}

impl Next for SetContentOf {
    type Input = Option<FrameId>;

    type Rest = Await<()>;

    open spec fn next(self, frame_id: Option<Seq<char>>) -> Prog<()> {
        set_content_of_op(frame_id, self.html@)
    }
}

impl Start for SetContentOf {
    fn start(self, frame_id: Option<FrameId>) -> (step: Step<Await<()>, ()>) {
        let frame_id = match frame_id {
            Some(id) => id,
            None => FrameId(String::new()),
        };
        executing(Command::SetDocumentContent { frame_id, html: self.html })
    }
}

/// The call that writes a document, given as JSON.
pub fn call_to_write(html: Json) -> (call: CallFunctionOnParams)
    ensures
        call.deep_view() == write_call(html.deep_view()),
{
    let argument = CallArgument {
        value: Some(html),
        unserializable_value: None,
        object_id: None,
    };
    let arguments: Vec<CallArgument> = vec![argument];
    assert(arguments.deep_view() =~= seq![argument.deep_view()]);
    let mut call = CallFunctionOnParams::new(WRITE_DOCUMENT.to_owned());
    call.arguments = Some(arguments);
    call
}

/// Waits until the page is loaded.
pub struct Load;

impl Next for Load {
    type Input = EvaluationResult;

    type Rest = Await<()>;

    open spec fn next(self, object: RemoteObjectView) -> Prog<()> {
        ask::<()>(RequestView::Navigation)
    }
}

impl Start for Load {
    fn start(self, result: EvaluationResult) -> (step: Step<Await<()>, ()>) {
        asking(Request::Navigation)
    }
}

/// Makes a call, once the context is known, and waits until the page is loaded.
pub struct CallAndLoad {
    pub call: CallFunctionOnParams,
}

impl Next for CallAndLoad {
    type Input = Option<ExecutionContextId>;

    type Rest = Chain<EvaluateFunction, Load>;

    open spec fn next(self, context_id: Option<ExecutionContextId>) -> Prog<()> {
        call_and_load_op(self.call.deep_view(), context_id)
    }
}

impl Start for CallAndLoad {
    fn start(self, context_id: Option<ExecutionContextId>) -> (step: Step<
        Chain<EvaluateFunction, Load>,
        (),
    >) {
        broadcast use same_is_equal;

        let mut call = self.call;
        call.execution_context_id = context_id;
        chain(evaluate_as_function(call), Load)
    }
}

/// Reads the HTML, once the document is known.
pub struct ReadOuterHtml;

impl Next for ReadOuterHtml {
    type Input = Node;

    type Rest = Await<String>;

    open spec fn next(self, root: NodeView) -> Prog<Seq<char>> {
        execute::<String>(
            CommandView::GetOuterHtml {
                node_id: Some(root.node_id),
                backend_node_id: Some(root.backend_node_id),
                object_id: None,
            },
        )
    }
}

impl Start for ReadOuterHtml {
    fn start(self, root: Node) -> (step: Step<Await<String>, String>) {
        executing(
            Command::GetOuterHtml {
                node_id: Some(root.node_id),
                backend_node_id: Some(root.backend_node_id),
                object_id: None,
            },
        )
    }
}

/// Reads a text that a script evaluated to.
pub struct ReadString;

impl Next for ReadString {
    type Input = EvaluationResult;

    type Rest = Ended<String>;

    open spec fn next(self, object: RemoteObjectView) -> Prog<Seq<char>> {
        Prog::Done(string_result(object.value))
    }
}

impl Start for ReadString {
    fn start(self, result: EvaluationResult) -> (step: Step<Ended<String>, String>) {
        Step::Done(result.into_string())
    }
}

/// Reads bytes that a script evaluated to.
pub struct ReadBytes;

impl Next for ReadBytes {
    type Input = EvaluationResult;

    type Rest = Ended<Vec<u8>>;

    open spec fn next(self, object: RemoteObjectView) -> Prog<Seq<u8>> {
        Prog::Done(bytes_result(object.value))
    }
}

impl Start for ReadBytes {
    fn start(self, result: EvaluationResult) -> (step: Step<Ended<Vec<u8>>, Vec<u8>>) {
        Step::Done(result.into_bytes())
    }
}

/// Adds a rule, once the style sheet is there.
pub struct AddRule {
    pub rule_text: String,
}

impl Next for AddRule {
    type Input = StyleSheetId;

    type Rest = Await<()>;

    open spec fn next(self, style_sheet_id: Seq<char>) -> Prog<()> {
        add_rule_op(style_sheet_id, self.rule_text@)
    }
}

impl Start for AddRule {
    fn start(self, style_sheet_id: StyleSheetId) -> (step: Step<Await<()>, ()>) {
        let location = SourceRange { start_line: 0, start_column: 0, end_line: 0, end_column: 0 };
        executing(Command::AddRule { style_sheet_id, location, rule_text: self.rule_text })
    }
}

/// Adds a style sheet, once the main frame is known.
pub struct AddStyle {
    pub rule_text: String,
}

impl Next for AddStyle {
    type Input = GetFrameTreeReturns;

    type Rest = Chain<Await<StyleSheetId>, AddRule>;

    open spec fn next(self, tree: GetFrameTreeReturnsView) -> Prog<()> {
        add_style_op(tree.frame_id, self.rule_text@)
    }
}

impl Start for AddStyle {
    fn start(self, tree: GetFrameTreeReturns) -> (step: Step<
        Chain<Await<StyleSheetId>, AddRule>,
        (),
    >) {
        broadcast use same_is_equal;

        chain(
            executing::<StyleSheetId>(Command::CreateStyleSheet { frame_id: tree.frame_id }),
            AddRule { rule_text: self.rule_text },
        )
    }
}

/// Looks up the main frame for a style sheet.
pub struct AddMainStyle {
    pub rule_text: String,
}

impl Next for AddMainStyle {
    type Input = ();

    type Rest = Chain<Await<GetFrameTreeReturns>, AddStyle>;

    open spec fn next(self, u: ()) -> Prog<()> {
        add_main_style_op(self.rule_text@)
    }
}

impl Start for AddMainStyle {
    fn start(self, u: ()) -> (step: Step<Chain<Await<GetFrameTreeReturns>, AddStyle>, ()>) {
        broadcast use same_is_equal;

        chain(
            executing::<GetFrameTreeReturns>(Command::GetFrameTree),
            AddStyle { rule_text: self.rule_text },
        )
    }
}

/// Switches on what a style sheet needs.
pub struct EnableStyle {
    pub rule_text: String,
}

impl Next for EnableStyle {
    type Input = Node;

    type Rest = Chain<Sequence, AddMainStyle>;

    open spec fn next(self, root: NodeView) -> Prog<()> {
        bind(sequence(style_domains()), |u: ()| add_main_style_op(self.rule_text@))
    }
}

impl Start for EnableStyle {
    fn start(self, root: Node) -> (step: Step<Chain<Sequence, AddMainStyle>, ()>) {
        broadcast use same_is_equal;

        let requests: Vec<Request> = vec![
            Request::Command(Command::Enable(Domain::Dom)),
            Request::Command(Command::Enable(Domain::Css)),
        ];
        assert(requests.deep_view() =~= style_domains());
        chain(in_sequence(requests), AddMainStyle { rule_text: self.rule_text })
    }
}

/// Stores an item.
fn store(storage: &str, key: &str, value: &str) -> (step: Step<Chain<Evaluate, Discard>, ()>)
    ensures
        follows(step, run_op(set_item(storage@, key@, value@))),
{
    let mut expression = storage.to_owned();
    expression.append(".setItem(\"");
    expression.append(key);
    expression.append("\", \"");
    expression.append(value);
    expression.append("\")");
    run(expression.as_str())
}

/// Reads an item.
fn fetch(storage: &str, key: &str) -> (step: Step<Chain<Evaluate, Discard>, ()>)
    ensures
        follows(step, run_op(get_item(storage@, key@))),
{
    let mut expression = storage.to_owned();
    expression.append(".getItem(\"");
    expression.append(key);
    expression.append("\")");
    run(expression.as_str())
}

/// Removes an item.
fn unstore(storage: &str, key: &str) -> (step: Step<Chain<Evaluate, Discard>, ()>)
    ensures
        follows(step, run_op(remove_item(storage@, key@))),
{
    let mut expression = storage.to_owned();
    expression.append(".removeItem(\"");
    expression.append(key);
    expression.append("\")");
    run(expression.as_str())
}

/// Removes all items.
fn clear(storage: &str) -> (step: Step<Chain<Evaluate, Discard>, ()>)
    ensures
        follows(step, run_op(clear_items(storage@))),
{
    let mut expression = storage.to_owned();
    expression.append(".clear()");
    run(expression.as_str())
}

impl Page {
    /// Stores an item in the local storage.
    pub fn set_local_storage(&self, key: &str, value: &str) -> (step: Step<
        Chain<Evaluate, Discard>,
        (),
    >)
        ensures
            follows(step, run_op(set_item(LOCAL_STORAGE@, key@, value@))),
    {
        store(LOCAL_STORAGE, key, value)
    }

    /// Reads an item of the local storage. What it is is not yielded.
    pub fn get_local_storage(&self, key: &str) -> (step: Step<Chain<Evaluate, Discard>, ()>)
        ensures
            follows(step, run_op(get_item(LOCAL_STORAGE@, key@))),
    {
        fetch(LOCAL_STORAGE, key)
    }

    /// Removes an item of the local storage.
    pub fn remove_local_storage(&self, key: &str) -> (step: Step<Chain<Evaluate, Discard>, ()>)
        ensures
            follows(step, run_op(remove_item(LOCAL_STORAGE@, key@))),
    {
        unstore(LOCAL_STORAGE, key)
    }

    /// Removes all items of the local storage.
    pub fn clear_local_storage(&self) -> (step: Step<Chain<Evaluate, Discard>, ()>)
        ensures
            follows(step, run_op(clear_items(LOCAL_STORAGE@))),
    {
        clear(LOCAL_STORAGE)
    }

    /// Stores an item in the session storage.
    pub fn set_session_storage(&self, key: &str, value: &str) -> (step: Step<
        Chain<Evaluate, Discard>,
        (),
    >)
        ensures
            follows(step, run_op(set_item(SESSION_STORAGE@, key@, value@))),
    {
        store(SESSION_STORAGE, key, value)
    }

    /// Reads an item of the session storage. What it is is not yielded.
    pub fn get_session_storage(&self, key: &str) -> (step: Step<Chain<Evaluate, Discard>, ()>)
        ensures
            follows(step, run_op(get_item(SESSION_STORAGE@, key@))),
    {
        fetch(SESSION_STORAGE, key)
    }

    /// Removes an item of the session storage.
    pub fn remove_session_storage(&self, key: &str) -> (step: Step<Chain<Evaluate, Discard>, ()>)
        ensures
            follows(step, run_op(remove_item(SESSION_STORAGE@, key@))),
    {
        unstore(SESSION_STORAGE, key)
    }

    /// Removes all items of the session storage.
    pub fn clear_session_storage(&self) -> (step: Step<Chain<Evaluate, Discard>, ()>)
        ensures
            follows(step, run_op(clear_items(SESSION_STORAGE@))),
    {
        clear(SESSION_STORAGE)
    }

    /// Yields the title of the document, or nothing where it is empty.
    pub fn get_title(&self) -> (step: Step<Chain<Evaluate, ReadTitle>, Option<String>>)
        ensures
            follows(step, title_op()),
    {
        broadcast use same_is_equal;

        chain(evaluate_text(TITLE), ReadTitle)
    }

    /// Sets the document of the main frame.
    pub fn set_content(&self, html: &str) -> (step: Step<
        Chain<Await<Option<FrameId>>, SetContentOf>,
        (),
    >)
        ensures
            follows(step, set_content_op(html@)),
    {
        broadcast use same_is_equal;

        chain(self.mainframe(), SetContentOf { html: html.to_owned() })
    }

    /// Sets the document by a script and waits until the page is loaded. The argument that
    /// the script gets denotes the document.
    pub fn set_content_js(&self, html: &str) -> (step: Step<
        Chain<Await<Option<ExecutionContextId>>, CallAndLoad>,
        (),
    >)
        ensures
            follows(step, set_content_js_op(html@)),
            json_string(json_quoted(html@)) == Some(html@),
    {
        broadcast use same_is_equal;

        let call = call_to_write(quoted(html));
        chain(context_for_world(None, DomWorldKind::Secondary), CallAndLoad { call })
    }

    /// Yields the HTML of the document.
    pub fn get_content(&self) -> (step: Step<Chain<Await<Node>, ReadOuterHtml>, String>)
        ensures
            follows(step, get_content_op()),
    {
        broadcast use same_is_equal;

        chain(document(), ReadOuterHtml)
    }

    /// Yields the HTML of the document, read by a script.
    pub fn get_content_js(&self) -> (step: Step<Chain<Evaluate, ReadString>, String>)
        ensures
            follows(step, get_content_js_op()),
    {
        broadcast use same_is_equal;

        chain(evaluate_text(READ_DOCUMENT), ReadString)
    }

    /// Yields the HTML of the document as bytes, read by a script.
    pub fn content_bytes(&self) -> (step: Step<Chain<Evaluate, ReadBytes>, Vec<u8>>)
        ensures
            follows(step, content_bytes_op()),
    {
        broadcast use same_is_equal;

        chain(evaluate_text(READ_DOCUMENT_BYTES), ReadBytes)
    }

    /// Adds a style sheet to the page.
    pub fn set_stylesheet(&self, payload: &str) -> (step: Step<
        Chain<Await<Node>, EnableStyle>,
        (),
    >)
        ensures
            follows(step, set_stylesheet_op(payload@)),
    {
        broadcast use same_is_equal;

        chain(document(), EnableStyle { rule_text: payload.to_owned() })
    }
}

// What holds whatever the browser answers.

/// An empty title is never yielded.
pub proof fn title_is_never_empty()
    ensures
        yields(title_op(), |title: Option<Seq<char>>| title matches Some(t) ==> t.len() > 0),
{
    let filled = |title: Option<Seq<char>>| title matches Some(t) ==> t.len() > 0;
    let read = |object: RemoteObjectView|
        Prog::Done(title_of(string_result(object.value)));
    assert forall|object: RemoteObjectView| yields(#[trigger] read(object), filled) by {
    }
    bind_yields(evaluate_text_op(TITLE@), read, filled);
}

/// A style sheet is created only once CSS is switched on.
pub proof fn css_is_enabled_first(payload: Seq<char>)
    ensures
        asks_first(
            set_stylesheet_op(payload),
            |request: RequestView|
                request == RequestView::Command(CommandView::Enable(Domain::Css)),
            |request: RequestView|
                request matches RequestView::Command(command) && (command is CreateStyleSheet
                    || command is AddRule),
        ),
{
    let first = |request: RequestView|
        request == RequestView::Command(CommandView::Enable(Domain::Css));
    let second = |request: RequestView|
        request matches RequestView::Command(command) && (command is CreateStyleSheet
            || command is AddRule);
    let add = |u: ()| add_main_style_op(payload);
    let enable = |root: NodeView| bind(sequence(style_domains()), add);
    reveal_with_fuel(only_asks, 2);
    assert forall|root: NodeView| asks_first(#[trigger] enable(root), first, second) by {
        reveal_with_fuel(sequence, 2);
        reveal_with_fuel(bind, 2);
        reveal_with_fuel(asks_first, 2);
    }
    bind_asks_first(document_op(), enable, first, second);
}

} // verus!
