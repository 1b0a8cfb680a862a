//! The document of a page, its style and its storage.
use vstd::prelude::*;

use crate::cdp::command::{CommandView, Domain};
use crate::cdp::css::SourceRange;
use crate::cdp::dom::{Node, NodeView};
use crate::cdp::page::{FrameId, GetFrameTreeReturnsView};
use crate::cdp::runtime::{
    CallArgumentView, CallFunctionOnParamsView, CallFunctionOnReturnsView, EvaluateParamsView,
    ExecutionContextId,
};
use crate::contents::{
    CallAndLoad, EnableStyle, ReadBytes, ReadOuterHtml, ReadString, ReadTitle, SetContentOf,
    READ_DOCUMENT, READ_DOCUMENT_BYTES, WRITE_DOCUMENT,
};
use crate::error::ErrorView;
use crate::evaluate::{Discard, Evaluate};
use crate::flow::{bind, done, fail, remaining, Await, Chain, Prog, Step};
use crate::json::{json_bytes, json_quoted, json_string};
use crate::page::Page;
use crate::protocol::{DomWorldKind, ReplyView, RequestView};
use crate::sequence::sequence;

verus! {

impl<T> Prog<T> {
    /// What is left of an operation once a text is evaluated as an expression in the page, with
    /// nothing else set: the page waits for a promise and returns the value.
    pub open spec fn evaluates_text(
        self,
        expression: Seq<char>,
        context: ExecutionContextId,
        returned: CallFunctionOnReturnsView,
    ) -> Prog<T> {
        self.asks(
            RequestView::ExecutionContext { frame_id: None, world: DomWorldKind::Main },
            ReplyView::Context(Some(context)),
        ).sends(
            CommandView::Evaluate(
                EvaluateParamsView {
                    expression,
                    object_group: None,
                    include_command_line_api: None,
                    silent: None,
                    context_id: Some(context),
                    return_by_value: Some(true),
                    generate_preview: None,
                    user_gesture: None,
                    await_promise: Some(true),
                    throw_on_side_effect: None,
                    timeout: None,
                    disable_breaks: None,
                    repl_mode: None,
                    allow_unsafe_eval_blocked_by_csp: None,
                    unique_context_id: None,
                    serialization_options: None,
                    eval_as_function_fallback: None,
                },
            ),
            ReplyView::Evaluated(returned),
        )
    }
}

/// A value that a script returned and no exception.
pub open spec fn came_to(value: Option<Seq<char>>, returned: CallFunctionOnReturnsView) -> bool {
    returned.exception_details is None && returned.result.value == value
}

/// The title is that of the document, and none where it is empty. What is no text is an error,
/// and so is an exception.
pub proof fn title_is_read(
    page: &Page,
    step: Step<Chain<Evaluate, ReadTitle>, Option<String>>,
    context: ExecutionContextId,
    returned: CallFunctionOnReturnsView,
    json: Seq<char>,
)
    requires
        call_ensures(Page::get_title, (page,), step),
    ensures
        ({
            let read = remaining(step).evaluates_text("document.title"@, context, returned);
            &&& (came_to(Some(json), returned) && json_string(json) is Some) ==> read == done(
                if json_string(json)->0.len() == 0 {
                    None
                } else {
                    json_string(json)
                },
            )
            &&& (came_to(Some(json), returned) && json_string(json) is None) ==> read == fail::<
                Option<Seq<char>>,
            >(ErrorView::Serde)
            &&& returned.exception_details is Some ==> read == fail::<Option<Seq<char>>>(
                ErrorView::JavascriptException(returned.exception_details->0),
            )
        }),
{
    reveal_with_fuel(bind, 6);
}

/// The HTML of the document is that of its root, as a whole.
pub proof fn html_of_the_document_is_read(
    page: &Page,
    step: Step<Chain<Await<Node>, ReadOuterHtml>, String>,
    root: NodeView,
    html: Seq<char>,
)
    requires
        call_ensures(Page::get_content, (page,), step),
    ensures
        remaining(step).sends(
            CommandView::GetDocument { depth: Some((-1) as i64), pierce: Some(true) },
            ReplyView::Node(root),
        ).sends(
            CommandView::GetOuterHtml {
                node_id: Some(root.node_id),
                backend_node_id: Some(root.backend_node_id),
                object_id: None,
            },
            ReplyView::Text(html),
        ) == done(html),
{
    reveal_with_fuel(bind, 3);
}

/// The HTML that a script reads is the text, or the bytes, that the script returns.
pub proof fn html_is_read_by_a_script(
    page: &Page,
    text: Step<Chain<Evaluate, ReadString>, String>,
    contents: Step<Chain<Evaluate, ReadBytes>, Vec<u8>>,
    context: ExecutionContextId,
    returned: CallFunctionOnReturnsView,
    json: Seq<char>,
)
    requires
        call_ensures(Page::get_content_js, (page,), text),
        call_ensures(Page::content_bytes, (page,), contents),
        came_to(Some(json), returned),
    ensures
        remaining(text).evaluates_text(READ_DOCUMENT@, context, returned) == if json_string(
            json,
        ) is Some {
            done(json_string(json)->0)
        } else {
            fail(ErrorView::Serde)
        },
        remaining(contents).evaluates_text(READ_DOCUMENT_BYTES@, context, returned)
            == if json_bytes(json) is Some {
            done(json_bytes(json)->0)
        } else {
            fail(ErrorView::Serde)
        },
{
    reveal_with_fuel(bind, 6);
}

/// The document that is set is the HTML that is given, in the main frame.
pub proof fn document_is_set(
    page: &Page,
    html: &str,
    step: Step<Chain<Await<Option<FrameId>>, SetContentOf>, ()>,
    frame_id: Option<Seq<char>>,
    set: ReplyView,
)
    requires
        call_ensures(Page::set_content, (page, html), step),
    ensures
        remaining(step).asks(RequestView::MainFrame, ReplyView::Frame(frame_id)).sends(
            CommandView::SetDocumentContent {
                frame_id: if frame_id is Some {
                    frame_id->0
                } else {
                    Seq::empty()
                },
                html: html@,
            },
            set,
        ) == done(()),
{
    reveal_with_fuel(bind, 3);
}

/// The document that a script sets is written by a call with the HTML that is given as its one
/// argument, in the world that is set apart for work on the DOM, and the page is then loaded. An
/// exception ends it.
pub proof fn document_is_set_by_a_script(
    page: &Page,
    html: &str,
    step: Step<Chain<Await<Option<ExecutionContextId>>, CallAndLoad>, ()>,
    context: ExecutionContextId,
    returned: CallFunctionOnReturnsView,
    loaded: ReplyView,
)
    requires
        call_ensures(Page::set_content_js, (page, html), step),
    ensures
        ({
            let written = remaining(step).asks(
                RequestView::ExecutionContext { frame_id: None, world: DomWorldKind::Secondary },
                ReplyView::Context(Some(context)),
            ).sends(
                CommandView::CallFunctionOn(
                    CallFunctionOnParamsView {
                        function_declaration: WRITE_DOCUMENT@,
                        object_id: None,
                        arguments: Some(
                            seq![
                                CallArgumentView {
                                    value: Some(json_quoted(html@)),
                                    unserializable_value: None,
                                    object_id: None,
                                },
                            ],
                        ),
                        silent: None,
                        return_by_value: Some(true),
                        generate_preview: None,
                        user_gesture: None,
                        await_promise: Some(true),
                        execution_context_id: Some(context),
                        object_group: None,
                        throw_on_side_effect: None,
                        unique_context_id: None,
                        serialization_options: None,
                    },
                ),
                ReplyView::Evaluated(returned),
            );
            &&& returned.exception_details is None ==> written.asks(
                RequestView::Navigation,
                loaded,
            ) == done(())
            &&& returned.exception_details is Some ==> written == fail::<()>(
                ErrorView::JavascriptException(returned.exception_details->0),
            )
        }),
        json_string(json_quoted(html@)) == Some(html@),
{
    reveal_with_fuel(bind, 5);
}

/// A style sheet is added with the rule that is given, at its start, to the main frame, once
/// the DOM and the CSS domain are on.
pub proof fn style_sheet_is_added(
    page: &Page,
    payload: &str,
    step: Step<Chain<Await<Node>, EnableStyle>, ()>,
    root: NodeView,
    dom: ReplyView,
    css: ReplyView,
    tree: GetFrameTreeReturnsView,
    sheet: Seq<char>,
    added: ReplyView,
)
    requires
        call_ensures(Page::set_stylesheet, (page, payload), step),
    ensures
        remaining(step).sends(
            CommandView::GetDocument { depth: Some((-1) as i64), pierce: Some(true) },
            ReplyView::Node(root),
        ).sends(CommandView::Enable(Domain::Dom), dom).sends(
            CommandView::Enable(Domain::Css),
            css,
        ).sends(CommandView::GetFrameTree, ReplyView::FrameTree(tree)).sends(
            CommandView::CreateStyleSheet { frame_id: tree.frame_id },
            ReplyView::StyleSheet(sheet),
        ).sends(
            CommandView::AddRule {
                style_sheet_id: sheet,
                location: SourceRange {
                    start_line: 0,
                    start_column: 0,
                    end_line: 0,
                    end_column: 0,
                },
                rule_text: payload@,
            },
            added,
        ) == done(()),
{
    reveal_with_fuel(bind, 7);
    reveal_with_fuel(sequence, 3);
}

/// What the storage that outlasts the session is told: to set, to read and to remove the item
/// of the key that is given, and to remove all.
pub proof fn local_storage_is_used(
    page: &Page,
    key: &str,
    value: &str,
    set: Step<Chain<Evaluate, Discard>, ()>,
    read: Step<Chain<Evaluate, Discard>, ()>,
    removed: Step<Chain<Evaluate, Discard>, ()>,
    cleared: Step<Chain<Evaluate, Discard>, ()>,
    context: ExecutionContextId,
    returned: CallFunctionOnReturnsView,
)
    requires
        call_ensures(Page::set_local_storage, (page, key, value), set),
        call_ensures(Page::get_local_storage, (page, key), read),
        call_ensures(Page::remove_local_storage, (page, key), removed),
        call_ensures(Page::clear_local_storage, (page,), cleared),
        returned.exception_details is None,
    ensures
        remaining(set).evaluates_text(
            "localStorage"@ + ".setItem(\""@ + key@ + "\", \""@ + value@ + "\")"@,
            context,
            returned,
        ) == done(()),
        remaining(read).evaluates_text(
            "localStorage"@ + ".getItem(\""@ + key@ + "\")"@,
            context,
            returned,
        ) == done(()),
        remaining(removed).evaluates_text(
            "localStorage"@ + ".removeItem(\""@ + key@ + "\")"@,
            context,
            returned,
        ) == done(()),
        remaining(cleared).evaluates_text("localStorage"@ + ".clear()"@, context, returned) == done(
            (),
        ),
{
    reveal_with_fuel(bind, 6);
}

/// What the storage of the session is told: to set, to read and to remove the item of the key
/// that is given, and to remove all.
pub proof fn session_storage_is_used(
    page: &Page,
    key: &str,
    value: &str,
    set: Step<Chain<Evaluate, Discard>, ()>,
    read: Step<Chain<Evaluate, Discard>, ()>,
    removed: Step<Chain<Evaluate, Discard>, ()>,
    cleared: Step<Chain<Evaluate, Discard>, ()>,
    context: ExecutionContextId,
    returned: CallFunctionOnReturnsView,
)
    requires
        call_ensures(Page::set_session_storage, (page, key, value), set),
        call_ensures(Page::get_session_storage, (page, key), read),
        call_ensures(Page::remove_session_storage, (page, key), removed),
        call_ensures(Page::clear_session_storage, (page,), cleared),
        returned.exception_details is None,
    ensures
        remaining(set).evaluates_text(
            "sessionStorage"@ + ".setItem(\""@ + key@ + "\", \""@ + value@ + "\")"@,
            context,
            returned,
        ) == done(()),
        remaining(read).evaluates_text(
            "sessionStorage"@ + ".getItem(\""@ + key@ + "\")"@,
            context,
            returned,
        ) == done(()),
        remaining(removed).evaluates_text(
            "sessionStorage"@ + ".removeItem(\""@ + key@ + "\")"@,
            context,
            returned,
        ) == done(()),
        remaining(cleared).evaluates_text("sessionStorage"@ + ".clear()"@, context, returned)
            == done(()),
{
    reveal_with_fuel(bind, 6);
}

} // verus!
