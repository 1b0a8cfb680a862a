//! The evaluation of scripts.
use vstd::prelude::*;

use crate::cdp::command::CommandView;
use crate::cdp::runtime::{
    CallFunctionOnParams, CallFunctionOnParamsView, CallFunctionOnReturns,
    CallFunctionOnReturnsView, EvaluateParams, EvaluateParamsView, ExecutionContextId,
    RemoteObjectId, RemoteObjectType, RemoteObjectView,
};
use crate::error::ErrorView;
use crate::evaluate::{evaluate_op, evaluate_text, Evaluate};
use crate::flow::{bind, done, remaining, same_is_equal, Await, Prog, Step};
use crate::handler::page::{evaluate_function_op, EvaluateExpression, EvaluateFunction, PageInner};
use crate::js::{Evaluation, EvaluationResult, EvaluationView};
use crate::laws::only_asks;
use crate::page::Page;
use crate::protocol::{DomWorldKind, ReplyView, RequestView};

verus! {

/// What comes of a script: the exception that it threw, or else the value.
pub open spec fn comes_to(returned: CallFunctionOnReturnsView) -> Prog<RemoteObjectView> {
    if returned.exception_details is Some {
        Prog::Done(Err(ErrorView::JavascriptException(returned.exception_details->0)))
    } else {
        Prog::Done(Ok(returned.result))
    }
}

impl Prog<RemoteObjectView> {
    /// What is left of an operation once it has asked for the context that the scripts of the
    /// page run in.
    pub open spec fn asks_context(self, context: Option<ExecutionContextId>) -> Prog<
        RemoteObjectView,
    > {
        self.asks(
            RequestView::ExecutionContext { frame_id: None, world: DomWorldKind::Main },
            ReplyView::Context(context),
        )
    }
}

/// A call as it is sent: in a context, and with what is not set of waiting for a promise and
/// of returning the value set to yes. All else is as the caller has it.
pub open spec fn call_in(
    params: CallFunctionOnParamsView,
    context: Option<ExecutionContextId>,
) -> CommandView {
    CommandView::CallFunctionOn(
        CallFunctionOnParamsView {
            function_declaration: params.function_declaration,
            object_id: params.object_id,
            arguments: params.arguments,
            silent: params.silent,
            return_by_value: if params.return_by_value is Some {
                params.return_by_value
            } else {
                Some(true)
            },
            generate_preview: params.generate_preview,
            user_gesture: params.user_gesture,
            await_promise: if params.await_promise is Some {
                params.await_promise
            } else {
                Some(true)
            },
            execution_context_id: context,
            object_group: params.object_group,
            throw_on_side_effect: params.throw_on_side_effect,
            unique_context_id: params.unique_context_id,
            serialization_options: params.serialization_options,
        },
    )
}

/// An expression as it is sent: in a context, and with what is not set of waiting for a
/// promise and of returning the value set to yes. All else is as the caller has it.
pub open spec fn evaluation_in(
    params: EvaluateParamsView,
    context: Option<ExecutionContextId>,
) -> CommandView {
    CommandView::Evaluate(
        EvaluateParamsView {
            expression: params.expression,
            object_group: params.object_group,
            include_command_line_api: params.include_command_line_api,
            silent: params.silent,
            context_id: context,
            return_by_value: if params.return_by_value is Some {
                params.return_by_value
            } else {
                Some(true)
            },
            generate_preview: params.generate_preview,
            user_gesture: params.user_gesture,
            await_promise: if params.await_promise is Some {
                params.await_promise
            } else {
                Some(true)
            },
            throw_on_side_effect: params.throw_on_side_effect,
            timeout: params.timeout,
            disable_breaks: params.disable_breaks,
            repl_mode: params.repl_mode,
            allow_unsafe_eval_blocked_by_csp: params.allow_unsafe_eval_blocked_by_csp,
            unique_context_id: params.unique_context_id,
            serialization_options: params.serialization_options,
            eval_as_function_fallback: params.eval_as_function_fallback,
        },
    )
}

/// To evaluate a function is to call it, whichever way it is handed over: the declaration and
/// the arguments are those of the caller, in the context that is set.
pub proof fn function_is_called_in_its_context(
    page: &Page,
    params: CallFunctionOnParams,
    by_evaluate: Step<Evaluate, EvaluationResult>,
    by_function: Step<EvaluateFunction, EvaluationResult>,
    returned: CallFunctionOnReturnsView,
)
    requires
        call_ensures(Page::evaluate, (page, Evaluation::Function(params)), by_evaluate),
        call_ensures(Page::evaluate_function, (page, params), by_function),
        params.execution_context_id is Some,
    ensures
        remaining(by_evaluate).sends(
            call_in(params.deep_view(), params.execution_context_id),
            ReplyView::Evaluated(returned),
        ) == comes_to(returned),
        remaining(by_function) == remaining(by_evaluate),
{
    broadcast use same_is_equal;

    reveal_with_fuel(bind, 3);
}

/// To evaluate a function is to call it, whichever way it is handed over: the declaration and
/// the arguments are those of the caller, in the context of the page where none is set.
pub proof fn function_is_called_in_the_page(
    page: &Page,
    params: CallFunctionOnParams,
    by_evaluate: Step<Evaluate, EvaluationResult>,
    by_function: Step<EvaluateFunction, EvaluationResult>,
    context: Option<ExecutionContextId>,
    returned: CallFunctionOnReturnsView,
)
    requires
        call_ensures(Page::evaluate, (page, Evaluation::Function(params)), by_evaluate),
        call_ensures(Page::evaluate_function, (page, params), by_function),
        params.execution_context_id is None,
    ensures
        remaining(by_evaluate).asks_context(context).sends(
            call_in(params.deep_view(), context),
            ReplyView::Evaluated(returned),
        ) == comes_to(returned),
        remaining(by_function) == remaining(by_evaluate),
{
    broadcast use same_is_equal;

    reveal_with_fuel(bind, 3);
}

/// Whatever the browser answers, the calls that are made for a function are calls of that
/// function with the arguments of the caller.
pub proof fn evaluate_keeps_the_call(params: CallFunctionOnParamsView)
    ensures
        evaluate_op(EvaluationView::Function(params)) == evaluate_function_op(params),
        only_asks(
            evaluate_op(EvaluationView::Function(params)),
            |request: RequestView|
                match request {
                    RequestView::Command(CommandView::CallFunctionOn(sent)) => {
                        &&& sent.function_declaration == params.function_declaration
                        &&& sent.arguments == params.arguments
                        &&& sent.object_id == params.object_id
                        &&& sent.silent == params.silent
                        &&& sent.user_gesture == params.user_gesture
                    },
                    RequestView::ExecutionContext { frame_id, world } => frame_id is None && world
                        == DomWorldKind::Main && params.execution_context_id is None,
                    _ => false,
                },
        ),
{
    let allowed = |request: RequestView|
        match request {
            RequestView::Command(CommandView::CallFunctionOn(sent)) => {
                &&& sent.function_declaration == params.function_declaration
                &&& sent.arguments == params.arguments
                &&& sent.object_id == params.object_id
                &&& sent.silent == params.silent
                &&& sent.user_gesture == params.user_gesture
            },
            RequestView::ExecutionContext { frame_id, world } => frame_id is None && world
                == DomWorldKind::Main && params.execution_context_id is None,
            _ => false,
        };
    reveal_with_fuel(bind, 4);
    reveal_with_fuel(only_asks, 4);
}

/// An expression is evaluated as the caller has it, in the context that is set, and its value
/// or the exception that it throws is what comes of it.
pub proof fn expression_is_evaluated_in_its_context(
    page: &Page,
    params: EvaluateParams,
    by_evaluate: Step<Evaluate, EvaluationResult>,
    by_expression: Step<EvaluateExpression, EvaluationResult>,
    returned: CallFunctionOnReturnsView,
)
    requires
        call_ensures(Page::evaluate, (page, Evaluation::Expression(params)), by_evaluate),
        call_ensures(Page::evaluate_expression, (page, params), by_expression),
        params.context_id is Some,
        params.eval_as_function_fallback != Some(true),
    ensures
        remaining(by_evaluate).sends(
            evaluation_in(params.deep_view(), params.context_id),
            ReplyView::Evaluated(returned),
        ) == comes_to(returned),
        remaining(by_expression).sends(
            evaluation_in(params.deep_view(), params.context_id),
            ReplyView::Evaluated(returned),
        ) == comes_to(returned),
{
    reveal_with_fuel(bind, 4);
}

/// An expression is evaluated as the caller has it, in the context of the page where none is
/// set. A page that has no context is asked for it once more, and the expression is then sent
/// without one.
pub proof fn expression_is_evaluated_in_the_page(
    page: &Page,
    params: EvaluateParams,
    by_evaluate: Step<Evaluate, EvaluationResult>,
    by_expression: Step<EvaluateExpression, EvaluationResult>,
    context: Option<ExecutionContextId>,
    again: Option<ExecutionContextId>,
    returned: CallFunctionOnReturnsView,
)
    requires
        call_ensures(Page::evaluate, (page, Evaluation::Expression(params)), by_evaluate),
        call_ensures(Page::evaluate_expression, (page, params), by_expression),
        params.context_id is None,
        params.eval_as_function_fallback != Some(true),
    ensures
        context is Some ==> remaining(by_evaluate).asks_context(context).sends(
            evaluation_in(params.deep_view(), context),
            ReplyView::Evaluated(returned),
        ) == comes_to(returned),
        context is None ==> remaining(by_evaluate).asks_context(context).asks_context(again).sends(
            evaluation_in(params.deep_view(), again),
            ReplyView::Evaluated(returned),
        ) == comes_to(returned),
        remaining(by_expression).asks_context(context).sends(
            evaluation_in(params.deep_view(), context),
            ReplyView::Evaluated(returned),
        ) == comes_to(returned),
{
    reveal_with_fuel(bind, 5);
}

/// An expression that asks for it, and whose value is a function, is submitted again as that
/// function, in the same context, and what comes of the call is what comes of it. Where its
/// value is none, or where it throws, nothing is submitted again.
pub proof fn expression_falls_back_to_a_call(
    page: &Page,
    params: EvaluateParams,
    step: Step<Evaluate, EvaluationResult>,
    returned: CallFunctionOnReturnsView,
    called: CallFunctionOnReturnsView,
)
    requires
        call_ensures(Page::evaluate, (page, Evaluation::Expression(params)), step),
        params.context_id is Some,
        params.eval_as_function_fallback == Some(true),
    ensures
        ({
            let given = params.deep_view();
            let after = remaining(step).sends(
                evaluation_in(given, given.context_id),
                ReplyView::Evaluated(returned),
            );
            if returned.exception_details is Some || returned.result.kind
                != RemoteObjectType::Function {
                after == comes_to(returned)
            } else {
                after.sends(
                    CommandView::CallFunctionOn(
                        CallFunctionOnParamsView {
                            function_declaration: given.expression,
                            object_id: None,
                            arguments: None,
                            silent: given.silent,
                            return_by_value: if given.return_by_value is Some {
                                given.return_by_value
                            } else {
                                Some(true)
                            },
                            generate_preview: given.generate_preview,
                            user_gesture: given.user_gesture,
                            await_promise: if given.await_promise is Some {
                                given.await_promise
                            } else {
                                Some(true)
                            },
                            execution_context_id: given.context_id,
                            object_group: given.object_group,
                            throw_on_side_effect: None,
                            unique_context_id: given.unique_context_id,
                            serialization_options: given.serialization_options,
                        },
                    ),
                    ReplyView::Evaluated(called),
                ) == comes_to(called)
            }
        }),
{
    reveal_with_fuel(bind, 5);
}

/// An expression that asks for it, and whose value is a function, is submitted again as that
/// function also where no context is set: in the context of the page, which is asked for once.
pub proof fn expression_falls_back_in_the_page(
    page: &Page,
    params: EvaluateParams,
    step: Step<Evaluate, EvaluationResult>,
    context: ExecutionContextId,
    returned: CallFunctionOnReturnsView,
    called: CallFunctionOnReturnsView,
)
    requires
        call_ensures(Page::evaluate, (page, Evaluation::Expression(params)), step),
        params.context_id is None,
        params.eval_as_function_fallback == Some(true),
    ensures
        ({
            let given = params.deep_view();
            let after = remaining(step).asks_context(Some(context)).sends(
                evaluation_in(given, Some(context)),
                ReplyView::Evaluated(returned),
            );
            if returned.exception_details is Some || returned.result.kind
                != RemoteObjectType::Function {
                after == comes_to(returned)
            } else {
                after.sends(
                    CommandView::CallFunctionOn(
                        CallFunctionOnParamsView {
                            function_declaration: given.expression,
                            object_id: None,
                            arguments: None,
                            silent: given.silent,
                            return_by_value: if given.return_by_value is Some {
                                given.return_by_value
                            } else {
                                Some(true)
                            },
                            generate_preview: given.generate_preview,
                            user_gesture: given.user_gesture,
                            await_promise: if given.await_promise is Some {
                                given.await_promise
                            } else {
                                Some(true)
                            },
                            execution_context_id: Some(context),
                            object_group: given.object_group,
                            throw_on_side_effect: None,
                            unique_context_id: given.unique_context_id,
                            serialization_options: given.serialization_options,
                        },
                    ),
                    ReplyView::Evaluated(called),
                ) == comes_to(called)
            }
        }),
{
    reveal_with_fuel(bind, 5);
}

/// An expression that is given by its text alone is evaluated with nothing else set: the page
/// waits for a promise and returns the value.
pub proof fn text_is_evaluated_alone(
    expression: &str,
    step: Step<Evaluate, EvaluationResult>,
    context: ExecutionContextId,
    returned: CallFunctionOnReturnsView,
)
    requires
        call_ensures(evaluate_text, (expression,), step),
    ensures
        remaining(step).asks_context(Some(context)).sends(
            CommandView::Evaluate(
                EvaluateParamsView {
                    expression: expression@,
                    object_group: None,
                    include_command_line_api: None,
                    silent: None,
                    context_id: Some(context),
                    return_by_value: Some(true),
                    generate_preview: None,
                    user_gesture: None,
                    await_promise: Some(true),
                    throw_on_side_effect: None,
                    timeout: None,
                    disable_breaks: None,
                    repl_mode: None,
                    allow_unsafe_eval_blocked_by_csp: None,
                    unique_context_id: None,
                    serialization_options: None,
                    eval_as_function_fallback: None,
                },
            ),
            ReplyView::Evaluated(returned),
        ) == comes_to(returned),
{
    reveal_with_fuel(bind, 5);
}

/// What a session evaluates it evaluates as the page does.
pub proof fn session_evaluates_as_the_page(
    page: &Page,
    expression: EvaluateParams,
    function: CallFunctionOnParams,
    of_page: Step<EvaluateExpression, EvaluationResult>,
    of_tab: Step<EvaluateExpression, EvaluationResult>,
    called_by_page: Step<EvaluateFunction, EvaluationResult>,
    called_by_tab: Step<EvaluateFunction, EvaluationResult>,
)
    requires
        call_ensures(Page::evaluate_expression, (page, expression), of_page),
        call_ensures(PageInner::evaluate_expression, (&page.inner, expression), of_tab),
        call_ensures(Page::evaluate_function, (page, function), called_by_page),
        call_ensures(PageInner::evaluate_function, (&page.inner, function), called_by_tab),
    ensures
        remaining(of_page) == remaining(of_tab),
        remaining(called_by_page) == remaining(called_by_tab),
{
    broadcast use same_is_equal;

}

/// A function that is called on an object is called on that very object, without arguments,
/// and what the browser returns is yielded as it is.
pub proof fn function_is_called_on_the_object(
    tab: &PageInner,
    function_declaration: String,
    await_promise: bool,
    remote_object_id: RemoteObjectId,
    step: Step<Await<CallFunctionOnReturns>, CallFunctionOnReturns>,
    returned: CallFunctionOnReturnsView,
)
    requires
        call_ensures(
            PageInner::call_js_fn,
            (tab, function_declaration, await_promise, remote_object_id),
            step,
        ),
    ensures
        remaining(step).sends(
            CommandView::CallFunctionOn(
                CallFunctionOnParamsView {
                    function_declaration: function_declaration@,
                    object_id: Some(remote_object_id.0@),
                    arguments: None,
                    silent: None,
                    return_by_value: None,
                    generate_preview: Some(true),
                    user_gesture: None,
                    await_promise: Some(await_promise),
                    execution_context_id: None,
                    object_group: None,
                    throw_on_side_effect: None,
                    unique_context_id: None,
                    serialization_options: None,
                },
            ),
            ReplyView::Evaluated(returned),
        ) == done(returned),
{
}

} // verus!
