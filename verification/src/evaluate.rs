//! The evaluation of scripts.
use vstd::prelude::*;

use crate::cdp::command::CommandView;
use crate::cdp::convert::as_function;
use crate::cdp::runtime::{
    CallFunctionOnParams, CallFunctionOnReturns, CallFunctionOnReturnsView, EvaluateParams,
    EvaluateParamsView, ExecutionContextId, RemoteObjectType, RemoteObjectView,
};
use crate::flow::{
    bind, chain, done, execute, follows, same_is_equal, second, Await, Chain, Ended, Next, Prog,
    Start, Step,
};
use crate::handler::page::{
    context_for_world, context_or_page_op, evaluate_as_expression, evaluate_as_function,
    evaluate_expression_op, evaluate_function_op, evaluated, or_true, EvaluateExpression,
    EvaluateFunction,
};
use crate::js::{Evaluation, EvaluationResult, EvaluationView};
use crate::laws::{
    asks_first, bind_asks_first, bind_is_associative, done_changes_nothing, only_asks,
};
use crate::protocol::{DomWorldKind, RequestView};

verus! {

/// Evaluates a script. An expression that asks for it, and turns out to be a function, is
/// submitted again as a function.
pub open spec fn evaluate_op(evaluation: EvaluationView) -> Prog<RemoteObjectView> {
    match evaluation {
        EvaluationView::Expression(params) => bind(
            context_or_page_op(params.context_id),
            |context_id: Option<ExecutionContextId>|
                evaluate_with_fallback_op(EvaluateParamsView { context_id, ..params }),
        ),
        EvaluationView::Function(params) => evaluate_function_op(params),
    }
}

/// Evaluates an expression, and submits it again as a function where it asks for that and
/// turns out to be a function.
pub open spec fn evaluate_with_fallback_op(params: EvaluateParamsView) -> Prog<RemoteObjectView> {
    bind(
        evaluate_expression_op(params),
        |object: RemoteObjectView| fallback_op(fallback_of(params), object),
    )
}

/// What is submitted as a function where an expression turns out to be one.
pub open spec fn fallback_of(params: EvaluateParamsView) -> Option<EvaluateParamsView> {
    if params.eval_as_function_fallback == Some(true) {
        Some(params)
    } else {
        None
    }
}

/// Submits an expression as a function, where its value is one.
pub open spec fn fallback_op(
    fallback: Option<EvaluateParamsView>,
    object: RemoteObjectView,
) -> Prog<RemoteObjectView> {
    match fallback {
        Some(params) => if object.kind == RemoteObjectType::Function {
            evaluate_function_op(as_function(params))
        } else {
            done(object)
        },
        None => done(object),
    }
}

/// Evaluates an expression with nothing else set.
pub open spec fn evaluate_text_op(expression: Seq<char>) -> Prog<RemoteObjectView> {
    evaluate_op(EvaluationView::Expression(EvaluateParamsView::of(expression)))
}

/// Evaluates an expression with nothing else set, for its effects.
pub open spec fn run_op(expression: Seq<char>) -> Prog<()> {
    bind(evaluate_text_op(expression), |object: RemoteObjectView| done(()))
}

/// An expression that may have to be submitted again as a function.
pub struct Fallback {
    pub fallback: Option<EvaluateParams>,
}

impl Next for Fallback {
    type Input = EvaluationResult;

    type Rest = EvaluateFunction;

    open spec fn next(self, object: RemoteObjectView) -> Prog<RemoteObjectView> {
        fallback_op(self.fallback.deep_view(), object)
    }
}

impl Start for Fallback {
    fn start(self, result: EvaluationResult) -> (step: Step<EvaluateFunction, EvaluationResult>) {
        if result.object().kind == RemoteObjectType::Function {
            if let Some(params) = self.fallback {
                return evaluate_as_function(CallFunctionOnParams::from(params));
            }
        }
        Step::Done(Ok(result))
    }
}

/// An expression that is evaluated, with a fallback.
pub type EvaluateWithFallback = Chain<EvaluateExpression, Fallback>;

/// An expression, once the context is known.
pub struct InContext {
    pub params: EvaluateParams,
}

impl Next for InContext {
    type Input = Option<ExecutionContextId>;

    type Rest = EvaluateWithFallback;

    open spec fn next(self, context_id: Option<ExecutionContextId>) -> Prog<RemoteObjectView> {
        evaluate_with_fallback_op(EvaluateParamsView { context_id, ..self.params.deep_view() })
    }
}

impl Start for InContext {
    fn start(self, context_id: Option<ExecutionContextId>) -> (step: Step<
        EvaluateWithFallback,
        EvaluationResult,
    >) {
        broadcast use same_is_equal;

        let mut params = self.params;
        params.context_id = context_id;
        let fallback = match params.eval_as_function_fallback {
            Some(true) => Some(params.clone()),
            _ => None,
        };
        assert(fallback.deep_view() == fallback_of(params.deep_view()));
        chain(evaluate_as_expression(params), Fallback { fallback })
    }
}

/// A script that is evaluated.
pub type Evaluate = Chain<Await<Option<ExecutionContextId>>, InContext>;

/// Evaluates a script.
pub fn evaluate_script(evaluation: Evaluation) -> (step: Step<Evaluate, EvaluationResult>)
    ensures
        follows(step, evaluate_op(evaluation.deep_view())),
{
    broadcast use same_is_equal;

    match evaluation {
        Evaluation::Expression(params) => {
            let context: Step<Await<Option<ExecutionContextId>>, Option<ExecutionContextId>> =
                match params.context_id {
                Some(id) => Step::Done(Ok(Some(id))),
                None => context_for_world(None, DomWorldKind::Main),
            };
            chain(context, InContext { params })
        },
        Evaluation::Function(params) => second(
            second::<EvaluateExpression, Fallback>(evaluate_as_function(params)),
        ),
    }
}

/// Evaluates an expression with nothing else set.
pub fn evaluate_text(expression: &str) -> (step: Step<Evaluate, EvaluationResult>)
    ensures
        follows(step, evaluate_text_op(expression@)),
{
    evaluate_script(Evaluation::Expression(EvaluateParams::new(expression.to_owned())))
}

/// Leaves out what an evaluation yields.
pub struct Discard;

impl Next for Discard {
    type Input = EvaluationResult;

    type Rest = Ended<()>;

    open spec fn next(self, object: RemoteObjectView) -> Prog<()> {
        done(())
    }
}

impl Start for Discard {
    fn start(self, result: EvaluationResult) -> (step: Step<Ended<()>, ()>) {
        Step::Done(Ok(()))
    }
}

/// Evaluates an expression with nothing else set, for its effects.
pub fn run(expression: &str) -> (step: Step<Chain<Evaluate, Discard>, ()>)
    ensures
        follows(step, run_op(expression@)),
{
    broadcast use same_is_equal;

    chain(evaluate_text(expression), Discard)
}

// What holds whatever the browser answers.

/// An expression that does not ask for the fallback is evaluated as an expression, in the
/// context that is set or that of the page, and nothing else.
pub proof fn without_fallback_it_is_an_expression(params: EvaluateParamsView)
    requires
        params.eval_as_function_fallback != Some(true),
    ensures
        evaluate_op(EvaluationView::Expression(params)) == bind(
            context_or_page_op(params.context_id),
            |context_id: Option<ExecutionContextId>|
                evaluate_expression_op(EvaluateParamsView { context_id, ..params }),
        ),
{
    let with_fallback = |context_id: Option<ExecutionContextId>|
        evaluate_with_fallback_op(EvaluateParamsView { context_id, ..params });
    let without = |context_id: Option<ExecutionContextId>|
        evaluate_expression_op(EvaluateParamsView { context_id, ..params });
    assert forall|context_id: Option<ExecutionContextId>| #[trigger]
        with_fallback(context_id) == without(context_id) by {
        let sent = EvaluateParamsView { context_id, ..params };
        done_changes_nothing(evaluate_expression_op(sent));
        assert((|object: RemoteObjectView| fallback_op(fallback_of(sent), object)) =~= (|
            object: RemoteObjectView,
        | done(object)));
    }
    assert(with_fallback =~= without);
}

/// Whether a request submits a function.
pub open spec fn calls_function(request: RequestView) -> bool {
    request matches RequestView::Command(command) && command is CallFunctionOn
}

/// Whether a request submits an expression.
pub open spec fn evaluates(request: RequestView) -> bool {
    request matches RequestView::Command(command) && command is Evaluate
}

/// As [`expression_comes_first`], once the context was looked up.
proof fn expression_comes_first_in(params: EvaluateParamsView)
    ensures
        asks_first(
            evaluate_with_fallback_op(params),
            |request: RequestView| evaluates(request),
            |request: RequestView| calls_function(request),
        ),
{
    let first = |request: RequestView| evaluates(request);
    let second = |request: RequestView| calls_function(request);
    let submit = |context_id: Option<ExecutionContextId>|
        bind(
            execute::<CallFunctionOnReturns>(
                CommandView::Evaluate(
                    EvaluateParamsView {
                        context_id,
                        await_promise: or_true(params.await_promise),
                        return_by_value: or_true(params.return_by_value),
                        ..params
                    },
                ),
            ),
            |returned: CallFunctionOnReturnsView| evaluated(returned),
        );
    let fall_back = |object: RemoteObjectView| fallback_op(fallback_of(params), object);
    let both = |context_id: Option<ExecutionContextId>| bind(submit(context_id), fall_back);
    let context = context_or_page_op(params.context_id);
    bind_is_associative(context, submit, fall_back);
    reveal_with_fuel(bind, 3);
    reveal_with_fuel(only_asks, 2);
    assert forall|context_id: Option<ExecutionContextId>|
        asks_first(#[trigger] both(context_id), first, second) by {
    }
    bind_asks_first(context, both, first, second);
}

/// An expression is submitted as a function only after it was evaluated as an expression.
pub proof fn expression_comes_first(params: EvaluateParamsView)
    ensures
        asks_first(
            evaluate_op(EvaluationView::Expression(params)),
            |request: RequestView| evaluates(request),
            |request: RequestView| calls_function(request),
        ),
{
    let first = |request: RequestView| evaluates(request);
    let second = |request: RequestView| calls_function(request);
    reveal_with_fuel(only_asks, 2);
    let go_on = |context_id: Option<ExecutionContextId>|
        evaluate_with_fallback_op(EvaluateParamsView { context_id, ..params });
    assert forall|context_id: Option<ExecutionContextId>|
        asks_first(#[trigger] go_on(context_id), first, second) by {
        expression_comes_first_in(EvaluateParamsView { context_id, ..params });
    }
    bind_asks_first(context_or_page_op(params.context_id), go_on, first, second);
}

} // verus!
