//! Scripts and what they evaluate to.
use vstd::prelude::*;

use crate::cdp::runtime::{
    CallFunctionOnParams, CallFunctionOnParamsView, EvaluateParams, EvaluateParamsView,
    RemoteObject, RemoteObjectView,
};
use crate::error::{CdpError, ErrorView};
use crate::flow::result_view;
use crate::json::{bytes_of, json_bytes, json_error, json_string, string_of, Json};

verus! {

/// A script: an expression to evaluate, or a function to call.
#[derive(Debug, PartialEq, Eq)]
pub enum Evaluation {
    Expression(EvaluateParams),
    Function(CallFunctionOnParams),
}

/// The contents of an [`Evaluation`].
pub enum EvaluationView {
    Expression(EvaluateParamsView),
    Function(CallFunctionOnParamsView),
}

impl DeepView for Evaluation {
    type V = EvaluationView;

    open spec fn deep_view(&self) -> EvaluationView {
        match self {
            Evaluation::Expression(params) => EvaluationView::Expression(params.deep_view()),
            Evaluation::Function(params) => EvaluationView::Function(params.deep_view()),
        }
    }
}

/// What a script evaluated to.
#[derive(Debug, PartialEq, Eq)]
pub struct EvaluationResult {
    pub inner: RemoteObject,
}

impl DeepView for EvaluationResult {
    type V = RemoteObjectView;

    open spec fn deep_view(&self) -> RemoteObjectView {
        self.inner.deep_view()
    }
}

impl EvaluationResult {
    /// The object that the page shows.
    pub fn object(&self) -> (object: &RemoteObject)
        ensures
            object.deep_view() == self.deep_view(),
    {
        &self.inner
    }

    /// The value itself, where it was returned.
    pub fn value(&self) -> (value: Option<&Json>)
        ensures
            value.deep_view() == self.deep_view().value,
    {
        match &self.inner.value {
            Some(json) => Some(json),
            None => None,
        }
    }

    /// The value, which has to be a text.
    pub fn into_string(self) -> (text: Result<String, CdpError>)
        ensures
            result_view(text) == string_result(self.deep_view().value),
    {
        match &self.inner.value {
            Some(json) => string_or_error(string_of(json)),
            None => Err(CdpError::Serde(json_error("No value found"))),
        }
    }

    /// The value, which has to be a text or a list of bytes, as bytes.
    pub fn into_bytes(self) -> (contents: Result<Vec<u8>, CdpError>)
        ensures
            result_view(contents) == bytes_result(self.deep_view().value),
    {
        match &self.inner.value {
            Some(json) => {
                let contents = bytes_of(json);
                proof {
                    if contents is Ok {
                        assert(contents->Ok_0.deep_view() =~= contents->Ok_0@);
                    }
                }
                bytes_or_error(contents)
            },
            None => Err(CdpError::Serde(json_error("No value found"))),
        }
    }
}

/// The text that a value denotes.
pub open spec fn string_result(value: Option<Seq<char>>) -> Result<Seq<char>, ErrorView> {
    match value {
        Some(json) => match json_string(json) {
            Some(text) => Ok(text),
            None => Err(ErrorView::Serde),
        },
        None => Err(ErrorView::Serde),
    }
}

/// The bytes that a value denotes.
pub open spec fn bytes_result(value: Option<Seq<char>>) -> Result<Seq<u8>, ErrorView> {
    match value {
        Some(json) => match json_bytes(json) {
            Some(contents) => Ok(contents),
            None => Err(ErrorView::Serde),
        },
        None => Err(ErrorView::Serde),
    }
}

/// A text, or the error of the JSON parser.
pub fn string_or_error(text: Result<String, serde_json::Error>) -> (result: Result<
    String,
    CdpError,
>)
    ensures
        match text {
            Ok(t) => result == Ok::<String, CdpError>(t),
            Err(error) => result == Err::<String, CdpError>(CdpError::Serde(error)),
        },
{
    match text {
        Ok(t) => Ok(t),
        Err(error) => Err(CdpError::Serde(error)),
    }
}

/// Bytes, or the error of the JSON parser.
pub fn bytes_or_error(contents: Result<Vec<u8>, serde_json::Error>) -> (result: Result<
    Vec<u8>,
    CdpError,
>)
    ensures
        match contents {
            Ok(b) => result == Ok::<Vec<u8>, CdpError>(b),
            Err(error) => result == Err::<Vec<u8>, CdpError>(CdpError::Serde(error)),
        },
{
    match contents {
        Ok(b) => Ok(b),
        Err(error) => Err(CdpError::Serde(error)),
    }
}

/// Arguments of a call, each in double quotes, with commas between them.
pub open spec fn quoted_arguments(arguments: Seq<Seq<char>>) -> Seq<char>
    decreases arguments.len(),
{
    if arguments.len() == 0 {
        seq![]
    } else if arguments.len() == 1 {
        "\""@ + arguments[0] + "\""@
    } else {
        quoted_arguments(arguments.drop_last()) + ",\""@ + arguments.last() + "\""@
    }
}

/// The expression that calls a function with texts as arguments.
pub open spec fn call_expression(function: Seq<char>, arguments: Seq<Seq<char>>) -> Seq<char> {
    "("@ + function + ")("@ + quoted_arguments(arguments) + ")"@
}

/// The expression `(<function>)("<argument>","<argument>")`. Nothing in an argument is
/// escaped.
pub fn evaluation_string(function: &str, arguments: &Vec<String>) -> (expression: String)
    ensures
        expression@ == call_expression(function@, arguments.deep_view()),
{
    let ghost all = arguments.deep_view();
    let mut expression = String::new();
    expression.append("(");
    expression.append(function);
    expression.append(")(");
    let ghost head = expression@;
    assert(head =~= "("@ + function@ + ")("@);
    let mut i: usize = 0;
    assert(head + quoted_arguments(all.take(0)) =~= head);
    while i < arguments.len()
        invariant
            i <= arguments@.len(),
            all == arguments.deep_view(),
            expression@ == head + quoted_arguments(all.take(i as int)),
        decreases arguments@.len() - i,
    {
        if i > 0 {
            expression.append(",\"");
        } else {
            expression.append("\"");
        }
        expression.append(arguments[i].as_str());
        expression.append("\"");
        i = i + 1;
        assert(all.take(i as int).drop_last() =~= all.take(i - 1));
        assert(expression@ =~= head + quoted_arguments(all.take(i as int)));
    }
    expression.append(")");
    assert(all.take(i as int) =~= all);
    expression
}

} // verus!
