//! The `Runtime` domain.
use vstd::prelude::*;

use crate::json::Json;
use crate::number::Num;

verus! {

/// Identifies an object that lives in the page.
#[derive(Debug, PartialEq, Eq)]
pub struct RemoteObjectId(pub String);

impl DeepView for RemoteObjectId {
    type V = Seq<char>;

    open spec fn deep_view(&self) -> Seq<char> {
        self.0@
    }
}

impl Clone for RemoteObjectId {
    fn clone(&self) -> (copy: RemoteObjectId)
        ensures
            copy == *self,
    {
        RemoteObjectId(self.0.clone())
    }
}

/// Identifies a script.
#[derive(Debug, PartialEq, Eq)]
pub struct ScriptId(pub String);

impl DeepView for ScriptId {
    type V = Seq<char>;

    open spec fn deep_view(&self) -> Seq<char> {
        self.0@
    }
}

impl Clone for ScriptId {
    fn clone(&self) -> (copy: ScriptId)
        ensures
            copy == *self,
    {
        ScriptId(self.0.clone())
    }
}

/// Identifies a JavaScript execution context.
#[derive(Clone, Copy, Debug, PartialEq, Eq, Structural)]
pub struct ExecutionContextId(pub i64);

impl DeepView for ExecutionContextId {
    type V = ExecutionContextId;

    open spec fn deep_view(&self) -> ExecutionContextId {
        *self
    }
}

/// The type of a value in the page.
#[derive(Clone, Copy, Debug, PartialEq, Eq, Structural)]
pub enum RemoteObjectType {
    Object,
    Function,
    Undefined,
    String,
    Number,
    Boolean,
    Symbol,
    Bigint,
}

impl DeepView for RemoteObjectType {
    type V = RemoteObjectType;

    open spec fn deep_view(&self) -> RemoteObjectType {
        *self
    }
}

/// A value in the page, as the page shows it to the client.
#[derive(Debug, PartialEq, Eq)]
pub struct RemoteObject {
    pub kind: RemoteObjectType,
    pub subtype: Option<String>,
    pub class_name: Option<String>,
    pub value: Option<Json>,
    pub unserializable_value: Option<String>,
    pub description: Option<String>,
    pub object_id: Option<RemoteObjectId>,
    /// What else the browser says of it, as a JSON object.
    pub details: Json,
}

/// The contents of a [`RemoteObject`].
pub struct RemoteObjectView {
    pub kind: RemoteObjectType,
    pub subtype: Option<Seq<char>>,
    pub class_name: Option<Seq<char>>,
    pub value: Option<Seq<char>>,
    pub unserializable_value: Option<Seq<char>>,
    pub description: Option<Seq<char>>,
    pub object_id: Option<Seq<char>>,
    pub details: Seq<char>,
}

impl DeepView for RemoteObject {
    type V = RemoteObjectView;

    open spec fn deep_view(&self) -> RemoteObjectView {
        RemoteObjectView {
            kind: self.kind,
            subtype: self.subtype.deep_view(),
            class_name: self.class_name.deep_view(),
            value: self.value.deep_view(),
            unserializable_value: self.unserializable_value.deep_view(),
            description: self.description.deep_view(),
            object_id: self.object_id.deep_view(),
            details: self.details.deep_view(),
        }
    }
}

/// An argument of a function call in the page.
#[derive(Debug, PartialEq, Eq)]
pub struct CallArgument {
    pub value: Option<Json>,
    pub unserializable_value: Option<String>,
    pub object_id: Option<RemoteObjectId>,
}

/// The contents of a [`CallArgument`].
pub struct CallArgumentView {
    pub value: Option<Seq<char>>,
    pub unserializable_value: Option<Seq<char>>,
    pub object_id: Option<Seq<char>>,
}

impl DeepView for CallArgument {
    type V = CallArgumentView;

    open spec fn deep_view(&self) -> CallArgumentView {
        CallArgumentView {
            value: self.value.deep_view(),
            unserializable_value: self.unserializable_value.deep_view(),
            object_id: self.object_id.deep_view(),
        }
    }
}

/// Parameters of `Runtime.evaluate`.
#[derive(Debug, PartialEq, Eq)]
pub struct EvaluateParams {
    pub expression: String,
    pub object_group: Option<String>,
    pub include_command_line_api: Option<bool>,
    pub silent: Option<bool>,
    pub context_id: Option<ExecutionContextId>,
    pub return_by_value: Option<bool>,
    pub generate_preview: Option<bool>,
    pub user_gesture: Option<bool>,
    pub await_promise: Option<bool>,
    pub throw_on_side_effect: Option<bool>,
    pub timeout: Option<Num>,
    pub disable_breaks: Option<bool>,
    pub repl_mode: Option<bool>,
    pub allow_unsafe_eval_blocked_by_csp: Option<bool>,
    pub unique_context_id: Option<String>,
    pub serialization_options: Option<Json>,
    /// Submit the statement again as a function where the page took it for one. Not
    /// sent to the page.
    pub eval_as_function_fallback: Option<bool>,
}

/// The contents of a [`EvaluateParams`].
pub struct EvaluateParamsView {
    pub expression: Seq<char>,
    pub object_group: Option<Seq<char>>,
    pub include_command_line_api: Option<bool>,
    pub silent: Option<bool>,
    pub context_id: Option<ExecutionContextId>,
    pub return_by_value: Option<bool>,
    pub generate_preview: Option<bool>,
    pub user_gesture: Option<bool>,
    pub await_promise: Option<bool>,
    pub throw_on_side_effect: Option<bool>,
    pub timeout: Option<Num>,
    pub disable_breaks: Option<bool>,
    pub repl_mode: Option<bool>,
    pub allow_unsafe_eval_blocked_by_csp: Option<bool>,
    pub unique_context_id: Option<Seq<char>>,
    pub serialization_options: Option<Seq<char>>,
    pub eval_as_function_fallback: Option<bool>,
}

impl DeepView for EvaluateParams {
    type V = EvaluateParamsView;

    open spec fn deep_view(&self) -> EvaluateParamsView {
        EvaluateParamsView {
            expression: self.expression.deep_view(),
            object_group: self.object_group.deep_view(),
            include_command_line_api: self.include_command_line_api,
            silent: self.silent,
            context_id: self.context_id,
            return_by_value: self.return_by_value,
            generate_preview: self.generate_preview,
            user_gesture: self.user_gesture,
            await_promise: self.await_promise,
            throw_on_side_effect: self.throw_on_side_effect,
            timeout: self.timeout,
            disable_breaks: self.disable_breaks,
            repl_mode: self.repl_mode,
            allow_unsafe_eval_blocked_by_csp: self.allow_unsafe_eval_blocked_by_csp,
            unique_context_id: self.unique_context_id.deep_view(),
            serialization_options: self.serialization_options.deep_view(),
            eval_as_function_fallback: self.eval_as_function_fallback,
        }
    }
}

/// Parameters of `Runtime.callFunctionOn`.
#[derive(Debug, PartialEq, Eq)]
pub struct CallFunctionOnParams {
    pub function_declaration: String,
    pub object_id: Option<RemoteObjectId>,
    pub arguments: Option<Vec<CallArgument>>,
    pub silent: Option<bool>,
    pub return_by_value: Option<bool>,
    pub generate_preview: Option<bool>,
    pub user_gesture: Option<bool>,
    pub await_promise: Option<bool>,
    pub execution_context_id: Option<ExecutionContextId>,
    pub object_group: Option<String>,
    pub throw_on_side_effect: Option<bool>,
    pub unique_context_id: Option<String>,
    pub serialization_options: Option<Json>,
}

/// The contents of a [`CallFunctionOnParams`].
pub struct CallFunctionOnParamsView {
    pub function_declaration: Seq<char>,
    pub object_id: Option<Seq<char>>,
    pub arguments: Option<Seq<CallArgumentView>>,
    pub silent: Option<bool>,
    pub return_by_value: Option<bool>,
    pub generate_preview: Option<bool>,
    pub user_gesture: Option<bool>,
    pub await_promise: Option<bool>,
    pub execution_context_id: Option<ExecutionContextId>,
    pub object_group: Option<Seq<char>>,
    pub throw_on_side_effect: Option<bool>,
    pub unique_context_id: Option<Seq<char>>,
    pub serialization_options: Option<Seq<char>>,
}

impl DeepView for CallFunctionOnParams {
    type V = CallFunctionOnParamsView;

    open spec fn deep_view(&self) -> CallFunctionOnParamsView {
        CallFunctionOnParamsView {
            function_declaration: self.function_declaration.deep_view(),
            object_id: self.object_id.deep_view(),
            arguments: self.arguments.deep_view(),
            silent: self.silent,
            return_by_value: self.return_by_value,
            generate_preview: self.generate_preview,
            user_gesture: self.user_gesture,
            await_promise: self.await_promise,
            execution_context_id: self.execution_context_id,
            object_group: self.object_group.deep_view(),
            throw_on_side_effect: self.throw_on_side_effect,
            unique_context_id: self.unique_context_id.deep_view(),
            serialization_options: self.serialization_options.deep_view(),
        }
    }
}

/// One frame of a JavaScript stack.
#[derive(Debug, PartialEq, Eq)]
pub struct CallFrame {
    pub function_name: String,
    pub script_id: ScriptId,
    pub url: String,
    pub line_number: i64,
    pub column_number: i64,
}

/// The contents of a [`CallFrame`].
pub struct CallFrameView {
    pub function_name: Seq<char>,
    pub script_id: Seq<char>,
    pub url: Seq<char>,
    pub line_number: i64,
    pub column_number: i64,
}

impl DeepView for CallFrame {
    type V = CallFrameView;

    open spec fn deep_view(&self) -> CallFrameView {
        CallFrameView {
            function_name: self.function_name.deep_view(),
            script_id: self.script_id.deep_view(),
            url: self.url.deep_view(),
            line_number: self.line_number,
            column_number: self.column_number,
        }
    }
}

/// A JavaScript stack.
#[derive(Debug, PartialEq, Eq)]
pub struct StackTrace {
    pub description: Option<String>,
    pub call_frames: Vec<CallFrame>,
    /// What else the browser says of it, as a JSON object.
    pub details: Json,
}

/// The contents of a [`StackTrace`].
pub struct StackTraceView {
    pub description: Option<Seq<char>>,
    pub call_frames: Seq<CallFrameView>,
    pub details: Seq<char>,
}

impl DeepView for StackTrace {
    type V = StackTraceView;

    open spec fn deep_view(&self) -> StackTraceView {
        StackTraceView {
            description: self.description.deep_view(),
            call_frames: self.call_frames.deep_view(),
            details: self.details.deep_view(),
        }
    }
}

/// An exception that a script threw or a compile error.
#[derive(Debug, PartialEq, Eq)]
pub struct ExceptionDetails {
    pub exception_id: i64,
    pub text: String,
    pub line_number: i64,
    pub column_number: i64,
    pub url: Option<String>,
    pub stack_trace: Option<StackTrace>,
    /// What else the browser says of it, as a JSON object.
    pub details: Json,
}

/// The contents of a [`ExceptionDetails`].
pub struct ExceptionDetailsView {
    pub exception_id: i64,
    pub text: Seq<char>,
    pub line_number: i64,
    pub column_number: i64,
    pub url: Option<Seq<char>>,
    pub stack_trace: Option<StackTraceView>,
    pub details: Seq<char>,
}

impl DeepView for ExceptionDetails {
    type V = ExceptionDetailsView;

    open spec fn deep_view(&self) -> ExceptionDetailsView {
        ExceptionDetailsView {
            exception_id: self.exception_id,
            text: self.text.deep_view(),
            line_number: self.line_number,
            column_number: self.column_number,
            url: self.url.deep_view(),
            stack_trace: self.stack_trace.deep_view(),
            details: self.details.deep_view(),
        }
    }
}

/// What `Runtime.callFunctionOn` and `Runtime.evaluate` return.
#[derive(Debug, PartialEq, Eq)]
pub struct CallFunctionOnReturns {
    pub result: RemoteObject,
    pub exception_details: Option<ExceptionDetails>,
}

/// The contents of a [`CallFunctionOnReturns`].
pub struct CallFunctionOnReturnsView {
    pub result: RemoteObjectView,
    pub exception_details: Option<ExceptionDetailsView>,
}

impl DeepView for CallFunctionOnReturns {
    type V = CallFunctionOnReturnsView;

    open spec fn deep_view(&self) -> CallFunctionOnReturnsView {
        CallFunctionOnReturnsView {
            result: self.result.deep_view(),
            exception_details: self.exception_details.deep_view(),
        }
    }
}

/// A property of an object in the page.
#[derive(Debug, PartialEq, Eq)]
pub struct PropertyDescriptor {
    pub name: String,
    /// The whole descriptor.
    pub details: Json,
}

/// The contents of a [`PropertyDescriptor`].
pub struct PropertyDescriptorView {
    pub name: Seq<char>,
    pub details: Seq<char>,
}

impl DeepView for PropertyDescriptor {
    type V = PropertyDescriptorView;

    open spec fn deep_view(&self) -> PropertyDescriptorView {
        PropertyDescriptorView {
            name: self.name.deep_view(),
            details: self.details.deep_view(),
        }
    }
}

} // verus!
