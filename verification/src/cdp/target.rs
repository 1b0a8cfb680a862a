//! The `Target` domain.
use vstd::prelude::*;

verus! {

/// Identifies a target: a page, a worker, a frame out of process.
#[derive(Debug, PartialEq, Eq)]
pub struct TargetId(pub String);

impl DeepView for TargetId {
    type V = Seq<char>;

    open spec fn deep_view(&self) -> Seq<char> {
        self.0@
    }
}

impl Clone for TargetId {
    fn clone(&self) -> (copy: TargetId)
        ensures
            copy == *self,
    {
        TargetId(self.0.clone())
    }
}

/// Identifies the session through which a target is driven.
#[derive(Debug, PartialEq, Eq)]
pub struct SessionId(pub String);

impl DeepView for SessionId {
    type V = Seq<char>;

    open spec fn deep_view(&self) -> Seq<char> {
        self.0@
    }
}

impl Clone for SessionId {
    fn clone(&self) -> (copy: SessionId)
        ensures
            copy == *self,
    {
        SessionId(self.0.clone())
    }
}

/// Parameters of `Target.createTarget`.
#[derive(Debug, PartialEq, Eq)]
pub struct CreateTargetParams {
    pub url: String,
    pub width: Option<i64>,
    pub height: Option<i64>,
    pub browser_context_id: Option<String>,
    pub enable_begin_frame_control: Option<bool>,
    pub new_window: Option<bool>,
    pub background: Option<bool>,
}

/// The contents of a [`CreateTargetParams`].
pub struct CreateTargetParamsView {
    pub url: Seq<char>,
    pub width: Option<i64>,
    pub height: Option<i64>,
    pub browser_context_id: Option<Seq<char>>,
    pub enable_begin_frame_control: Option<bool>,
    pub new_window: Option<bool>,
    pub background: Option<bool>,
}

impl DeepView for CreateTargetParams {
    type V = CreateTargetParamsView;

    open spec fn deep_view(&self) -> CreateTargetParamsView {
        CreateTargetParamsView {
            url: self.url.deep_view(),
            width: self.width,
            height: self.height,
            browser_context_id: self.browser_context_id.deep_view(),
            enable_begin_frame_control: self.enable_begin_frame_control,
            new_window: self.new_window,
            background: self.background,
        }
    }
}

} // verus!
