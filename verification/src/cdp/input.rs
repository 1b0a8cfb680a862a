//! The `Input` domain.
use vstd::prelude::*;

use crate::number::Num;

verus! {

/// What the mouse does.
#[derive(Clone, Copy, Debug, PartialEq, Eq, Structural)]
pub enum DispatchMouseEventType {
    MousePressed,
    MouseReleased,
    MouseMoved,
    MouseWheel,
}

impl DeepView for DispatchMouseEventType {
    type V = DispatchMouseEventType;

    open spec fn deep_view(&self) -> DispatchMouseEventType {
        *self
    }
}

/// A button of the mouse.
#[derive(Clone, Copy, Debug, PartialEq, Eq, Structural)]
pub enum MouseButton {
    Unset,
    Left,
    Middle,
    Right,
    Back,
    Forward,
}

impl DeepView for MouseButton {
    type V = MouseButton;

    open spec fn deep_view(&self) -> MouseButton {
        *self
    }
}

/// Parameters of `Input.dispatchMouseEvent`.
#[derive(Clone, Copy, Debug, PartialEq, Eq, Structural)]
pub struct DispatchMouseEventParams {
    pub kind: DispatchMouseEventType,
    pub x: Num,
    pub y: Num,
    pub button: Option<MouseButton>,
    pub click_count: Option<i64>,
}

impl DeepView for DispatchMouseEventParams {
    type V = DispatchMouseEventParams;

    open spec fn deep_view(&self) -> DispatchMouseEventParams {
        *self
    }
}

/// What a key does.
#[derive(Clone, Copy, Debug, PartialEq, Eq, Structural)]
pub enum DispatchKeyEventType {
    KeyDown,
    KeyUp,
    RawKeyDown,
    Char,
}

impl DeepView for DispatchKeyEventType {
    type V = DispatchKeyEventType;

    open spec fn deep_view(&self) -> DispatchKeyEventType {
        *self
    }
}

/// Parameters of `Input.dispatchKeyEvent`.
#[derive(Debug, PartialEq, Eq)]
pub struct DispatchKeyEventParams {
    pub kind: DispatchKeyEventType,
    pub modifiers: Option<i64>,
    pub text: Option<String>,
    pub unmodified_text: Option<String>,
    pub code: Option<String>,
    pub key: Option<String>,
    pub windows_virtual_key_code: Option<i64>,
    pub native_virtual_key_code: Option<i64>,
    pub location: Option<i64>,
}

/// The contents of a [`DispatchKeyEventParams`].
pub struct DispatchKeyEventParamsView {
    pub kind: DispatchKeyEventType,
    pub modifiers: Option<i64>,
    pub text: Option<Seq<char>>,
    pub unmodified_text: Option<Seq<char>>,
    pub code: Option<Seq<char>>,
    pub key: Option<Seq<char>>,
    pub windows_virtual_key_code: Option<i64>,
    pub native_virtual_key_code: Option<i64>,
    pub location: Option<i64>,
}

impl DeepView for DispatchKeyEventParams {
    type V = DispatchKeyEventParamsView;

    open spec fn deep_view(&self) -> DispatchKeyEventParamsView {
        DispatchKeyEventParamsView {
            kind: self.kind,
            modifiers: self.modifiers,
            text: self.text.deep_view(),
            unmodified_text: self.unmodified_text.deep_view(),
            code: self.code.deep_view(),
            key: self.key.deep_view(),
            windows_virtual_key_code: self.windows_virtual_key_code,
            native_virtual_key_code: self.native_virtual_key_code,
            location: self.location,
        }
    }
}

} // verus!
