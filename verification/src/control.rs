//! Input delivery: structured host-side input events and their lowering
//! to the exact native entry point and arguments.
//!
//! Delivering input is fire-and-forget: the caller lowers an event here,
//! then makes the one native call the result names.  Nothing comes back
//! from the engine, so the whole contract is which call is made with
//! which values.

use crate::boundary::{nul_free, to_foreign, BoundaryError, ForeignBuffer};
use vstd::prelude::*;

verus! {

/// A rectangle in surface coordinates, as native IME geometry callbacks
/// report it.
#[derive(Debug, Clone, Copy, PartialEq, Eq, Structural)]
pub struct Rect {
    pub x: i32,
    pub y: i32,
    pub width: i32,
    pub height: i32,
}

#[derive(Debug, Clone, Copy, PartialEq, Eq, Structural)]
pub enum MouseButtons {
    Left,
    Right,
    Middle,
}

/// The modifier key held during a keyboard event; `Plain` when none is.
#[derive(Debug, Clone, Copy, PartialEq, Eq, Structural)]
pub enum Modifiers {
    Plain,
    Shift,
    Ctrl,
    Alt,
    Win,
}

#[derive(Debug, Clone, Copy, PartialEq, Eq, Structural)]
pub enum TouchEventType {
    TouchReleased,
    TouchPressed,
    TouchMoved,
    TouchCancelled,
}

#[derive(Debug, Clone, Copy, PartialEq, Eq, Structural)]
pub enum TouchPointerType {
    Touch,
    Mouse,
    Pen,
    Eraser,
    Unknown,
}

#[derive(Debug, Clone, Copy, PartialEq, Eq, Structural)]
pub struct Position {
    pub x: i32,
    pub y: i32,
}

/// Whether a button or key goes down or comes up.
#[derive(Debug, Clone, Copy, PartialEq, Eq, Structural)]
pub enum ActionState {
    Down,
    Up,
}

impl ActionState {
    /// The flag the native keyboard and click entry points take.
    pub fn is_pressed(self) -> (r: bool)
        ensures
            r == (self == ActionState::Down),
    {
        self == ActionState::Down
    }
}

/// A mouse event as the host sees it: a click (with or without a fresh
/// position), a move, or a wheel turn.
#[derive(Debug, Clone)]
pub enum MouseAction {
    Click(MouseButtons, ActionState, Option<Position>),
    Move(Position),
    Wheel(Position),
}

/// An IME event: a committed composition, or a pre-edit with its caret
/// position.
#[derive(Debug)]
pub enum ImeAction<'a> {
    Composition(&'a str),
    Pre(&'a str, i32, i32),
}

/// One call into a native input entry point, with exactly the arguments
/// the engine will see.  Lowering an event produces one of these; the
/// unverified rim performs it.
#[derive(Debug)]
pub enum InputCall {
    MouseClick { button: MouseButtons, pressed: bool },
    MouseClickAt { button: MouseButtons, pressed: bool, x: i32, y: i32 },
    MouseWheel { x: i32, y: i32 },
    MouseMove { x: i32, y: i32 },
    Keyboard { scan_code: u32, pressed: bool, modifiers: Modifiers },
    Touch { id: i32, x: i32, y: i32, kind: TouchEventType, pointer: TouchPointerType },
    ImeComposition { input: ForeignBuffer },
    ImeSetComposition { input: ForeignBuffer, x: i32, y: i32 },
}

/// The native call a mouse event lowers to: a move or wheel carries its
/// position; a click goes to the positioned entry point exactly when the
/// event carries a position.
pub open spec fn mouse_lowering(action: MouseAction) -> InputCall {
    match action {
        MouseAction::Move(p) => InputCall::MouseMove { x: p.x, y: p.y },
        MouseAction::Wheel(p) => InputCall::MouseWheel { x: p.x, y: p.y },
        MouseAction::Click(button, state, pos) => match pos {
            Some(p) => InputCall::MouseClickAt {
                button,
                pressed: state == ActionState::Down,
                x: p.x,
                y: p.y,
            },
            None => InputCall::MouseClick { button, pressed: state == ActionState::Down },
        },
    }
}

/// The native call a keyboard event lowers to.
pub open spec fn keyboard_lowering(scan_code: u32, state: ActionState, modifiers: Modifiers) -> InputCall {
    InputCall::Keyboard { scan_code, pressed: state == ActionState::Down, modifiers }
}

/// The native call a touch event lowers to.
pub open spec fn touch_lowering(
    id: i32,
    x: i32,
    y: i32,
    kind: TouchEventType,
    pointer: TouchPointerType,
) -> InputCall {
    InputCall::Touch { id, x, y, kind, pointer }
}

/// Lowers input events to native input calls.
pub struct Control;

impl Control {
    pub fn on_mouse(action: MouseAction) -> (r: InputCall)
        ensures
            r == mouse_lowering(action),
    {
        match action {
            MouseAction::Move(p) => InputCall::MouseMove { x: p.x, y: p.y },
            MouseAction::Wheel(p) => InputCall::MouseWheel { x: p.x, y: p.y },
            MouseAction::Click(button, state, pos) => match pos {
                Some(p) => InputCall::MouseClickAt {
                    button,
                    pressed: state.is_pressed(),
                    x: p.x,
                    y: p.y,
                },
                None => InputCall::MouseClick { button, pressed: state.is_pressed() },
            },
        }
    }

    pub fn on_keyboard(scan_code: u32, state: ActionState, modifiers: Modifiers) -> (r: InputCall)
        ensures
            r == keyboard_lowering(scan_code, state, modifiers),
    {
        InputCall::Keyboard { scan_code, pressed: state.is_pressed(), modifiers }
    }

    pub fn on_touch(
        id: i32,
        x: i32,
        y: i32,
        kind: TouchEventType,
        pointer: TouchPointerType,
    ) -> (r: InputCall)
        ensures
            r == touch_lowering(id, x, y, kind, pointer),
    {
        InputCall::Touch { id, x, y, kind, pointer }
    }

    /// Lowers an IME event.  The composition text crosses the boundary as
    /// a NUL-terminated buffer, so text whose UTF-8 bytes hold a zero is
    /// rejected rather than sent.
    pub fn on_ime(action: ImeAction<'_>) -> (r: Result<InputCall, BoundaryError>)
        ensures
            action matches ImeAction::Composition(s) ==> {
                &&& (r is Ok <==> nul_free(vstd::utf8::encode_utf8(s@)))
                &&& (r is Ok ==> (r->Ok_0 matches InputCall::ImeComposition { input }
                    && input.wf() && input.content() == vstd::utf8::encode_utf8(s@)))
            },
            action matches ImeAction::Pre(s, px, py) ==> {
                &&& (r is Ok <==> nul_free(vstd::utf8::encode_utf8(s@)))
                &&& (r is Ok ==> (r->Ok_0 matches InputCall::ImeSetComposition { input, x, y }
                    && input.wf() && input.content() == vstd::utf8::encode_utf8(s@)
                    && x == px && y == py))
            },
            r is Err ==> r->Err_0 == BoundaryError::InteriorNul,
    {
        match action {
            ImeAction::Composition(s) => {
                let input = to_foreign(s)?;
                Ok(InputCall::ImeComposition { input })
            },
            ImeAction::Pre(s, x, y) => {
                let input = to_foreign(s)?;
                Ok(InputCall::ImeSetComposition { input, x, y })
            },
        }
    }
}

} // verus!
