use webview::control::{
    ActionState, Control, ImeAction, InputCall, Modifiers, MouseAction, MouseButtons, Position,
    TouchEventType, TouchPointerType,
};

#[test]
fn action_state_pressed_flag() {
    assert!(ActionState::Down.is_pressed());
    assert!(!ActionState::Up.is_pressed());
}

#[test]
fn mouse_move_lowers_to_move_call() {
    let c = Control::on_mouse(MouseAction::Move(Position { x: 10, y: -3 }));
    assert!(matches!(c, InputCall::MouseMove { x: 10, y: -3 }));
}

#[test]
fn mouse_wheel_lowers_to_wheel_call() {
    let c = Control::on_mouse(MouseAction::Wheel(Position { x: 0, y: 120 }));
    assert!(matches!(c, InputCall::MouseWheel { x: 0, y: 120 }));
}

#[test]
fn positioned_click_takes_the_positioned_entry_point() {
    let c = Control::on_mouse(MouseAction::Click(
        MouseButtons::Left,
        ActionState::Down,
        Some(Position { x: 5, y: 6 }),
    ));
    assert!(matches!(
        c,
        InputCall::MouseClickAt { button: MouseButtons::Left, pressed: true, x: 5, y: 6 }
    ));
}

#[test]
fn positionless_click_takes_the_plain_entry_point() {
    let c = Control::on_mouse(MouseAction::Click(MouseButtons::Right, ActionState::Up, None));
    assert!(matches!(c, InputCall::MouseClick { button: MouseButtons::Right, pressed: false }));
}

#[test]
fn keyboard_lowers_scan_code_state_and_modifiers() {
    let c = Control::on_keyboard(30, ActionState::Down, Modifiers::Ctrl);
    assert!(matches!(
        c,
        InputCall::Keyboard { scan_code: 30, pressed: true, modifiers: Modifiers::Ctrl }
    ));
}

#[test]
fn touch_lowers_all_fields() {
    let c = Control::on_touch(2, 40, 50, TouchEventType::TouchMoved, TouchPointerType::Pen);
    assert!(matches!(
        c,
        InputCall::Touch {
            id: 2,
            x: 40,
            y: 50,
            kind: TouchEventType::TouchMoved,
            pointer: TouchPointerType::Pen
        }
    ));
}

#[test]
fn ime_composition_carries_the_text() {
    let c = Control::on_ime(ImeAction::Composition("你好")).unwrap();
    match c {
        InputCall::ImeComposition { input } => {
            let mut expected = "你好".as_bytes().to_vec();
            expected.push(0);
            assert_eq!(input.as_bytes().as_slice(), expected.as_slice());
        }
        _ => panic!("expected a composition call"),
    }
}

#[test]
fn ime_preedit_carries_text_and_caret() {
    let c = Control::on_ime(ImeAction::Pre("ab", 7, 8)).unwrap();
    match c {
        InputCall::ImeSetComposition { input, x, y } => {
            assert_eq!(input.as_bytes().as_slice(), b"ab\0");
            assert_eq!((x, y), (7, 8));
        }
        _ => panic!("expected a pre-edit call"),
    }
}

#[test]
fn ime_text_with_interior_nul_is_rejected() {
    assert!(Control::on_ime(ImeAction::Composition("a\0b")).is_err());
}
