use sidex_app::input::{
    file_drop_result, key_down_result, mouse_down_result, next_click_count, wheel_result,
    ImeState, InputResult, KeyCode, KeyboardState, ModifierState, MouseButton, MouseButtons,
};
use std::time::Instant;

#[test]
fn modifier_state_primary() {
    let mac_meta = ModifierState { meta: true, ..Default::default() };
    let ctrl = ModifierState { ctrl: true, ..Default::default() };
    // On macOS the primary accelerator is Cmd (meta).
    assert!(mac_meta.primary_held(true));
    assert!(!ctrl.primary_held(true));
    // Elsewhere it is Ctrl.
    assert!(!mac_meta.primary_held(false));
    assert!(ctrl.primary_held(false));
}

#[test]
fn typed_text_and_chords() {
    let none = ModifierState::empty();
    assert_eq!(
        key_down_result(KeyCode::A, &none, Some("a"), false),
        InputResult::TextInput("a".into())
    );
    let ctrl = ModifierState { ctrl: true, ..Default::default() };
    assert_eq!(
        key_down_result(KeyCode::Equal, &ctrl, None, false),
        InputResult::Command("workbench.action.zoomIn".into())
    );
    assert_eq!(key_down_result(KeyCode::Equal, &ctrl, None, true), InputResult::Unhandled);
    assert_eq!(
        key_down_result(KeyCode::Digit0, &ctrl, None, false),
        InputResult::Command("workbench.action.zoomReset".into())
    );
    assert_eq!(key_down_result(KeyCode::A, &ctrl, Some("a"), false), InputResult::Unhandled);
    assert_eq!(key_down_result(KeyCode::A, &none, Some(""), false), InputResult::Unhandled);
    assert!(!none.any_modifier());
}

#[test]
fn mouse_presses() {
    let none = ModifierState::empty();
    assert_eq!(
        mouse_down_result(MouseButton::Left, &none, 2, false, true),
        InputResult::Command("editor.action.selectWord".into())
    );
    assert_eq!(
        mouse_down_result(MouseButton::Left, &none, 3, false, true),
        InputResult::Command("editor.action.selectLine".into())
    );
    assert_eq!(mouse_down_result(MouseButton::Left, &none, 1, false, true), InputResult::Handled);
    let alt = ModifierState { alt: true, ..Default::default() };
    assert_eq!(
        mouse_down_result(MouseButton::Left, &alt, 1, false, true),
        InputResult::Command("editor.action.addCursorAtClick".into())
    );
    assert_eq!(
        mouse_down_result(MouseButton::Right, &none, 1, false, false),
        InputResult::Command("editor.action.showContextMenu".into())
    );
    assert_eq!(
        mouse_down_result(MouseButton::Back, &none, 1, false, false),
        InputResult::Command("workbench.action.navigateBack".into())
    );
    assert_eq!(
        mouse_down_result(MouseButton::Forward, &none, 1, false, false),
        InputResult::Command("workbench.action.navigateForward".into())
    );
    assert_eq!(
        mouse_down_result(MouseButton::Middle, &none, 1, false, true),
        InputResult::Command("editor.action.pasteFromSelection".into())
    );
    assert_eq!(mouse_down_result(MouseButton::Middle, &none, 1, true, false), InputResult::Handled);
}

#[test]
fn click_counting_cycles() {
    assert_eq!(next_click_count(2, 0, false), 2);
    assert_eq!(next_click_count(0, 1, true), 2);
    assert_eq!(next_click_count(0, 3, true), 1);
    assert_eq!(next_click_count(0, 2, false), 1);
}

#[test]
fn wheel_and_drop() {
    assert_eq!(wheel_result(true, true, true), InputResult::Command("workbench.action.zoomIn".into()));
    assert_eq!(wheel_result(true, true, false), InputResult::Command("workbench.action.zoomOut".into()));
    assert_eq!(wheel_result(false, true, true), InputResult::Handled);
    assert_eq!(
        file_drop_result(&["/tmp/test.rs".to_string()]),
        InputResult::Command("_openFile:/tmp/test.rs".into())
    );
    assert_eq!(file_drop_result(&["/a".to_string(), "/b".to_string()]), InputResult::Handled);
}

#[test]
fn ime_lifecycle() {
    let mut ime = ImeState::default();
    ime.start();
    assert!(ime.composing);
    ime.update("ni", 2);
    assert_eq!(ime.composition_text, "ni");
    assert_eq!(ime.end("\u{4f60}"), InputResult::TextInput("\u{4f60}".into()));
    assert!(!ime.composing);
    assert_eq!(ime.end(""), InputResult::Handled);
}

#[test]
fn keyboard_press_and_release() {
    let mut kb = KeyboardState::default();
    kb.press(KeyCode::A, false, Instant::now());
    kb.press(KeyCode::A, true, Instant::now());
    assert_eq!(kb.pressed_keys, vec![KeyCode::A]);
    assert!(kb.is_pressed(KeyCode::A));
    assert!(matches!(kb.repeat_timer, Some((KeyCode::A, _))));
    kb.release(KeyCode::A);
    assert!(!kb.is_pressed(KeyCode::A));
    assert!(kb.repeat_timer.is_none());
}

#[test]
fn mouse_buttons_bitflags() {
    let mut btns = MouseButtons::empty();
    btns.insert(MouseButtons::from_button(MouseButton::Left));
    btns.insert(MouseButtons::from_button(MouseButton::Right));
    assert!(btns.contains(MouseButtons::from_button(MouseButton::Left)));
    assert!(btns.contains(MouseButtons::from_button(MouseButton::Right)));
    assert!(!btns.contains(MouseButtons::from_button(MouseButton::Middle)));
    btns.remove(MouseButtons::from_button(MouseButton::Left));
    assert!(!btns.contains(MouseButtons::from_button(MouseButton::Left)));
    assert_eq!(btns.bits(), 2);
    assert_eq!(MouseButtons::from_bits_truncate(0xff).bits(), 31);
}

#[test]
fn held_keys_are_listed_once_each() {
    let mut kb = KeyboardState::default();
    kb.press(KeyCode::A, false, Instant::now());
    kb.press(KeyCode::B, false, Instant::now());
    kb.press(KeyCode::A, false, Instant::now());
    assert_eq!(kb.pressed_keys, vec![KeyCode::A, KeyCode::B]);
    kb.release(KeyCode::A);
    assert_eq!(kb.pressed_keys, vec![KeyCode::B]);
    assert!(matches!(kb.repeat_timer, None));
}
