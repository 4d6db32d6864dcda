use fltk_egui::cursor::{CursorIcon, HostCursor};
use fltk_egui::input::{
    input_to_egui, modifiers_from_state, translate_mouse_button, EguiState, HostEvent, InputEvent,
    Modifiers, MouseButton, Point, PointerButton, WheelDirection, STATE_ALT, STATE_CTRL,
    STATE_META, STATE_SHIFT,
};
use fltk_egui::keys::Key;

const COMMAND: i32 = STATE_CTRL;

fn state() -> EguiState {
    EguiState::new(800, 600, COMMAND)
}

fn command() -> Modifiers {
    modifiers_from_state(STATE_CTRL, COMMAND)
}

fn is_key(e: &InputEvent, k: Key, down: bool) -> bool {
    matches!(e, InputEvent::Key { key, pressed, .. } if *key == k && *pressed == down)
}

#[test]
fn new_state_is_empty() {
    let mut s = state();
    assert_eq!(s.canvas_size, [800, 600]);
    assert_eq!(s.scroll_factor, 12);
    assert_eq!(s.zoom_factor, 8);
    assert_eq!(s.pointer_pos, Point { x: 0, y: 0 });
    assert!(s.events.is_empty());
    assert!(!s.window_resized());
}

#[test]
fn resize_records_size_and_flag() {
    let mut s = state();
    s.fuse_input(HostEvent::Resize { width: 1024, height: 768 });
    assert_eq!(s.canvas_size, [1024, 768]);
    assert!(s.events.is_empty());
    assert!(s.window_resized());
    assert!(!s.window_resized());
    // Points are pixels over the scale: the screen is 819.2 by 614.4 at 1.25.
    let ppp: f32 = 1.25;
    assert!((s.canvas_size[0] as f32 / ppp - 819.2).abs() < 1e-3);
    assert!((s.canvas_size[1] as f32 / ppp - 614.4).abs() < 1e-3);
}

#[test]
fn zoom_with_control() {
    let mut s = state();
    input_to_egui(HostEvent::MouseWheel { ctrl: true, direction: WheelDirection::Up }, &mut s);
    input_to_egui(HostEvent::MouseWheel { ctrl: true, direction: WheelDirection::Down }, &mut s);
    let events = s.take_events();
    assert_eq!(events.len(), 2);
    match events[0] {
        InputEvent::Zoom { delta } => {
            assert_eq!(delta, -8);
            let factor = (delta as f32 / 200.0).exp();
            assert!((factor - 0.960_789_4).abs() < 1e-5);
        }
        _ => panic!("expected a zoom"),
    }
    assert!(matches!(events[1], InputEvent::Zoom { delta: 8 }));
    assert!(s.events.is_empty());
}

#[test]
fn scroll_without_control() {
    let mut s = state();
    s.fuse_input(HostEvent::MouseWheel { ctrl: false, direction: WheelDirection::Up });
    s.fuse_input(HostEvent::MouseWheel { ctrl: false, direction: WheelDirection::Down });
    s.fuse_input(HostEvent::MouseWheel { ctrl: false, direction: WheelDirection::Left });
    assert_eq!(s.events.len(), 2);
    assert!(matches!(s.events[0], InputEvent::Scroll { dy: -12 }));
    assert!(matches!(s.events[1], InputEvent::Scroll { dy: 12 }));
}

#[test]
fn paste_with_clipboard_text() {
    let mut s = state();
    assert!(s.wants_clipboard('v' as i32, STATE_CTRL));
    s.fuse_input(HostEvent::KeyUp { key: 'v' as i32, state: STATE_CTRL, clipboard: Some("hello".to_string()) });
    assert_eq!(s.events.len(), 1);
    assert!(matches!(&s.events[0], InputEvent::Text(t) if t == "hello"));
}

#[test]
fn paste_with_empty_clipboard() {
    let mut s = state();
    s.fuse_input(HostEvent::KeyUp { key: 'v' as i32, state: STATE_CTRL, clipboard: Some(String::new()) });
    s.fuse_input(HostEvent::KeyUp { key: 'v' as i32, state: STATE_CTRL, clipboard: None });
    assert!(s.events.is_empty());
    assert_eq!(s.modifiers, command());
}

#[test]
fn plain_v_release_does_not_paste() {
    let mut s = state();
    assert!(!s.wants_clipboard('v' as i32, 0));
    assert!(!s.wants_clipboard('c' as i32, STATE_CTRL));
    s.fuse_input(HostEvent::KeyUp { key: 'v' as i32, state: 0, clipboard: Some("hello".to_string()) });
    assert!(s.events.is_empty());
}

#[test]
fn copy_shortcut() {
    let mut s = state();
    s.fuse_input(HostEvent::KeyDown { key: 'c' as i32, state: STATE_CTRL, text: None });
    assert_eq!(s.events.len(), 2);
    assert!(is_key(&s.events[0], Key::C, true));
    assert!(matches!(s.events[1], InputEvent::Copy));
}

#[test]
fn cut_shortcut() {
    let mut s = state();
    s.fuse_input(HostEvent::KeyDown { key: 'x' as i32, state: STATE_CTRL, text: None });
    assert_eq!(s.events.len(), 2);
    assert!(is_key(&s.events[0], Key::X, true));
    assert!(matches!(s.events[1], InputEvent::Cut));
}

#[test]
fn plain_key_press_and_release() {
    let mut s = state();
    s.fuse_input(HostEvent::KeyDown { key: 'c' as i32, state: 0, text: Some("c".to_string()) });
    assert_eq!(s.events.len(), 3);
    assert!(matches!(&s.events[0], InputEvent::Text(t) if t == "c"));
    assert!(is_key(&s.events[1], Key::C, true));
    assert!(is_key(&s.events[2], Key::C, false));
}

#[test]
fn unknown_key_only_types() {
    let mut s = state();
    s.fuse_input(HostEvent::KeyDown { key: '!' as i32, state: STATE_SHIFT, text: Some("!".to_string()) });
    assert_eq!(s.events.len(), 1);
    assert!(!s.modifiers.shift);
}

#[test]
fn modifiers_from_bits() {
    let m = modifiers_from_state(STATE_ALT | STATE_SHIFT | STATE_META, COMMAND);
    assert!(m.alt && m.shift && m.mac_cmd);
    assert!(!m.ctrl && !m.command);
    let mac = modifiers_from_state(STATE_META, STATE_META);
    assert!(mac.command && mac.mac_cmd && !mac.ctrl);
}

#[test]
fn pointer_moves_then_presses() {
    let mut s = state();
    s.fuse_input(HostEvent::Move { x: 10, y: 20 });
    s.fuse_input(HostEvent::Drag { x: 11, y: 21 });
    s.fuse_input(HostEvent::Push { button: MouseButton::Left });
    s.fuse_input(HostEvent::Released { button: MouseButton::Right });
    s.fuse_input(HostEvent::Push { button: MouseButton::Back });
    assert_eq!(s.pointer_pos, Point { x: 11, y: 21 });
    assert_eq!(s.events.len(), 4);
    assert!(matches!(s.events[0], InputEvent::PointerMoved(Point { x: 10, y: 20 })));
    assert!(matches!(
        s.events[2],
        InputEvent::PointerButton { pos: Point { x: 11, y: 21 }, button: PointerButton::Primary, pressed: true, .. }
    ));
    assert!(matches!(
        s.events[3],
        InputEvent::PointerButton { button: PointerButton::Secondary, pressed: false, .. }
    ));
}

#[test]
fn mouse_buttons_translate() {
    assert_eq!(translate_mouse_button(MouseButton::Left), Some(PointerButton::Primary));
    assert_eq!(translate_mouse_button(MouseButton::Middle), Some(PointerButton::Middle));
    assert_eq!(translate_mouse_button(MouseButton::Right), Some(PointerButton::Secondary));
    assert_eq!(translate_mouse_button(MouseButton::Forward), None);
}

#[test]
fn other_events_are_ignored() {
    let mut s = state();
    s.fuse_input(HostEvent::Other);
    assert!(s.events.is_empty());
    assert!(!s.window_resized());
}

#[test]
fn output_copies_and_sets_cursor_once() {
    let mut s = state();
    let (copy, cursor) = s.fuse_output("text".to_string(), CursorIcon::Text);
    assert_eq!(copy.as_deref(), Some("text"));
    assert_eq!(cursor, Some(HostCursor::Insert));
    let (copy, cursor) = s.fuse_output(String::new(), CursorIcon::Text);
    assert_eq!(copy, None);
    assert_eq!(cursor, None);
    assert_eq!(s.fuse_output_borrow("x", CursorIcon::Default), (true, Some(HostCursor::Arrow)));
    assert_eq!(s.fuse_output_borrow("", CursorIcon::Default), (false, None));
}
