//! The input state that collects one frame of translated host events, and the
//! dispatcher that feeds it.

use vstd::prelude::*;

use crate::cursor::{cursor_step, translate_cursor, CursorIcon, FusedCursor, HostCursor};
use crate::keys::{key_for_code, translate_virtual_key_code, Key};

verus! {

/// Bit of the host's keyboard state: a shift key is down.
pub const STATE_SHIFT: i32 = 0x0001_0000;
/// Bit of the host's keyboard state: a control key is down.
pub const STATE_CTRL: i32 = 0x0004_0000;
/// Bit of the host's keyboard state: an alt key is down.
pub const STATE_ALT: i32 = 0x0008_0000;
/// Bit of the host's keyboard state: a meta key is down.
pub const STATE_META: i32 = 0x0040_0000;

/// Lines scrolled by one wheel step, until changed.
pub const DEFAULT_SCROLL_FACTOR: u32 = 12;
/// Zoom step of one wheel step with control held, until changed.
pub const DEFAULT_ZOOM_FACTOR: u32 = 8;

/// The mouse buttons that the host reports.
#[derive(Clone, Copy, Debug, PartialEq, Eq, Structural)]
pub enum MouseButton {
    Left,
    Middle,
    Right,
    Back,
    Forward,
}

/// The direction of a host mouse wheel event.
#[derive(Clone, Copy, Debug, PartialEq, Eq, Structural)]
pub enum WheelDirection {
    Still,
    Right,
    Left,
    Up,
    Down,
}

/// The pointer buttons that the GUI engine knows.
#[derive(Clone, Copy, Debug, PartialEq, Eq, Structural)]
pub enum PointerButton {
    Primary,
    Secondary,
    Middle,
}

/// The modifier keys held down.
#[derive(Clone, Copy, Debug, PartialEq, Eq, Structural)]
pub struct Modifiers {
    pub alt: bool,
    pub ctrl: bool,
    pub shift: bool,
    pub mac_cmd: bool,
    /// The platform's shortcut modifier.
    pub command: bool,
}

/// A position on the host window, in host pixels.
#[derive(Clone, Copy, Debug, PartialEq, Eq, Structural)]
pub struct Point {
    pub x: i32,
    pub y: i32,
}

/// A translated event, as the GUI engine takes it. Positions are in host
/// pixels; dividing by the window's pixels per point gives engine points.
#[derive(Debug)]
pub enum InputEvent {
    Copy,
    Cut,
    Text(String),
    Key { key: Key, pressed: bool, modifiers: Modifiers },
    PointerMoved(Point),
    PointerButton { pos: Point, button: PointerButton, pressed: bool, modifiers: Modifiers },
    /// A scroll of `dy` lines; negative is up.
    Scroll { dy: i64 },
    /// A zoom by the factor `exp(delta / 200)`.
    Zoom { delta: i64 },
}

/// A host event, with what the host reports alongside it.
#[derive(Debug)]
pub enum HostEvent {
    Resize { width: i32, height: i32 },
    Push { button: MouseButton },
    Released { button: MouseButton },
    Move { x: i32, y: i32 },
    Drag { x: i32, y: i32 },
    /// A key release; `clipboard` holds the clipboard's text where it was read.
    KeyUp { key: i32, state: i32, clipboard: Option<String> },
    /// A key press; `text` holds the character that the host composed, if any.
    KeyDown { key: i32, state: i32, text: Option<String> },
    MouseWheel { ctrl: bool, direction: WheelDirection },
    Other,
}

/// The engine's pointer button for a host mouse button.
pub open spec fn button_for(b: MouseButton) -> Option<PointerButton> {
    match b {
        MouseButton::Left => Some(PointerButton::Primary),
        MouseButton::Middle => Some(PointerButton::Middle),
        MouseButton::Right => Some(PointerButton::Secondary),
        _ => None,
    }
}

/// The modifiers held in a host keyboard state; `command_mask` holds the bits
/// of the platform's shortcut modifier.
pub open spec fn modifiers_of(state: i32, command_mask: i32) -> Modifiers {
    Modifiers {
        alt: state & STATE_ALT == STATE_ALT,
        ctrl: state & STATE_CTRL == STATE_CTRL,
        shift: state & STATE_SHIFT == STATE_SHIFT,
        mac_cmd: state & STATE_META == STATE_META,
        command: state & command_mask == command_mask,
    }
}

/// The events of a key press: the press, then a copy or cut request for the
/// shortcuts, else the matching release.
///
/// The release is synthesized at once because the host does not deliver an
/// independent release on this path. This is a workaround for the host, not
/// a property of the engine's input: a consumer that tracks held keys sees
/// every non-shortcut key as released in the same frame.
pub open spec fn key_down_events(key: Key, m: Modifiers) -> Seq<InputEvent> {
    let down = InputEvent::Key { key, pressed: true, modifiers: m };
    if m.command && key == Key::C {
        seq![down, InputEvent::Copy]
    } else if m.command && key == Key::X {
        seq![down, InputEvent::Cut]
    } else {
        seq![down, InputEvent::Key { key, pressed: false, modifiers: m }]
    }
}

/// Whether a key release with these modifiers is the paste shortcut.
pub open spec fn is_paste(key: Key, m: Modifiers) -> bool {
    m.command && key == Key::V
}

/// The events of a key release: the clipboard's text, for the paste shortcut
/// and a clipboard that holds some.
pub open spec fn key_up_events(key: Key, m: Modifiers, clipboard: Option<String>) -> Seq<InputEvent> {
    match clipboard {
        Some(t) => if is_paste(key, m) && t@.len() > 0 {
            seq![InputEvent::Text(t)]
        } else {
            seq![]
        },
        None => seq![],
    }
}

/// The event of a mouse wheel step: a zoom with control held, else a scroll;
/// up and down give opposite signs.
pub open spec fn wheel_events(ctrl: bool, dir: WheelDirection, scroll_factor: u32, zoom_factor: u32) -> Seq<InputEvent> {
    match dir {
        WheelDirection::Up => if ctrl {
            seq![InputEvent::Zoom { delta: (-(zoom_factor as int)) as i64 }]
        } else {
            seq![InputEvent::Scroll { dy: (-(scroll_factor as int)) as i64 }]
        },
        WheelDirection::Down => if ctrl {
            seq![InputEvent::Zoom { delta: zoom_factor as i64 }]
        } else {
            seq![InputEvent::Scroll { dy: scroll_factor as i64 }]
        },
        _ => seq![],
    }
}

/// A wheel step up and a wheel step down give one event each, of the same
/// kind and of opposite signs: a zoom with control held, else a scroll.
pub proof fn lemma_wheel_directions_opposite(ctrl: bool, scroll_factor: u32, zoom_factor: u32)
    ensures
        ({
            let up = wheel_events(ctrl, WheelDirection::Up, scroll_factor, zoom_factor);
            let down = wheel_events(ctrl, WheelDirection::Down, scroll_factor, zoom_factor);
            &&& up.len() == 1 && down.len() == 1
            &&& ctrl ==> (up[0] is Zoom && down[0] is Zoom && up[0]->delta == -down[0]->delta)
            &&& !ctrl ==> (up[0] is Scroll && down[0] is Scroll && up[0]->dy == -down[0]->dy)
        }),
{
}

/// The event of a pointer button going down or up at the pointer.
pub open spec fn button_events(s: EguiState, b: MouseButton, pressed: bool) -> Seq<InputEvent> {
    match button_for(b) {
        Some(button) => seq![InputEvent::PointerButton { pos: s.pointer_pos, button, pressed, modifiers: s.modifiers }],
        None => seq![],
    }
}

/// The events that a host event adds to the queue of state `s`.
pub open spec fn emitted(s: EguiState, e: HostEvent) -> Seq<InputEvent> {
    match e {
        HostEvent::Push { button } => button_events(s, button, true),
        HostEvent::Released { button } => button_events(s, button, false),
        HostEvent::Move { x, y } => seq![InputEvent::PointerMoved(Point { x, y })],
        HostEvent::Drag { x, y } => seq![InputEvent::PointerMoved(Point { x, y })],
        HostEvent::KeyUp { key, state, clipboard } => match key_for_code(key) {
            Some(k) => key_up_events(k, modifiers_of(state, s.command_mask), clipboard),
            None => seq![],
        },
        HostEvent::KeyDown { key, state, text } => {
            let typed = match text {
                Some(t) => seq![InputEvent::Text(t)],
                None => seq![],
            };
            match key_for_code(key) {
                Some(k) => typed + key_down_events(k, modifiers_of(state, s.command_mask)),
                None => typed,
            }
        },
        HostEvent::MouseWheel { ctrl, direction } => wheel_events(ctrl, direction, s.scroll_factor, s.zoom_factor),
        _ => seq![],
    }
}

/// The modifiers after a host event: a key event with a known key reads them
/// afresh.
pub open spec fn modifiers_after(s: EguiState, e: HostEvent) -> Modifiers {
    match e {
        HostEvent::KeyUp { key, state, .. } => if key_for_code(key) is Some {
            modifiers_of(state, s.command_mask)
        } else {
            s.modifiers
        },
        HostEvent::KeyDown { key, state, .. } => if key_for_code(key) is Some {
            modifiers_of(state, s.command_mask)
        } else {
            s.modifiers
        },
        _ => s.modifiers,
    }
}

/// The pointer position after a host event.
pub open spec fn pointer_after(s: EguiState, e: HostEvent) -> Point {
    match e {
        HostEvent::Move { x, y } => Point { x, y },
        HostEvent::Drag { x, y } => Point { x, y },
        _ => s.pointer_pos,
    }
}

/// The canvas size after a host event, in host pixels.
pub open spec fn canvas_after(s: EguiState, e: HostEvent) -> Seq<u32> {
    match e {
        HostEvent::Resize { width, height } => seq![width as u32, height as u32],
        _ => s.canvas_size@,
    }
}

/// How state `s` becomes state `t` on host event `e`.
pub open spec fn dispatched(s: EguiState, t: EguiState, e: HostEvent) -> bool {
    &&& t.events@ == s.events@ + emitted(s, e)
    &&& t.modifiers == modifiers_after(s, e)
    &&& t.pointer_pos == pointer_after(s, e)
    &&& t.canvas_size@ == canvas_after(s, e)
    &&& t.resize_pending == (s.resize_pending || e is Resize)
    &&& t.fuse_cursor == s.fuse_cursor
    &&& t.scroll_factor == s.scroll_factor
    &&& t.zoom_factor == s.zoom_factor
    &&& t.command_mask == s.command_mask
}

/// States `s` and `t` agree on the window, pointer, modifiers and settings.
pub open spec fn same_settings(s: EguiState, t: EguiState) -> bool {
    &&& t.canvas_size == s.canvas_size
    &&& t.modifiers == s.modifiers
    &&& t.pointer_pos == s.pointer_pos
    &&& t.scroll_factor == s.scroll_factor
    &&& t.zoom_factor == s.zoom_factor
    &&& t.command_mask == s.command_mask
}

/// One frame's worth of translated host input.
pub struct EguiState {
    /// Size of the window in host pixels.
    pub canvas_size: [u32; 2],
    pub fuse_cursor: FusedCursor,
    /// Translated events, oldest first.
    pub events: Vec<InputEvent>,
    pub modifiers: Modifiers,
    pub pointer_pos: Point,
    pub scroll_factor: u32,
    pub zoom_factor: u32,
    /// The bits of the host keyboard state that make the platform's shortcut
    /// modifier.
    pub command_mask: i32,
    /// Set by a resize; taken by `window_resized`.
    pub resize_pending: bool,
}

/// The modifiers read from a host keyboard state.
pub fn modifiers_from_state(state: i32, command_mask: i32) -> (r: Modifiers)
    ensures
        r == modifiers_of(state, command_mask),
{
    Modifiers {
        alt: state & STATE_ALT == STATE_ALT,
        ctrl: state & STATE_CTRL == STATE_CTRL,
        shift: state & STATE_SHIFT == STATE_SHIFT,
        mac_cmd: state & STATE_META == STATE_META,
        command: state & command_mask == command_mask,
    }
}

/// The engine's pointer button for a host mouse button, if it has one.
pub fn translate_mouse_button(b: MouseButton) -> (r: Option<PointerButton>)
    ensures
        r == button_for(b),
{
    match b {
        MouseButton::Left => Some(PointerButton::Primary),
        MouseButton::Middle => Some(PointerButton::Middle),
        MouseButton::Right => Some(PointerButton::Secondary),
        _ => None,
    }
}

impl EguiState {
    /// A state for a window of `width` by `height` host pixels, with no
    /// events, no modifiers, the pointer at the origin and the default
    /// scroll and zoom factors.
    pub fn new(width: i32, height: i32, command_mask: i32) -> (r: EguiState)
        ensures
            r.canvas_size@ == seq![width as u32, height as u32],
            r.fuse_cursor.cursor_icon == crate::cursor::HostCursor::Arrow,
            r.events@.len() == 0,
            r.modifiers == (Modifiers { alt: false, ctrl: false, shift: false, mac_cmd: false, command: false }),
            r.pointer_pos == (Point { x: 0, y: 0 }),
            r.scroll_factor == DEFAULT_SCROLL_FACTOR,
            r.zoom_factor == DEFAULT_ZOOM_FACTOR,
            r.command_mask == command_mask,
            !r.resize_pending,
    {
        let canvas_size = [#[verifier::truncate] (width as u32), #[verifier::truncate] (height as u32)];
        assert(canvas_size@ =~= seq![width as u32, height as u32]);
        EguiState {
            canvas_size,
            fuse_cursor: FusedCursor::new(),
            events: Vec::new(),
            modifiers: Modifiers { alt: false, ctrl: false, shift: false, mac_cmd: false, command: false },
            pointer_pos: Point { x: 0, y: 0 },
            scroll_factor: DEFAULT_SCROLL_FACTOR,
            zoom_factor: DEFAULT_ZOOM_FACTOR,
            command_mask,
            resize_pending: false,
        }
    }

    /// Takes the flag that tells whether the window was resized since the
    /// last call.
    pub fn window_resized(&mut self) -> (r: bool)
        ensures
            r == old(self).resize_pending,
            !final(self).resize_pending,
            final(self).events@ == old(self).events@,
            final(self).fuse_cursor == old(self).fuse_cursor,
            same_settings(*old(self), *final(self)),
    {
        let tmp = self.resize_pending;
        self.resize_pending = false;
        tmp
    }

    /// Takes the queued events, oldest first, and leaves the queue empty.
    pub fn take_events(&mut self) -> (r: Vec<InputEvent>)
        ensures
            r@ == old(self).events@,
            final(self).events@.len() == 0,
            final(self).resize_pending == old(self).resize_pending,
            final(self).fuse_cursor == old(self).fuse_cursor,
            same_settings(*old(self), *final(self)),
    {
        let mut taken: Vec<InputEvent> = Vec::new();
        std::mem::swap(&mut taken, &mut self.events);
        taken
    }

    /// Whether a key release with this key code and keyboard state is the
    /// paste shortcut, for which the clipboard's text is wanted.
    pub fn wants_clipboard(&self, key: i32, keymod: i32) -> (r: bool)
        ensures
            r == match key_for_code(key) {
                Some(k) => is_paste(k, modifiers_of(keymod, self.command_mask)),
                None => false,
            },
    {
        match translate_virtual_key_code(key) {
            Some(k) => {
                let modifiers = modifiers_from_state(keymod, self.command_mask);
                modifiers.command && k == Key::V
            },
            None => false,
        }
    }

    /// Takes what the engine put out in a frame: returns the text to place
    /// on the clipboard, where there is some, and the cursor to apply to the
    /// host window, where it changed.
    pub fn fuse_output(&mut self, copied_text: String, cursor_icon: CursorIcon) -> (r: (Option<String>, Option<HostCursor>))
        ensures
            r.0 == (if copied_text@.len() > 0 { Some(copied_text) } else { None::<String> }),
            (final(self).fuse_cursor, r.1) == cursor_step(old(self).fuse_cursor, cursor_icon),
            final(self).events@ == old(self).events@,
            final(self).resize_pending == old(self).resize_pending,
            same_settings(*old(self), *final(self)),
    {
        let copy = if copied_text.as_str().is_empty() {
            None
        } else {
            Some(copied_text)
        };
        let cursor = translate_cursor(&mut self.fuse_cursor, cursor_icon);
        (copy, cursor)
    }

    /// As `fuse_output`, on borrowed text: returns whether the text is to be
    /// placed on the clipboard, and the cursor to apply, where it changed.
    pub fn fuse_output_borrow(&mut self, copied_text: &str, cursor_icon: CursorIcon) -> (r: (bool, Option<HostCursor>))
        ensures
            r.0 == (copied_text@.len() > 0),
            (final(self).fuse_cursor, r.1) == cursor_step(old(self).fuse_cursor, cursor_icon),
            final(self).events@ == old(self).events@,
            final(self).resize_pending == old(self).resize_pending,
            same_settings(*old(self), *final(self)),
    {
        let copy = !copied_text.is_empty();
        let cursor = translate_cursor(&mut self.fuse_cursor, cursor_icon);
        (copy, cursor)
    }

    /// Translates one host event into this state.
    pub fn fuse_input(&mut self, event: HostEvent)
        ensures
            dispatched(*old(self), *final(self), event),
    {
        input_to_egui(event, self);
    }
}

/// Translates one host event: records a resize, the pointer position and the
/// modifiers, and queues the engine events that it stands for. Events that
/// have no translation are ignored.
pub fn input_to_egui(event: HostEvent, state: &mut EguiState)
    ensures
        dispatched(*old(state), *final(state), event),
{
    match event {
        HostEvent::Resize { width, height } => resize(state, width, height),
        HostEvent::Push { button } => pointer_button(state, button, true),
        HostEvent::Released { button } => pointer_button(state, button, false),
        HostEvent::Move { x, y } => {
            pointer_moved(state, x, y);
            assert(emitted(*old(state), event) == emitted(*old(state), HostEvent::Drag { x, y }));
        },
        HostEvent::Drag { x, y } => pointer_moved(state, x, y),
        HostEvent::KeyUp { key, state: keymod, clipboard } => key_up(state, key, keymod, clipboard),
        HostEvent::KeyDown { key, state: keymod, text } => key_down(state, key, keymod, text),
        HostEvent::MouseWheel { ctrl, direction } => mouse_wheel(state, ctrl, direction),
        HostEvent::Other => {
            assert(state.events@ =~= old(state).events@ + emitted(*old(state), event));
        },
    }
}

fn resize(state: &mut EguiState, width: i32, height: i32)
    ensures
        dispatched(*old(state), *final(state), HostEvent::Resize { width, height }),
{
    state.canvas_size = [#[verifier::truncate] (width as u32), #[verifier::truncate] (height as u32)];
    state.resize_pending = true;
    assert(state.canvas_size@ =~= seq![width as u32, height as u32]);
    assert(state.events@ =~= old(state).events@ + emitted(*old(state), HostEvent::Resize { width, height }));
}

fn pointer_button(state: &mut EguiState, button: MouseButton, pressed: bool)
    ensures
        pressed ==> dispatched(*old(state), *final(state), HostEvent::Push { button }),
        !pressed ==> dispatched(*old(state), *final(state), HostEvent::Released { button }),
{
    if let Some(b) = translate_mouse_button(button) {
        state.events.push(InputEvent::PointerButton {
            pos: state.pointer_pos,
            button: b,
            pressed,
            modifiers: state.modifiers,
        });
    }
    assert(state.events@ =~= old(state).events@ + button_events(*old(state), button, pressed));
}

fn pointer_moved(state: &mut EguiState, x: i32, y: i32)
    ensures
        dispatched(*old(state), *final(state), HostEvent::Drag { x, y }),
        dispatched(*old(state), *final(state), HostEvent::Move { x, y }),
{
    state.pointer_pos = Point { x, y };
    state.events.push(InputEvent::PointerMoved(state.pointer_pos));
    assert(state.events@ =~= old(state).events@ + seq![InputEvent::PointerMoved(Point { x, y })]);
}

fn key_up(state: &mut EguiState, key: i32, keymod: i32, clipboard: Option<String>)
    ensures
        dispatched(*old(state), *final(state), HostEvent::KeyUp { key, state: keymod, clipboard }),
{
    let ghost e = HostEvent::KeyUp { key, state: keymod, clipboard };
    if let Some(key) = translate_virtual_key_code(key) {
        state.modifiers = modifiers_from_state(keymod, state.command_mask);
        if state.modifiers.command && key == Key::V {
            if let Some(value) = clipboard {
                if !value.as_str().is_empty() {
                    state.events.push(InputEvent::Text(value));
                }
            }
        }
    }
    assert(state.events@ =~= old(state).events@ + emitted(*old(state), e));
}

/// Queues the composed text and the key's events. The release that follows
/// the press is synthesized as a workaround for the host (see
/// `key_down_events`).
fn key_down(state: &mut EguiState, key: i32, keymod: i32, text: Option<String>)
    ensures
        dispatched(*old(state), *final(state), HostEvent::KeyDown { key, state: keymod, text }),
{
    let ghost e = HostEvent::KeyDown { key, state: keymod, text };
    if let Some(c) = text {
        state.events.push(InputEvent::Text(c));
    }
    let ghost typed = state.events@;
    if let Some(key) = translate_virtual_key_code(key) {
        state.modifiers = modifiers_from_state(keymod, state.command_mask);
        let modifiers = state.modifiers;
        state.events.push(InputEvent::Key { key, pressed: true, modifiers });
        if modifiers.command && key == Key::C {
            state.events.push(InputEvent::Copy);
        } else if modifiers.command && key == Key::X {
            state.events.push(InputEvent::Cut);
        } else {
            state.events.push(InputEvent::Key { key, pressed: false, modifiers });
        }
        assert(state.events@ =~= typed + key_down_events(key, modifiers));
    }
    assert(state.events@ =~= old(state).events@ + emitted(*old(state), e));
}

fn mouse_wheel(state: &mut EguiState, ctrl: bool, direction: WheelDirection)
    ensures
        dispatched(*old(state), *final(state), HostEvent::MouseWheel { ctrl, direction }),
{
    match direction {
        WheelDirection::Up => {
            if ctrl {
                state.events.push(InputEvent::Zoom { delta: -(state.zoom_factor as i64) });
            } else {
                state.events.push(InputEvent::Scroll { dy: -(state.scroll_factor as i64) });
            }
        },
        WheelDirection::Down => {
            if ctrl {
                state.events.push(InputEvent::Zoom { delta: state.zoom_factor as i64 });
            } else {
                state.events.push(InputEvent::Scroll { dy: state.scroll_factor as i64 });
            }
        },
        _ => {},
    }
    assert(state.events@ =~= old(state).events@ + wheel_events(ctrl, direction, old(state).scroll_factor, old(state).zoom_factor));
}

} // verus!
