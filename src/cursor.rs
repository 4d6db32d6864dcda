//! Translation of the GUI engine's cursor requests into host cursors, applied
//! to the host window only when the cursor changes.

use vstd::prelude::*;

verus! {

/// The cursor icons that the GUI engine asks for.
#[derive(Clone, Copy, Debug, PartialEq, Eq, Structural)]
pub enum CursorIcon {
    Default,
    /// No cursor is shown.
    Hidden,
    ContextMenu,
    Help,
    PointingHand,
    Progress,
    Wait,
    Cell,
    Crosshair,
    Text,
    VerticalText,
    Alias,
    Copy,
    Move,
    NoDrop,
    NotAllowed,
    Grab,
    Grabbing,
    AllScroll,
    ResizeHorizontal,
    ResizeNeSw,
    ResizeNwSe,
    ResizeVertical,
    ZoomIn,
    ZoomOut,
}

/// The cursors of the host window.
#[derive(Clone, Copy, Debug, PartialEq, Eq, Structural)]
pub enum HostCursor {
    Default,
    Arrow,
    Cross,
    Wait,
    Insert,
    Hand,
    Help,
    Move,
    NS,
    WE,
    NWSE,
    NESW,
    N,
    NE,
    E,
    SE,
    S,
    SW,
    W,
    NW,
    /// No cursor is shown.
    Hidden,
}

/// The host cursor that stands for an engine cursor icon; the arrow for
/// icons that the host has no cursor for.
pub open spec fn host_cursor_for(icon: CursorIcon) -> HostCursor {
    match icon {
        CursorIcon::Hidden => HostCursor::Hidden,
        CursorIcon::Default => HostCursor::Arrow,
        CursorIcon::Help => HostCursor::Help,
        CursorIcon::PointingHand => HostCursor::Hand,
        CursorIcon::ResizeHorizontal => HostCursor::WE,
        CursorIcon::ResizeNeSw => HostCursor::NESW,
        CursorIcon::ResizeNwSe => HostCursor::NWSE,
        CursorIcon::ResizeVertical => HostCursor::NS,
        CursorIcon::Text => HostCursor::Insert,
        CursorIcon::Crosshair => HostCursor::Cross,
        CursorIcon::NotAllowed | CursorIcon::NoDrop => HostCursor::Wait,
        CursorIcon::Wait => HostCursor::Wait,
        CursorIcon::Progress => HostCursor::Wait,
        CursorIcon::Grab => HostCursor::Hand,
        CursorIcon::Grabbing => HostCursor::Move,
        CursorIcon::Move => HostCursor::Move,
        _ => HostCursor::Arrow,
    }
}

/// The cursor last applied to the host window.
pub struct FusedCursor {
    pub cursor_icon: HostCursor,
}

/// The fused cursor after a request for `icon`, and the cursor to apply to
/// the host window, if it changed.
pub open spec fn cursor_step(fused: FusedCursor, icon: CursorIcon) -> (FusedCursor, Option<HostCursor>) {
    let c = host_cursor_for(icon);
    if c == fused.cursor_icon {
        (fused, None)
    } else {
        (FusedCursor { cursor_icon: c }, Some(c))
    }
}

impl FusedCursor {
    /// A fused cursor that holds the arrow.
    pub fn new() -> (r: Self)
        ensures
            r.cursor_icon == HostCursor::Arrow,
    {
        FusedCursor { cursor_icon: HostCursor::Arrow }
    }
}

impl Default for FusedCursor {
    fn default() -> (r: Self)
        ensures
            r.cursor_icon == HostCursor::Arrow,
    {
        Self::new()
    }
}

/// Translates the engine's cursor request into a host cursor and records it.
/// Returns the cursor that the host window must be set to, or `None` where it
/// already shows that cursor.
pub fn translate_cursor(fused: &mut FusedCursor, cursor_icon: CursorIcon) -> (r: Option<HostCursor>)
    ensures
        (*final(fused), r) == cursor_step(*old(fused), cursor_icon),
        final(fused).cursor_icon == host_cursor_for(cursor_icon),
{
    let tmp_icon = match cursor_icon {
        CursorIcon::Hidden => HostCursor::Hidden,
        CursorIcon::Default => HostCursor::Arrow,
        CursorIcon::Help => HostCursor::Help,
        CursorIcon::PointingHand => HostCursor::Hand,
        CursorIcon::ResizeHorizontal => HostCursor::WE,
        CursorIcon::ResizeNeSw => HostCursor::NESW,
        CursorIcon::ResizeNwSe => HostCursor::NWSE,
        CursorIcon::ResizeVertical => HostCursor::NS,
        CursorIcon::Text => HostCursor::Insert,
        CursorIcon::Crosshair => HostCursor::Cross,
        CursorIcon::NotAllowed | CursorIcon::NoDrop => HostCursor::Wait,
        CursorIcon::Wait => HostCursor::Wait,
        CursorIcon::Progress => HostCursor::Wait,
        CursorIcon::Grab => HostCursor::Hand,
        CursorIcon::Grabbing => HostCursor::Move,
        CursorIcon::Move => HostCursor::Move,
        _ => HostCursor::Arrow,
    };
    if tmp_icon != fused.cursor_icon {
        fused.cursor_icon = tmp_icon;
        Some(tmp_icon)
    } else {
        None
    }
}

/// The number of host "set cursor" calls that a sequence of cursor requests
/// makes, starting from `fused`.
pub open spec fn set_calls(fused: FusedCursor, icons: Seq<CursorIcon>) -> nat
    decreases icons.len(),
{
    if icons.len() == 0 {
        0
    } else {
        let (next, applied) = cursor_step(fused, icons[0]);
        (if applied is Some { 1nat } else { 0nat }) + set_calls(next, icons.drop_first())
    }
}

/// Requesting the same cursor icon twice in a row sets the host cursor at
/// most once: the second request finds the cursor in place.
pub proof fn lemma_cursor_request_idempotent(fused: FusedCursor, icon: CursorIcon)
    ensures
        cursor_step(cursor_step(fused, icon).0, icon).1 is None,
        cursor_step(cursor_step(fused, icon).0, icon).0 == cursor_step(fused, icon).0,
        set_calls(fused, seq![icon, icon]) <= 1,
{
    let s2 = seq![icon, icon];
    assert(s2.drop_first() =~= seq![icon]);
    assert(s2.drop_first().drop_first() =~= Seq::<CursorIcon>::empty());
    reveal_with_fuel(set_calls, 3);
}

} // verus!
