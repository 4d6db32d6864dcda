use fltk_egui::cursor::{translate_cursor, CursorIcon, FusedCursor, HostCursor};
use fltk_egui::keys::{translate_char, translate_virtual_key_code, Key, KEY_DELETE, KEY_ENTER, KEY_LEFT};

#[test]
fn named_keys_translate() {
    assert_eq!(translate_virtual_key_code(KEY_LEFT), Some(Key::ArrowLeft));
    assert_eq!(translate_virtual_key_code(KEY_ENTER), Some(Key::Enter));
    assert_eq!(translate_virtual_key_code(KEY_DELETE), Some(Key::Delete));
    assert_eq!(translate_virtual_key_code(0xff08), Some(Key::Backspace));
}

#[test]
fn character_keys_translate() {
    assert_eq!(translate_virtual_key_code(' ' as i32), Some(Key::Space));
    assert_eq!(translate_virtual_key_code('a' as i32), Some(Key::A));
    assert_eq!(translate_virtual_key_code('v' as i32), Some(Key::V));
    assert_eq!(translate_virtual_key_code('z' as i32), Some(Key::Z));
    assert_eq!(translate_virtual_key_code('0' as i32), Some(Key::Num0));
    assert_eq!(translate_virtual_key_code('9' as i32), Some(Key::Num9));
}

#[test]
fn unmapped_keys_give_nothing() {
    assert_eq!(translate_virtual_key_code('A' as i32), None);
    assert_eq!(translate_virtual_key_code('!' as i32), None);
    assert_eq!(translate_virtual_key_code(0xD800 + 'a' as i32), None);
    assert_eq!(translate_char(0), None);
}

#[test]
fn unmapped_high_codes_give_nothing() {
    assert_eq!(translate_virtual_key_code(0x0100 + 'c' as i32), None);
    assert_eq!(translate_virtual_key_code(0xff61), None);
    assert_eq!(translate_virtual_key_code(-0x100 + 'a' as i32), None);
}

#[test]
fn key_table_entries_are_distinct() {
    let mut codes: Vec<i32> = vec![0xff51, 0xff52, 0xff53, 0xff54, 0xff1b, 0xff09, 0xff08, 0xff63, 0xff50, 0xffff, 0xff57, 0xff56, 0xff55, 0xff0d, 0x20];
    codes.extend(0x61..=0x7a);
    codes.extend(0x30..=0x39);
    let keys: Vec<Key> = codes.iter().map(|c| translate_virtual_key_code(*c).unwrap()).collect();
    for i in 0..keys.len() {
        for j in 0..keys.len() {
            if i != j {
                assert_ne!(keys[i], keys[j]);
            }
        }
    }
}

#[test]
fn same_cursor_twice_sets_once() {
    let mut fused = FusedCursor::new();
    let mut calls = 0;
    for icon in [CursorIcon::Default, CursorIcon::Default] {
        if translate_cursor(&mut fused, icon).is_some() {
            calls += 1;
        }
    }
    // The arrow is already in place for the default icon.
    assert_eq!(calls, 0);
    for icon in [CursorIcon::Text, CursorIcon::Text, CursorIcon::Default, CursorIcon::Default] {
        if translate_cursor(&mut fused, icon).is_some() {
            calls += 1;
        }
    }
    assert_eq!(calls, 2);
}

#[test]
fn cursor_change_is_reported() {
    let mut fused = FusedCursor::default();
    assert_eq!(fused.cursor_icon, HostCursor::Arrow);
    assert_eq!(translate_cursor(&mut fused, CursorIcon::PointingHand), Some(HostCursor::Hand));
    assert_eq!(fused.cursor_icon, HostCursor::Hand);
    assert_eq!(translate_cursor(&mut fused, CursorIcon::Grab), None);
    assert_eq!(translate_cursor(&mut fused, CursorIcon::Grabbing), Some(HostCursor::Move));
    assert_eq!(translate_cursor(&mut fused, CursorIcon::NoDrop), Some(HostCursor::Wait));
    assert_eq!(translate_cursor(&mut fused, CursorIcon::ResizeNeSw), Some(HostCursor::NESW));
    assert_eq!(translate_cursor(&mut fused, CursorIcon::Hidden), Some(HostCursor::Hidden));
    assert_eq!(translate_cursor(&mut fused, CursorIcon::ZoomIn), Some(HostCursor::Arrow));
}
