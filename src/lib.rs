//! An FLTK backend for egui: translation of the host toolkit's input events,
//! key codes and cursors into the GUI engine's input records, texture loading
//! helpers, and the OpenGL config template.

pub mod cursor;
pub mod display;
pub mod input;
pub mod keys;
pub mod texture;

pub use cursor::{translate_cursor, CursorIcon, FusedCursor, HostCursor};
pub use display::config_template;
pub use input::{input_to_egui, EguiState, HostEvent, InputEvent, Modifiers};
pub use keys::{translate_virtual_key_code, Key};
pub use texture::{
    tex_handle_from_color32_slice, tex_handle_from_u8_slice, tex_handle_from_vec_color32,
    tex_handle_from_vec_u8,
};
