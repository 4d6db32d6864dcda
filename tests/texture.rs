use raw_window_handle::{RawWindowHandle, XlibWindowHandle};
use fltk_egui::texture::{rgba_bytes, retained_image_from_rgba};
use fltk_egui::{tex_handle_from_color32_slice, tex_handle_from_u8_slice, tex_handle_from_vec_color32, tex_handle_from_vec_u8};

#[test]
fn colors_flatten_in_order() {
    let bytes = rgba_bytes(&[[1, 2, 3, 4], [5, 6, 7, 8]]);
    assert_eq!(bytes, vec![1, 2, 3, 4, 5, 6, 7, 8]);
    assert!(rgba_bytes(&[]).is_empty());
}

#[test]
fn textures_have_their_size() {
    let ctx = egui::Context::default();
    let colors: Vec<[u8; 4]> = vec![[255, 0, 0, 255]; 6];
    assert_eq!(tex_handle_from_vec_color32(&ctx, "a", colors.clone(), [3, 2]).size(), [3, 2]);
    assert_eq!(tex_handle_from_color32_slice(&ctx, "b", &colors, [2, 3]).size(), [2, 3]);
    let bytes: Vec<u8> = vec![7; 16];
    assert_eq!(tex_handle_from_u8_slice(&ctx, "c", &bytes, [4, 1]).size(), [4, 1]);
    assert_eq!(tex_handle_from_vec_u8(&ctx, "d", bytes, [2, 2]).size(), [2, 2]);
}

#[test]
fn textures_have_their_name() {
    let ctx = egui::Context::default();
    let colors: Vec<[u8; 4]> = vec![[0, 0, 255, 255]; 2];
    assert_eq!(tex_handle_from_vec_color32(&ctx, "first", colors.clone(), [2, 1]).name(), "first");
    assert_eq!(tex_handle_from_color32_slice(&ctx, "second", &colors, [1, 2]).name(), "second");
    assert_eq!(tex_handle_from_u8_slice(&ctx, "third", &[1u8; 4], [1, 1]).name(), "third");
    assert_eq!(tex_handle_from_vec_u8(&ctx, "fourth", vec![1u8; 4], [1, 1]).name(), "fourth");
}

#[test]
fn retained_image_has_its_size() {
    let image = retained_image_from_rgba("e", [1, 2], &[0u8; 8]);
    assert_eq!(image.size(), [1, 2]);
    assert_eq!(image.debug_name(), "e");
}

#[test]
fn config_template_builds() {
    let handle = RawWindowHandle::Xlib(XlibWindowHandle::empty());
    let template = fltk_egui::display::config_template(glutin::config::Api::OPENGL, handle);
    drop(template);
}
