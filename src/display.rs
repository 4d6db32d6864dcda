//! The OpenGL config template that the backend asks the context library for.

use vstd::prelude::*;

use glutin::config::{Api, ConfigSurfaceTypes, ConfigTemplate, ConfigTemplateBuilder};
use raw_window_handle::RawWindowHandle;

verus! {

#[verifier::external_type_specification]
#[verifier::external_body]
pub struct ExApi(Api);

#[verifier::external_type_specification]
#[verifier::external_body]
pub struct ExConfigSurfaceTypes(ConfigSurfaceTypes);

#[verifier::external_type_specification]
#[verifier::external_body]
pub struct ExConfigTemplate(ConfigTemplate);

#[verifier::external_type_specification]
#[verifier::external_body]
pub struct ExConfigTemplateBuilder(ConfigTemplateBuilder);

#[verifier::external_type_specification]
#[verifier::external_body]
pub struct ExRawWindowHandle(RawWindowHandle);

/// Relies on glutin's ConfigTemplateBuilder::new: a builder with the default
/// template.
#[verifier::external_body]
fn template_builder() -> (r: ConfigTemplateBuilder) {
    ConfigTemplateBuilder::new()
}

/// The alpha bits that a config template builder asks for.
pub uninterp spec fn builder_alpha(b: ConfigTemplateBuilder) -> u8;

/// The window that a config template builder asks a config to draw to.
pub uninterp spec fn builder_window(b: ConfigTemplateBuilder) -> Option<RawWindowHandle>;

/// The bits of the surface kinds that a config template builder asks for.
pub uninterp spec fn builder_surface_types(b: ConfigTemplateBuilder) -> u8;

/// The bits of a set of surface kinds.
pub uninterp spec fn surface_type_bits(t: ConfigSurfaceTypes) -> u8;

/// The alpha bits that a config template asks for.
pub uninterp spec fn template_alpha(t: ConfigTemplate) -> u8;

/// The window that a config template asks a config to draw to.
pub uninterp spec fn template_window(t: ConfigTemplate) -> Option<RawWindowHandle>;

/// The bits of the surface kinds that a config template asks for.
pub uninterp spec fn template_surface_types(t: ConfigTemplate) -> u8;

/// The bit of the window surface kind.
pub const SURFACE_WINDOW: u8 = 0b0000_0001;

/// Relies on glutin's ConfigTemplateBuilder::with_alpha_size: sets the alpha
/// bits asked for and keeps the rest of the template.
#[verifier::external_body]
fn with_alpha_size(b: ConfigTemplateBuilder, alpha_size: u8) -> (r: ConfigTemplateBuilder)
    ensures
        builder_alpha(r) == alpha_size,
        builder_window(r) == builder_window(b),
        builder_surface_types(r) == builder_surface_types(b),
{
    b.with_alpha_size(alpha_size)
}

/// Relies on glutin's ConfigTemplateBuilder::compatible_with_native_window:
/// sets the window that the config must draw to and keeps the rest of the
/// template.
#[verifier::external_body]
fn compatible_with_native_window(b: ConfigTemplateBuilder, native_window: RawWindowHandle) -> (r: ConfigTemplateBuilder)
    ensures
        builder_window(r) == Some(native_window),
        builder_alpha(r) == builder_alpha(b),
        builder_surface_types(r) == builder_surface_types(b),
{
    b.compatible_with_native_window(native_window)
}

/// Relies on glutin's ConfigSurfaceTypes::WINDOW: the window surface kind
/// alone, bit `0b001`.
#[verifier::external_body]
fn window_surface_type() -> (r: ConfigSurfaceTypes)
    ensures
        surface_type_bits(r) == SURFACE_WINDOW,
{
    ConfigSurfaceTypes::WINDOW
}

/// Relies on glutin's ConfigTemplateBuilder::with_surface_type: sets the
/// surface kinds asked for and keeps the rest of the template.
#[verifier::external_body]
fn with_surface_type(b: ConfigTemplateBuilder, types: ConfigSurfaceTypes) -> (r: ConfigTemplateBuilder)
    ensures
        builder_surface_types(r) == surface_type_bits(types),
        builder_alpha(r) == builder_alpha(b),
        builder_window(r) == builder_window(b),
{
    b.with_surface_type(types)
}

/// Relies on glutin's ConfigTemplateBuilder::build: hands out the template
/// as built.
#[verifier::external_body]
fn build_template(b: ConfigTemplateBuilder) -> (r: ConfigTemplate)
    ensures
        template_alpha(r) == builder_alpha(b),
        template_window(r) == builder_window(b),
        template_surface_types(r) == builder_surface_types(b),
{
    b.build()
}

/// The alpha bits that the config template asks for.
pub const ALPHA_SIZE: u8 = 8;

/// The template of an OpenGL config with an 8-bit alpha channel that can
/// draw to the given window, through window surfaces only. Any graphics API
/// is accepted: the template does not depend on `_api`.
pub fn config_template(_api: Api, raw_window_handle: RawWindowHandle) -> (r: ConfigTemplate)
    ensures
        template_alpha(r) == ALPHA_SIZE,
        template_window(r) == Some(raw_window_handle),
        template_surface_types(r) == SURFACE_WINDOW,
{
    let b = template_builder();
    let b = with_alpha_size(b, ALPHA_SIZE);
    let b = compatible_with_native_window(b, raw_window_handle);
    let b = with_surface_type(b, window_surface_type());
    build_template(b)
}

} // verus!
