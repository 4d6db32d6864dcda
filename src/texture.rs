//! Loading of RGBA pixel data into the GUI engine's textures and images.

use vstd::prelude::*;

verus! {

#[verifier::external_type_specification]
#[verifier::external_body]
pub struct ExContext(egui::Context);

#[verifier::external_type_specification]
#[verifier::external_body]
pub struct ExTextureHandle(egui::TextureHandle);

#[verifier::external_type_specification]
#[verifier::external_body]
pub struct ExColorImage(egui::ColorImage);

#[verifier::external_type_specification]
#[verifier::external_body]
pub struct ExRetainedImage(egui_extras::RetainedImage);

/// The pixel size of an image: width, then height.
pub uninterp spec fn image_size(i: egui::ColorImage) -> Seq<usize>;

/// The bytes of an image's pixels, four per pixel, row by row.
pub uninterp spec fn image_bytes(i: egui::ColorImage) -> Seq<u8>;

/// The premultiplied pixel bytes that egui makes of unmultiplied RGBA bytes,
/// four per pixel, each pixel from its own four bytes.
pub uninterp spec fn premultiplied_rgba(rgba: Seq<u8>) -> Seq<u8>;

/// The pixel size that a texture was registered with.
pub uninterp spec fn texture_size(t: egui::TextureHandle) -> Seq<usize>;

/// The debug name that a texture was registered under.
pub uninterp spec fn texture_name(t: egui::TextureHandle) -> Seq<char>;

/// The pixel bytes that a texture was registered with.
pub uninterp spec fn texture_bytes(t: egui::TextureHandle) -> Seq<u8>;

/// The pixel size of a retained image.
pub uninterp spec fn retained_size(i: egui_extras::RetainedImage) -> Seq<usize>;

/// The debug name of a retained image.
pub uninterp spec fn retained_name(i: egui_extras::RetainedImage) -> Seq<char>;

/// The pixel bytes of a retained image.
pub uninterp spec fn retained_bytes(i: egui_extras::RetainedImage) -> Seq<u8>;

/// Relies on egui::ColorImage::from_rgba_unmultiplied: an image of `size`
/// pixels whose pixels egui converts from the bytes, four per pixel; it
/// panics unless the lengths agree.
#[verifier::external_body]
fn color_image(size: [usize; 2], rgba: &[u8]) -> (r: egui::ColorImage)
    requires
        size@[0] * size@[1] * 4 == rgba@.len(),
    ensures
        image_size(r) == size@,
        image_bytes(r) == premultiplied_rgba(rgba@),
{
    egui::ColorImage::from_rgba_unmultiplied(size, rgba)
}

/// Relies on egui::Context::load_texture: registers the image as a new
/// texture under a debug name, with the image's size and pixels, and hands
/// back its handle.
#[verifier::external_body]
fn load_texture(ctx: &egui::Context, debug_name: &str, image: egui::ColorImage) -> (r: egui::TextureHandle)
    ensures
        texture_size(r) == image_size(image),
        texture_name(r) == debug_name@,
        texture_bytes(r) == image_bytes(image),
{
    ctx.load_texture(debug_name, image)
}

/// Relies on egui_extras::RetainedImage::from_color_image: keeps the image
/// and its size under a debug name, for upload on first use.
#[verifier::external_body]
fn retained_image(debug_name: &str, image: egui::ColorImage) -> (r: egui_extras::RetainedImage)
    ensures
        retained_size(r) == image_size(image),
        retained_name(r) == debug_name@,
        retained_bytes(r) == image_bytes(image),
{
    egui_extras::RetainedImage::from_color_image(debug_name, image)
}

/// The bytes of a sequence of RGBA colors, four per color, in order.
pub open spec fn rgba_of(colors: Seq<[u8; 4]>) -> Seq<u8>
    decreases colors.len(),
{
    if colors.len() == 0 {
        Seq::empty()
    } else {
        rgba_of(colors.drop_last()) + colors.last()@
    }
}

proof fn lemma_rgba_len(colors: Seq<[u8; 4]>)
    ensures
        rgba_of(colors).len() == 4 * colors.len(),
    decreases colors.len(),
{
    if colors.len() > 0 {
        lemma_rgba_len(colors.drop_last());
    }
}

/// The bytes of RGBA colors, four per color, in order.
pub fn rgba_bytes(colors: &[[u8; 4]]) -> (r: Vec<u8>)
    requires
        4 * colors@.len() <= usize::MAX,
    ensures
        r@ == rgba_of(colors@),
        r@.len() == 4 * colors@.len(),
{
    let mut pixels: Vec<u8> = Vec::new();
    let mut i: usize = 0;
    while i < colors.len()
        invariant
            i <= colors@.len(),
            pixels@ == rgba_of(colors@.subrange(0, i as int)),
        decreases colors@.len() - i,
    {
        let c = colors[i];
        pixels.push(c[0]);
        pixels.push(c[1]);
        pixels.push(c[2]);
        pixels.push(c[3]);
        proof {
            let next = colors@.subrange(0, i + 1);
            assert(next.drop_last() =~= colors@.subrange(0, i as int));
            assert(next.last() == c);
            assert(pixels@ =~= rgba_of(next));
        }
        i += 1;
    }
    assert(colors@.subrange(0, colors@.len() as int) =~= colors@);
    proof {
        lemma_rgba_len(colors@);
    }
    pixels
}

/// A texture of `size` pixels from RGBA colors, one per pixel, row by row.
pub fn tex_handle_from_vec_color32(
    ctx: &egui::Context,
    debug_name: &str,
    vec: Vec<[u8; 4]>,
    size: [usize; 2],
) -> (r: egui::TextureHandle)
    requires
        size@[0] * size@[1] == vec@.len(),
        4 * vec@.len() <= usize::MAX,
    ensures
        texture_size(r) == size@,
        texture_name(r) == debug_name@,
        texture_bytes(r) == premultiplied_rgba(rgba_of(vec@)),
{
    tex_handle_from_color32_slice(ctx, debug_name, vec.as_slice(), size)
}

/// A texture of `size` pixels from a slice of RGBA colors, one per pixel,
/// row by row.
pub fn tex_handle_from_color32_slice(
    ctx: &egui::Context,
    debug_name: &str,
    slice: &[[u8; 4]],
    size: [usize; 2],
) -> (r: egui::TextureHandle)
    requires
        size@[0] * size@[1] == slice@.len(),
        4 * slice@.len() <= usize::MAX,
    ensures
        texture_size(r) == size@,
        texture_name(r) == debug_name@,
        texture_bytes(r) == premultiplied_rgba(rgba_of(slice@)),
{
    let pixels = rgba_bytes(slice);
    let image = color_image(size, pixels.as_slice());
    load_texture(ctx, debug_name, image)
}

/// A texture of `size` pixels from a slice of bytes, four per pixel (red,
/// green, blue, alpha), row by row.
pub fn tex_handle_from_u8_slice(
    ctx: &egui::Context,
    debug_name: &str,
    slice: &[u8],
    size: [usize; 2],
) -> (r: egui::TextureHandle)
    requires
        size@[0] * size@[1] * 4 == slice@.len(),
    ensures
        texture_size(r) == size@,
        texture_name(r) == debug_name@,
        texture_bytes(r) == premultiplied_rgba(slice@),
{
    let image = color_image(size, slice);
    load_texture(ctx, debug_name, image)
}

/// A texture of `size` pixels from bytes, four per pixel (red, green, blue,
/// alpha), row by row.
pub fn tex_handle_from_vec_u8(
    ctx: &egui::Context,
    debug_name: &str,
    vec: Vec<u8>,
    size: [usize; 2],
) -> (r: egui::TextureHandle)
    requires
        size@[0] * size@[1] * 4 == vec@.len(),
    ensures
        texture_size(r) == size@,
        texture_name(r) == debug_name@,
        texture_bytes(r) == premultiplied_rgba(vec@),
{
    tex_handle_from_u8_slice(ctx, debug_name, vec.as_slice(), size)
}

/// A retained image of `size` pixels from bytes, four per pixel (red, green,
/// blue, alpha), row by row.
pub fn retained_image_from_rgba(debug_name: &str, size: [usize; 2], rgba: &[u8]) -> (r: egui_extras::RetainedImage)
    requires
        size@[0] * size@[1] * 4 == rgba@.len(),
    ensures
        retained_size(r) == size@,
        retained_name(r) == debug_name@,
        retained_bytes(r) == premultiplied_rgba(rgba@),
{
    let image = color_image(size, rgba);
    retained_image(debug_name, image)
}

} // verus!
