//! Render-target images and the editor viewport: image sizes and pixel
//! buffers, and the decisions of the render and editor plugins.
use vstd::prelude::*;

verus! {

/// The size of a texture: width and height in pixels, and the number of
/// layers.
#[derive(Clone, Copy, Debug, PartialEq, Eq, Structural)]
pub struct ImageExtent {
    pub width: u32,
    pub height: u32,
    pub depth_or_array_layers: u32,
}

/// Bytes per pixel of an RGBA8 image.
pub const RGBA8_PIXEL_BYTES: usize = 4;

/// The size of a new render-target image: 1920 by 1080, one layer.
pub fn quick_new_extent() -> (e: ImageExtent)
    ensures
        e == (ImageExtent { width: 1920, height: 1080, depth_or_array_layers: 1 }),
{
    ImageExtent { width: 1920, height: 1080, depth_or_array_layers: 1 }
}

/// The size of an image resized to `width` by `height`: one layer.
pub fn resized_extent(width: u32, height: u32) -> (e: ImageExtent)
    ensures
        e == (ImageExtent { width, height, depth_or_array_layers: 1 }),
{
    ImageExtent { width, height, depth_or_array_layers: 1 }
}

/// A zeroed RGBA8 pixel buffer for `width` by `height` pixels: four bytes a
/// pixel, all zero. The pixel count must fit in `u32`, as the resize computes
/// it there.
pub fn rgba8_pixel_buffer(width: u32, height: u32) -> (data: Vec<u8>)
    requires
        width * height <= u32::MAX,
        width * height * 4 <= usize::MAX,
    ensures
        data.len() == width * height * 4,
        forall|i: int| 0 <= i < data.len() ==> data[i] == 0,
{
    let pixel_count = (width * height) as usize;
    vec![0u8; pixel_count * RGBA8_PIXEL_BYTES]
}

/// What resizing an image does: its new size and its new, zeroed pixel data.
pub fn resize_and_reallocate_pixels(width: u32, height: u32) -> (r: (ImageExtent, Vec<u8>))
    requires
        width * height <= u32::MAX,
        width * height * 4 <= usize::MAX,
    ensures
        r.0 == (ImageExtent { width, height, depth_or_array_layers: 1 }),
        r.1.len() == width * height * 4,
        forall|i: int| 0 <= i < r.1.len() ==> r.1[i] == 0,
{
    (resized_extent(width, height), rgba8_pixel_buffer(width, height))
}

/// What the editor does with a camera marked for an egui viewport.
#[derive(Clone, Copy, Debug, PartialEq, Eq, Structural)]
pub struct ViewportActions {
    /// Register the camera's image with egui and give the camera a viewport
    /// state holding the texture.
    pub register_texture: bool,
    /// Take the marker off, so the camera is handled once.
    pub remove_marker: bool,
}

/// A camera that renders to an image gets an egui texture; every marked
/// camera loses its marker, image or not.
pub fn viewport_actions(renders_to_image: bool) -> (a: ViewportActions)
    ensures
        a.register_texture == renders_to_image,
        a.remove_marker,
{
    ViewportActions { register_texture: renders_to_image, remove_marker: true }
}

/// What building the editor plugin adds to an app.
#[derive(Clone, Copy, Debug, PartialEq, Eq, Structural)]
pub struct EditorPlan {
    pub add_egui: bool,
    pub add_render: bool,
}

/// The egui and render plugins are added only where the app lacks them.
pub fn editor_plan(egui_added: bool, render_added: bool) -> (plan: EditorPlan)
    ensures
        plan.add_egui == !egui_added,
        plan.add_render == !render_added,
{
    EditorPlan { add_egui: !egui_added, add_render: !render_added }
}

} // verus!
