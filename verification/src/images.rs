//! Pictures decoded with the `image` crate: the main window's icon and the
//! size of the splash logo, and the splash screen's duration.

use vstd::prelude::*;

verus! {

/// Result of decoding ICO bytes with `image::load_from_memory_with_format`
/// and converting them to 8-bit RGBA: the pixels row by row, the width and
/// the height; `None` when the bytes are not a readable ICO image.
pub uninterp spec fn ico_rgba(bytes: Seq<u8>) -> Option<(Seq<u8>, u32, u32)>;

/// Result of `image::load_from_memory` (format guessed from the bytes)
/// followed by `dimensions`: the width and the height; `None` when the bytes
/// are not a readable image.
pub uninterp spec fn image_dimensions(bytes: Seq<u8>) -> Option<(u32, u32)>;

/// Decodes ICO bytes with `image::load_from_memory_with_format` and
/// converts the picture to RGBA with `to_rgba8`, whose buffer holds four
/// bytes per pixel.
#[verifier::external_body]
fn decode_ico_rgba(bytes: &[u8]) -> (img: Option<(Vec<u8>, u32, u32)>)
    ensures
        match img {
            Some((rgba, w, h)) => ico_rgba(bytes@) == Some((rgba@, w, h)) && rgba@.len() == 4 * (w as int)
                * (h as int),
            None => ico_rgba(bytes@) is None,
        },
{
    match image::load_from_memory_with_format(bytes, image::ImageFormat::Ico) {
        Ok(img) => {
            let rgba = img.to_rgba8();
            let (w, h) = rgba.dimensions();
            Some((rgba.into_raw(), w, h))
        },
        Err(_) => None,
    }
}

/// Decodes image bytes with `image::load_from_memory` and reads their size
/// with `GenericImageView::dimensions`.
#[verifier::external_body]
fn decode_dimensions(bytes: &[u8]) -> (size: Option<(u32, u32)>)
    ensures
        size == image_dimensions(bytes@),
{
    match image::load_from_memory(bytes) {
        Ok(img) => Some(image::GenericImageView::dimensions(&img)),
        Err(_) => None,
    }
}

/// An RGBA picture: four bytes per pixel, row by row.
pub struct IconRgba {
    pub rgba: Vec<u8>,
    pub width: u32,
    pub height: u32,
}

/// The main window's icon, decoded from the bundled ICO bytes; `None` when
/// they are not a readable ICO image.
pub fn main_window_icon(ico_bytes: &[u8]) -> (icon: Option<IconRgba>)
    ensures
        match icon {
            Some(i) => ico_rgba(ico_bytes@) == Some((i.rgba@, i.width, i.height)) && i.rgba@.len() == 4
                * (i.width as int) * (i.height as int),
            None => ico_rgba(ico_bytes@) is None,
        },
{
    match decode_ico_rgba(ico_bytes) {
        Some((rgba, width, height)) => Some(IconRgba { rgba, width, height }),
        None => None,
    }
}

/// The size of the bundled splash logo, in pixels; `None` when the bytes
/// are not a readable image. The window size is scaled from it.
pub fn splash_logo_size(png_bytes: &[u8]) -> (size: Option<(u32, u32)>)
    ensures
        size == image_dimensions(png_bytes@),
{
    decode_dimensions(png_bytes)
}

/// How long the splash screen stays, in milliseconds.
pub const SPLASH_MILLIS: u64 = 5000;

/// Whether the splash screen is over after `elapsed_millis` milliseconds:
/// it shows for five seconds.
pub fn splash_finished(elapsed_millis: u64) -> (done: bool)
    ensures
        done == (elapsed_millis >= SPLASH_MILLIS),
{
    elapsed_millis >= SPLASH_MILLIS
}

} // verus!
