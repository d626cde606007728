//! Decoding one sheet's compressed bytes into render-ready RGBA pixels.
//!
//! The decode itself is done by the `image` crate; its result is a function
//! of the file-name extension and the bytes alone, named here by
//! `decoded_image`. A decode job runs off the main thread: the host reads
//! the sheet's bytes, calls `decode_sheet`, and sends the payload over its
//! channel; a failed read or decode sends nothing.

use vstd::prelude::*;

use crate::cache::DecodedPayload;
use crate::cache::SheetPixels;

verus! {

/// What the `image` crate decodes from `bytes` tagged with the file-name
/// extension `ext`: `None` when the extension names no known format or the
/// bytes do not parse, else the image's width, height and RGBA bytes.
pub uninterp spec fn decoded_image(ext: Seq<char>, bytes: Seq<u8>) -> Option<(u32, u32, Seq<u8>)>;

/// Relies on `image::ImageFormat::from_extension` and
/// `image::load_from_memory_with_format`: both compute from their arguments
/// alone, so the result depends only on `ext` and `bytes`. The RGBA buffer
/// comes from `DynamicImage::to_rgba8`, which holds four bytes per pixel.
#[verifier::external_body]
fn decode_image_bytes(ext: &str, bytes: &Vec<u8>) -> (r: Option<(u32, u32, Vec<u8>)>)
    ensures
        r is Some <==> decoded_image(ext@, bytes@) is Some,
        (r matches Some(t) ==> decoded_image(ext@, bytes@) == Some((t.0, t.1, t.2@))),
        (r matches Some(t) ==> t.2@.len() == t.0 * t.1 * 4),
{
    let format = image::ImageFormat::from_extension(ext)?;
    let img = image::load_from_memory_with_format(bytes, format).ok()?;
    let width = img.width();
    let height = img.height();
    Some((width, height, img.to_rgba8().into_raw()))
}

/// Decode the bytes of sheet `sheet_index` of `video` into a payload for
/// the cache. Returns `Some` exactly when the `image` crate can decode the
/// bytes under the format the extension names.
pub fn decode_sheet(video: usize, sheet_index: usize, ext: &str, bytes: &Vec<u8>) -> (r: Option<
    DecodedPayload,
>)
    ensures
        r is Some <==> decoded_image(ext@, bytes@) is Some,
        r matches Some(p) ==> {
            &&& p.video == video
            &&& p.sheet_index == sheet_index
            &&& decoded_image(ext@, bytes@) == Some(
                (p.pixels.width, p.pixels.height, p.pixels.rgba@),
            )
            &&& p.pixels.wf()
        },
{
    match decode_image_bytes(ext, bytes) {
        Some((width, height, rgba)) => Some(
            DecodedPayload { video, sheet_index, pixels: SheetPixels { width, height, rgba } },
        ),
        None => None,
    }
}

} // verus!
