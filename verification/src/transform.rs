//! The transform: decode uploaded bytes, scale to the requested dimensions
//! exactly (aspect ratio is not preserved), and re-encode as JPEG at the
//! requested quality.
//!
//! The work is done by the `image` crate and is not verified; what is stated
//! of it is that the outcome depends on the input bytes and the parameters
//! alone, so the result can bear a name that the rest of the library's
//! contracts speak of.

use vstd::prelude::*;

verus! {

/// Whether `image::load_from_memory` accepts these bytes as an image.
pub uninterp spec fn decode_ok(input: Seq<u8>) -> bool;

/// Whether JPEG-encoding the image decoded from `input` and scaled to `width`
/// by `height` at quality `quality` succeeds.
pub uninterp spec fn encode_ok(input: Seq<u8>, width: u32, height: u32, quality: u8) -> bool;

/// The JPEG bytes that decoding `input`, scaling to `width` by `height` and
/// re-encoding at `quality` produces, when both steps succeed.
pub uninterp spec fn transform_output(input: Seq<u8>, width: u32, height: u32, quality: u8) -> Seq<
    u8,
>;

/// Why a transform failed: the input bytes were not a supported image, or the
/// encoder could not produce output (an internal fault).
pub enum TransformError {
    Decode(String),
    Encode(String),
}

/// Relies on `image::load_from_memory`, `image::DynamicImage::resize_exact`
/// and `image::DynamicImage::write_to` with `ImageOutputFormat::Jpeg`: all
/// three compute from their arguments alone, so whether the bytes decode
/// (`decode_ok`), whether re-encoding succeeds (`encode_ok`) and the bytes
/// produced (`transform_output`) are functions of the input and the
/// parameters. The encoder clamps the quality into its valid range, so no
/// input admitted here panics.
#[verifier::external_body]
pub fn transform_image(
    input: &Vec<u8>,
    width: u32,
    height: u32,
    quality: u8,
) -> (r: Result<Vec<u8>, TransformError>)
    requires
        width >= 1,
        height >= 1,
    ensures
        r is Ok ==> decode_ok(input@) && encode_ok(input@, width, height, quality),
        decode_ok(input@) && encode_ok(input@, width, height, quality) ==> r is Ok,
        r matches Ok(out) ==> out@ == transform_output(input@, width, height, quality),
        r matches Err(e) ==> (e is Decode <==> !decode_ok(input@)),
{
    let img = match image::load_from_memory(input) {
        Ok(img) => img,
        Err(e) => return Err(TransformError::Decode(e.to_string())),
    };
    let resized = img.resize_exact(width, height, image::imageops::FilterType::Lanczos3);
    let mut cursor = std::io::Cursor::new(Vec::new());
    match resized.write_to(&mut cursor, image::ImageOutputFormat::Jpeg(quality)) {
        Ok(()) => Ok(cursor.into_inner()),
        Err(e) => Err(TransformError::Encode(e.to_string())),
    }
}

} // verus!
