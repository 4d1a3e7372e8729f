use vstd::prelude::*;

use crate::text;
use crate::text::push_str;

verus! {

/// The start of the message when the PNG header cannot be written.
pub const PNG_HEADER_ERROR: &'static str = "Failed to create PNG header: ";

/// The start of the message when the pixels cannot be encoded.
pub const PNG_DATA_ERROR: &'static str = "Failed to encode PNG bytes: ";

/// The PNG file that the `png` crate writes for a square RGBA image of
/// 8 bits per channel with side `size`.
pub uninterp spec fn png_rgba8_encoding(rgba: Seq<u8>, size: u32) -> Seq<u8>;

/// The first bytes of a PNG file of a square RGBA image of 8 bits per
/// channel with side `size`: the signature, then the IHDR chunk's length
/// (13), its type, width and height (big endian), bit depth 8, colour type
/// 6 (RGBA), and compression, filter and interlace methods 0.
pub open spec fn png_rgba8_header(size: u32) -> Seq<u8> {
    let b3 = (size / 16777216) as u8;
    let b2 = ((size / 65536) % 256) as u8;
    let b1 = ((size / 256) % 256) as u8;
    let b0 = (size % 256) as u8;
    seq![
        137u8, 80u8, 78u8, 71u8, 13u8, 10u8, 26u8, 10u8,
        0u8, 0u8, 0u8, 13u8, 73u8, 72u8, 68u8, 82u8,
        b3, b2, b1, b0, b3, b2, b1, b0,
        8u8, 6u8, 0u8, 0u8, 0u8,
    ]
}

/// The encoder's text for a zero side.
pub open spec fn png_zero_width_text() -> Seq<char> {
    "Zero width not allowed"@
}

/// The encoder's text for a pixel buffer of the wrong length.
pub open spec fn png_buffer_size_text(expected: nat, actual: nat) -> Seq<char> {
    "wrong data size, expected "@ + text::decimal(expected) + " got "@ + text::decimal(actual)
}

/// The step of the encoder that failed, with the encoder's text for the
/// error.
pub enum PngFailure {
    Header(String),
    ImageData(String),
}

/// Encodes square RGBA pixels as PNG with `png::Encoder` (colour type RGBA,
/// depth 8, `write_header`, `write_image_data`, end chunk written when the
/// writer is dropped) into a `Vec`.
/// Trusted: a successful result is the encoder's output for these pixels and
/// this size, which starts with the signature and the IHDR chunk; a zero
/// side fails at the header (`ZeroWidth`); a positive side with a pixel
/// buffer of another length than `size * size * 4` fails at the image data
/// (`ImageBufferSize`); a positive side with a buffer of that length
/// succeeds (the header checks pass for RGBA/8, the image data is split
/// into chunks below the chunk limit, and writes to a `Vec` do not fail).
/// The texts are the `Display` of those two errors.
#[verifier::external_body]
fn encode_rgba_png(rgba: &[u8], size: u32) -> (r: Result<Vec<u8>, PngFailure>)
    requires
        size as int * size as int * 4 <= usize::MAX,
    ensures
        r matches Ok(bytes) ==> bytes@ == png_rgba8_encoding(rgba@, size) && bytes@.len() >= 29
            && bytes@.take(29) == png_rgba8_header(size),
        size == 0 ==> r is Err && r->Err_0 is Header && r->Err_0->Header_0@
            == png_zero_width_text(),
        size > 0 && rgba@.len() != size as int * size as int * 4 ==> r is Err && r->Err_0 is ImageData
            && r->Err_0->ImageData_0@ == png_buffer_size_text(
            (size as int * size as int * 4) as nat,
            rgba@.len(),
        ),
        size > 0 && rgba@.len() == size as int * size as int * 4 ==> r is Ok,
{
    let mut png_bytes = Vec::new();
    {
        let mut encoder = png::Encoder::new(&mut png_bytes, size, size);
        encoder.set_color(png::ColorType::Rgba);
        encoder.set_depth(png::BitDepth::Eight);
        let mut writer = encoder.write_header().map_err(|e| PngFailure::Header(e.to_string()))?;
        writer.write_image_data(rgba).map_err(|e| PngFailure::ImageData(e.to_string()))?;
    }
    Ok(png_bytes)
}

/// The message for a failed encoding: the step's fixed prefix followed by
/// the encoder's own text.
fn png_failure_message(failure: &PngFailure) -> (r: String)
    ensures
        match failure {
            PngFailure::Header(t) => r@ == PNG_HEADER_ERROR@ + t@,
            PngFailure::ImageData(t) => r@ == PNG_DATA_ERROR@ + t@,
        },
{
    let mut message = String::new();
    match failure {
        PngFailure::Header(t) => {
            push_str(&mut message, PNG_HEADER_ERROR);
            push_str(&mut message, t.as_str());
        },
        PngFailure::ImageData(t) => {
            push_str(&mut message, PNG_DATA_ERROR);
            push_str(&mut message, t.as_str());
        },
    }
    message
}

/// Turns a rendered square icon into PNG bytes: an error of the rendering is
/// handed on; rendered pixels of the right length for a positive side are
/// encoded; a zero side fails at the PNG header and pixels of another length
/// fail at the image data, each with its message.
pub fn render_svg_png(rendered: Result<Vec<u8>, String>, canvas_size: u32) -> (r: Result<
    Vec<u8>,
    String,
>)
    requires
        canvas_size as int * canvas_size as int * 4 <= usize::MAX,
    ensures
        match rendered {
            Err(e) => r == Err::<Vec<u8>, String>(e),
            Ok(rgba) => if canvas_size == 0 {
                r matches Err(m) && m@ == PNG_HEADER_ERROR@ + png_zero_width_text()
            } else if rgba@.len() != canvas_size as int * canvas_size as int * 4 {
                r matches Err(m) && m@ == PNG_DATA_ERROR@ + png_buffer_size_text(
                    (canvas_size as int * canvas_size as int * 4) as nat,
                    rgba@.len(),
                )
            } else {
                &&& r matches Ok(bytes)
                &&& bytes@ == png_rgba8_encoding(rgba@, canvas_size)
                &&& bytes@.take(29) == png_rgba8_header(canvas_size)
            },
        },
{
    match rendered {
        Err(e) => Err(e),
        Ok(rgba) => match encode_rgba_png(rgba.as_slice(), canvas_size) {
            Ok(bytes) => Ok(bytes),
            Err(failure) => Err(png_failure_message(&failure)),
        },
    }
}

} // verus!
