//! Lossless image encoding of the exported region.
//!
//! The tightly packed sixteen-bit RGBA pixels are encoded as a PNG with
//! an embedded source gamma and source chromaticities matching the
//! capture's colour space. The encoder itself is the outside `png`
//! crate; its output is named, not restated, and everything around the
//! call is verified.

use vstd::prelude::*;
use vstd::pervasive::unreached;
use png::ScaledFloat;
use crate::export::packed_rows;
use crate::export::strip_row_padding;
use crate::export::ExportError;
use crate::export::BYTES_PER_PIXEL;

verus! {

/// The source gamma of the capture, scaled by 100000 as the PNG gAMA
/// chunk stores it: 1/2.2.
pub const SOURCE_GAMMA_SCALED: u32 = 45454;

/// The sRGB primaries and white point, each coordinate scaled by 100000
/// as the PNG cHRM chunk stores it, in the order white x, white y,
/// red x, red y, green x, green y, blue x, blue y.
pub open spec fn srgb_chromaticities_seq() -> Seq<u32> {
    seq![31270u32, 32900u32, 64000u32, 33000u32, 30000u32, 60000u32, 15000u32, 6000u32]
}

/// The sRGB chromaticity coordinates handed to the encoder.
pub fn srgb_chromaticities() -> (v: Vec<u32>)
    ensures
        v@ == srgb_chromaticities_seq(),
{
    let v: Vec<u32> = vec![31270u32, 32900u32, 64000u32, 33000u32, 30000u32, 60000u32, 15000u32, 6000u32];
    proof {
        assert(v@ =~= srgb_chromaticities_seq());
    }
    v
}

/// The PNG byte stream the encoder produces for the given pixels,
/// extent, scaled gamma and scaled chromaticities. The stream is a
/// function of these arguments alone; nothing more is assumed of it.
pub uninterp spec fn png_encoding_of(
    pixels: Seq<u8>,
    width: u32,
    height: u32,
    gamma: u32,
    chroma: Seq<u32>,
) -> Seq<u8>;

/// Relies on png::Encoder with RGBA colour and sixteen-bit depth, its
/// scaled source gamma and source chromaticities, and its Writer:
/// writing the header and one image of exactly `width * height * 8`
/// bytes into an in-memory buffer succeeds for a non-empty extent, and
/// the bytes produced depend on the arguments alone.
#[verifier::external_body]
fn write_png(pixels: &Vec<u8>, width: u32, height: u32, gamma: u32, c: &Vec<u32>) -> (r: Option<
    Vec<u8>,
>)
    requires
        width > 0,
        height > 0,
        c@.len() == 8,
        pixels@.len() == width * height * BYTES_PER_PIXEL,
    ensures
        r is Some,
        r matches Some(b) ==> b@ == png_encoding_of(pixels@, width, height, gamma, c@),
{
    let mut o = Vec::new();
    let mut e = png::Encoder::new(&mut o, width, height);
    e.set_color(png::ColorType::Rgba);
    e.set_depth(png::BitDepth::Sixteen);
    let f = ScaledFloat::from_scaled;
    e.set_source_gamma(f(gamma));
    e.set_source_chromaticities(png::SourceChromaticities {
        white: (f(c[0]), f(c[1])), red: (f(c[2]), f(c[3])),
        green: (f(c[4]), f(c[5])), blue: (f(c[6]), f(c[7])),
    });
    let mut w = e.write_header().ok()?;
    w.write_image_data(pixels).ok()?;
    drop(w);
    Some(o)
}

/// Encode an already tightly packed sixteen-bit RGBA buffer as a PNG
/// with the capture's gamma and chromaticities embedded.
pub fn encode_pixels(pixels: &Vec<u8>, width: u32, height: u32) -> (r: Vec<u8>)
    requires
        width > 0,
        height > 0,
        pixels@.len() == width * height * BYTES_PER_PIXEL,
    ensures
        r@ == png_encoding_of(
            pixels@,
            width,
            height,
            SOURCE_GAMMA_SCALED,
            srgb_chromaticities_seq(),
        ),
{
    let chroma = srgb_chromaticities();
    match write_png(pixels, width, height, SOURCE_GAMMA_SCALED, &chroma) {
        Some(bytes) => bytes,
        None => unreached(),
    }
}

/// Turn one mapped staging surface into the final encoded image: strip
/// the hardware row padding by the reported pitch, then encode the
/// packed pixels. The pitch and buffer length are validated first, and
/// a failure leaves nothing allocated on the GPU side to clean up here.
pub fn encode_region(mapped: &Vec<u8>, width: u32, height: u32, row_pitch: u32) -> (r: Result<
    Vec<u8>,
    ExportError,
>)
    requires
        width > 0,
        height > 0,
    ensures
        r is Ok <==> (row_pitch >= width * BYTES_PER_PIXEL && mapped@.len() >= row_pitch * height),
        r matches Ok(bytes) ==> bytes@ == png_encoding_of(
            packed_rows(mapped@, width * BYTES_PER_PIXEL, row_pitch as int, height as int),
            width,
            height,
            SOURCE_GAMMA_SCALED,
            srgb_chromaticities_seq(),
        ),
        row_pitch < width * BYTES_PER_PIXEL ==> r == Err::<Vec<u8>, ExportError>(
            ExportError::PitchTooSmall,
        ),
{
    let packed = match strip_row_padding(mapped, width, height, row_pitch) {
        Ok(p) => p,
        Err(e) => {
            return Err(e);
        },
    };
    Ok(encode_pixels(&packed, width, height))
}

} // verus!
