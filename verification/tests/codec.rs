use screensnip::codec::encode_pixels;
use screensnip::codec::encode_region;
use screensnip::codec::SOURCE_GAMMA_SCALED;
use screensnip::export::ExportError;

/// Decode a PNG byte stream produced by the library, returning the
/// image dimensions and the raw pixel bytes.
fn decode(bytes: &[u8]) -> (u32, u32, Vec<u8>) {
    let decoder = png::Decoder::new(bytes);
    let mut reader = decoder.read_info().unwrap();
    let mut buf = vec![0u8; reader.output_buffer_size()];
    let info = reader.next_frame(&mut buf).unwrap();
    buf.truncate(info.buffer_size());
    (info.width, info.height, buf)
}

/// A small deterministic sixteen-bit RGBA pixel buffer.
fn sample_pixels(width: u32, height: u32) -> Vec<u8> {
    let mut pixels = Vec::new();
    for i in 0..(width * height * 8) {
        pixels.push((i * 37 + 11) as u8);
    }
    pixels
}

#[test]
fn encode_then_decode_is_pixel_identical() {
    let pixels = sample_pixels(3, 2);
    let encoded = encode_pixels(&pixels, 3, 2);
    let (w, h, decoded) = decode(&encoded);
    assert_eq!(w, 3);
    assert_eq!(h, 2);
    assert_eq!(decoded, pixels);
}

#[test]
fn encode_embeds_gamma_and_chromaticities() {
    let pixels = sample_pixels(2, 2);
    let encoded = encode_pixels(&pixels, 2, 2);
    let decoder = png::Decoder::new(encoded.as_slice());
    let reader = decoder.read_info().unwrap();
    let info = reader.info();
    assert_eq!(info.source_gamma, Some(png::ScaledFloat::from_scaled(SOURCE_GAMMA_SCALED)));
    let chroma = info.source_chromaticities.unwrap();
    assert_eq!(chroma.white.0.into_scaled(), 31270);
    assert_eq!(chroma.white.1.into_scaled(), 32900);
    assert_eq!(chroma.red.0.into_scaled(), 64000);
    assert_eq!(chroma.red.1.into_scaled(), 33000);
    assert_eq!(chroma.green.0.into_scaled(), 30000);
    assert_eq!(chroma.green.1.into_scaled(), 60000);
    assert_eq!(chroma.blue.0.into_scaled(), 15000);
    assert_eq!(chroma.blue.1.into_scaled(), 6000);
    assert_eq!(info.bit_depth, png::BitDepth::Sixteen);
    assert_eq!(info.color_type, png::ColorType::Rgba);
}

#[test]
fn encode_region_strips_padding_before_encoding() {
    // Two one-pixel rows with eight bytes of padding each: the decoded
    // image must hold only the pixels, proving both that the padding
    // was stripped and that the encoder was fed the stripped bytes.
    let mut mapped: Vec<u8> = Vec::new();
    mapped.extend_from_slice(&[1, 2, 3, 4, 5, 6, 7, 8]);
    mapped.extend_from_slice(&[0xEE; 8]);
    mapped.extend_from_slice(&[9, 10, 11, 12, 13, 14, 15, 16]);
    mapped.extend_from_slice(&[0xEE; 8]);
    let encoded = encode_region(&mapped, 1, 2, 16).unwrap();
    let (w, h, decoded) = decode(&encoded);
    assert_eq!(w, 1);
    assert_eq!(h, 2);
    assert_eq!(decoded, vec![1, 2, 3, 4, 5, 6, 7, 8, 9, 10, 11, 12, 13, 14, 15, 16]);
}

#[test]
fn encode_region_rejects_bad_pitch_and_short_buffer() {
    let mapped = vec![0u8; 64];
    assert_eq!(encode_region(&mapped, 2, 2, 8), Err(ExportError::PitchTooSmall));
    let mapped = vec![0u8; 24];
    assert_eq!(encode_region(&mapped, 1, 2, 16), Err(ExportError::BufferTooShort));
}

#[test]
fn encoding_is_deterministic() {
    let pixels = sample_pixels(4, 3);
    let a = encode_pixels(&pixels, 4, 3);
    let b = encode_pixels(&pixels, 4, 3);
    assert_eq!(a, b);
}
