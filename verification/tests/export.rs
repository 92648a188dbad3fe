use screensnip::export::plan_export;
use screensnip::export::strip_row_padding;
use screensnip::export::texture_desc;
use screensnip::export::BindFlags;
use screensnip::export::CopyBox;
use screensnip::export::CpuAccess;
use screensnip::export::ExportError;
use screensnip::export::PixelFormat;
use screensnip::export::TextureUsage;
use screensnip::export::BUFFER_STRIDE;
use screensnip::export::SCALAR_BUFFER_BYTES;
use screensnip::export::SCRATCH_BUFFER_BYTES;
use screensnip::geometry::Dimensions;
use screensnip::geometry::PixelRect;

#[test]
fn scenario_zero_area_export_is_rejected_before_allocation() {
    // A rectangle with no width.
    let r = plan_export(&PixelRect { left: 10, top: 10, right: 10, bottom: 20 }, 1920, 1080);
    assert_eq!(r, Err(ExportError::EmptySelection));
    // A rectangle with no height.
    let r = plan_export(&PixelRect { left: 10, top: 10, right: 20, bottom: 10 }, 1920, 1080);
    assert_eq!(r, Err(ExportError::EmptySelection));
    // No plan means no texture of zero dimension is ever described,
    // let alone requested.
}

#[test]
fn out_of_bounds_export_is_rejected() {
    let r = plan_export(&PixelRect { left: -1, top: 0, right: 10, bottom: 10 }, 1920, 1080);
    assert_eq!(r, Err(ExportError::OutOfBounds));
    let r = plan_export(&PixelRect { left: 0, top: 0, right: 1921, bottom: 10 }, 1920, 1080);
    assert_eq!(r, Err(ExportError::OutOfBounds));
}

#[test]
fn export_plan_describes_the_three_textures() {
    let rect = PixelRect { left: 100, top: 50, right: 301, bottom: 101 };
    let p = plan_export(&rect, 1920, 1080).unwrap();

    assert_eq!(p.input.width, 201);
    assert_eq!(p.input.height, 51);
    assert_eq!(p.input.usage, TextureUsage::Gpu);
    assert_eq!(p.input.cpu_access, CpuAccess::NoAccess);
    assert_eq!(p.input.format, PixelFormat::Rgba16Float);
    assert_eq!(p.input.mip_levels, 0);
    assert!(p.input.generate_mips);
    assert_eq!(
        p.input.bind,
        BindFlags { unordered_access: true, shader_resource: true, render_target: true },
    );

    assert_eq!(p.output.width, 201);
    assert_eq!(p.output.height, 51);
    assert_eq!(p.output.format, PixelFormat::Rgba16Typeless);
    assert_eq!(p.output.mip_levels, 1);
    assert!(!p.output.generate_mips);
    assert_eq!(
        p.output.bind,
        BindFlags { unordered_access: true, shader_resource: false, render_target: false },
    );

    assert_eq!(p.staging.usage, TextureUsage::Staging);
    assert_eq!(p.staging.cpu_access, CpuAccess::Read);
    assert_eq!(p.staging.format, PixelFormat::Rgba16Typeless);
    assert_eq!(p.staging.mip_levels, 1);
    assert!(!p.staging.generate_mips);

    assert_eq!(p.scalar_buffer_bytes, SCALAR_BUFFER_BYTES);
    assert_eq!(p.scratch_buffer_bytes, SCRATCH_BUFFER_BYTES);
    assert_eq!(p.buffer_stride, BUFFER_STRIDE);
    assert_eq!(p.copy_box, CopyBox { left: 100, top: 50, right: 301, bottom: 101 });
}

#[test]
fn mip_generation_follows_the_level_count() {
    let dims = Dimensions { width: 8, height: 8, x: 0, y: 0 };
    let bind = BindFlags { unordered_access: false, shader_resource: false, render_target: false };
    let d1 = texture_desc(&dims, TextureUsage::Gpu, CpuAccess::NoAccess, bind, PixelFormat::Rgba16Float, 1);
    assert!(!d1.generate_mips);
    let d0 = texture_desc(&dims, TextureUsage::Gpu, CpuAccess::NoAccess, bind, PixelFormat::Rgba16Float, 0);
    assert!(d0.generate_mips);
    let d3 = texture_desc(&dims, TextureUsage::Gpu, CpuAccess::NoAccess, bind, PixelFormat::Rgba16Float, 3);
    assert!(d3.generate_mips);
}

#[test]
fn strip_row_padding_copies_by_the_reported_pitch() {
    // One pixel per row (8 bytes), two rows, pitch 16: each row carries
    // 8 padding bytes that must not survive.
    let mut data: Vec<u8> = Vec::new();
    data.extend_from_slice(&[1, 2, 3, 4, 5, 6, 7, 8]);
    data.extend_from_slice(&[0xEE; 8]);
    data.extend_from_slice(&[9, 10, 11, 12, 13, 14, 15, 16]);
    data.extend_from_slice(&[0xEE; 8]);
    let packed = strip_row_padding(&data, 1, 2, 16).unwrap();
    assert_eq!(packed, vec![1, 2, 3, 4, 5, 6, 7, 8, 9, 10, 11, 12, 13, 14, 15, 16]);
}

#[test]
fn strip_row_padding_keeps_zero_words() {
    // All-zero pixels are genuine data and must survive unpadding.
    let mut data: Vec<u8> = Vec::new();
    data.extend_from_slice(&[0; 8]);
    data.extend_from_slice(&[0xEE; 8]);
    data.extend_from_slice(&[0; 8]);
    data.extend_from_slice(&[0xEE; 8]);
    let packed = strip_row_padding(&data, 1, 2, 16).unwrap();
    assert_eq!(packed, vec![0; 16]);
}

#[test]
fn strip_row_padding_without_padding_is_identity() {
    let data: Vec<u8> = (0u8..32).collect();
    let packed = strip_row_padding(&data, 2, 2, 16).unwrap();
    assert_eq!(packed, data);
}

#[test]
fn strip_row_padding_rejects_narrow_pitch() {
    let data = vec![0u8; 64];
    assert_eq!(strip_row_padding(&data, 2, 2, 8), Err(ExportError::PitchTooSmall));
}

#[test]
fn strip_row_padding_rejects_short_buffer() {
    let data = vec![0u8; 24];
    assert_eq!(strip_row_padding(&data, 1, 2, 16), Err(ExportError::BufferTooShort));
}
