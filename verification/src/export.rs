//! The export pipeline's decisions and its CPU-side data path.
//!
//! On selection commit the pipeline allocates GPU resources sized to the
//! committed rectangle, runs its compute passes, and reads the converted
//! region back through a staging texture. The GPU calls themselves live
//! in the platform shell; this module decides what to allocate (and
//! rejects an empty or out-of-bounds rectangle before anything is
//! allocated), and turns the mapped, row-padded staging bytes into the
//! tightly packed pixel buffer handed to the encoder. The mapped row
//! pitch is authoritative: rows are copied by the reported pitch, never
//! assumed contiguous.

use vstd::prelude::*;
use vstd::arithmetic::div_mod::lemma_fundamental_div_mod_converse;
use crate::geometry::Dimensions;
use crate::geometry::PixelRect;

verus! {

/// Bytes per pixel of the sixteen-bit RGBA readback format.
pub const BYTES_PER_PIXEL: u32 = 8;

/// Why an export was refused.
#[derive(Clone, Copy, Debug, PartialEq, Eq)]
pub enum ExportError {
    /// The committed rectangle covers no pixel; nothing is allocated.
    EmptySelection,
    /// The committed rectangle reaches outside the captured frame.
    OutOfBounds,
    /// The reported row pitch is narrower than one packed row.
    PitchTooSmall,
    /// The mapped buffer is shorter than the pitch times the height.
    BufferTooShort,
}

/// How the GPU may access a texture.
#[derive(Clone, Copy, Debug, PartialEq, Eq, Structural)]
pub enum TextureUsage {
    /// Resident on the GPU, read and written by it.
    Gpu,
    /// A staging surface the CPU can map.
    Staging,
}

/// Which CPU access a texture allows.
#[derive(Clone, Copy, Debug, PartialEq, Eq, Structural)]
pub enum CpuAccess {
    NoAccess,
    Read,
    Write,
}

/// The pixel format of a texture.
#[derive(Clone, Copy, Debug, PartialEq, Eq, Structural)]
pub enum PixelFormat {
    /// Four sixteen-bit float channels: the capture format.
    Rgba16Float,
    /// Four sixteen-bit typeless channels: the conversion target.
    Rgba16Typeless,
}

/// The pipeline bind points a texture participates in.
#[derive(Clone, Copy, Debug, PartialEq, Eq, Structural)]
pub struct BindFlags {
    pub unordered_access: bool,
    pub shader_resource: bool,
    pub render_target: bool,
}

/// Everything the shell needs to create one texture.
#[derive(Clone, Copy, Debug, PartialEq, Eq, Structural)]
pub struct TextureDesc {
    pub width: u32,
    pub height: u32,
    pub usage: TextureUsage,
    pub cpu_access: CpuAccess,
    pub bind: BindFlags,
    pub format: PixelFormat,
    /// Zero asks for a full mip chain.
    pub mip_levels: u32,
    pub generate_mips: bool,
}

/// Describe one texture sized to `dims`. Mip generation must be enabled
/// exactly when more than the base level is asked for, including the
/// full-chain request `mip_levels == 0`.
pub fn texture_desc(
    dims: &Dimensions,
    usage: TextureUsage,
    cpu_access: CpuAccess,
    bind: BindFlags,
    format: PixelFormat,
    mip_levels: u32,
) -> (d: TextureDesc)
    ensures
        d.width == dims.width,
        d.height == dims.height,
        d.usage == usage,
        d.cpu_access == cpu_access,
        d.bind == bind,
        d.format == format,
        d.mip_levels == mip_levels,
        d.generate_mips == (mip_levels != 1),
{
    TextureDesc {
        width: dims.width,
        height: dims.height,
        usage,
        cpu_access,
        bind,
        format,
        mip_levels,
        generate_mips: mip_levels != 1,
    }
}

/// The source region of the captured frame to copy into the input
/// texture, as an unsigned box.
#[derive(Clone, Copy, Debug, PartialEq, Eq, Structural)]
pub struct CopyBox {
    pub left: u32,
    pub top: u32,
    pub right: u32,
    pub bottom: u32,
}

/// Byte size of the scalar analysis result buffer: eight four-byte
/// values written by the preprocess kernel.
pub const SCALAR_BUFFER_BYTES: u32 = 32;

/// Byte size of the per-thread-group scratch buffer.
pub const SCRATCH_BUFFER_BYTES: u32 = 4096;

/// Element stride of both structured buffers.
pub const BUFFER_STRIDE: u32 = 4;

/// Every GPU resource one export allocates, fully described before any
/// allocation happens.
#[derive(Clone, Copy, Debug, PartialEq, Eq, Structural)]
pub struct ExportPlan {
    /// The float input texture: mip chain enabled for multi-scale
    /// analysis, bound for unordered access, sampling and rendering.
    pub input: TextureDesc,
    /// The integer-format output texture of the conversion kernel.
    pub output: TextureDesc,
    /// The CPU-readable staging copy of the output.
    pub staging: TextureDesc,
    /// The scalar analysis result buffer, in bytes.
    pub scalar_buffer_bytes: u32,
    /// The thread-group scratch buffer, in bytes.
    pub scratch_buffer_bytes: u32,
    /// Element stride of both structured buffers.
    pub buffer_stride: u32,
    /// The region of the captured frame to copy into the input.
    pub copy_box: CopyBox,
}

/// Whether a committed rectangle may be exported from a captured frame
/// of extent `(screen_width, screen_height)`: it must cover at least one
/// pixel and lie inside the frame.
pub open spec fn exportable(rect: PixelRect, screen_width: u32, screen_height: u32) -> bool {
    &&& 0 <= rect.left < rect.right <= screen_width
    &&& 0 <= rect.top < rect.bottom <= screen_height
}

/// Plan one export of `rect` from a captured frame of extent
/// `(screen_width, screen_height)`. A rectangle of zero area is rejected
/// here, before any GPU resource is described, and so is one reaching
/// outside the frame.
pub fn plan_export(rect: &PixelRect, screen_width: u32, screen_height: u32) -> (r: Result<
    ExportPlan,
    ExportError,
>)
    ensures
        r is Ok <==> exportable(*rect, screen_width, screen_height),
        !(rect.left < rect.right && rect.top < rect.bottom) ==> r == Err::<
            ExportPlan,
            ExportError,
        >(ExportError::EmptySelection),
        r matches Ok(p) ==> {
            let w = rect.right - rect.left;
            let h = rect.bottom - rect.top;
            &&& p.input.width == w && p.input.height == h
            &&& p.input.usage == TextureUsage::Gpu
            &&& p.input.cpu_access == CpuAccess::NoAccess
            &&& p.input.format == PixelFormat::Rgba16Float
            &&& p.input.mip_levels == 0 && p.input.generate_mips
            &&& p.input.bind == (BindFlags {
                unordered_access: true,
                shader_resource: true,
                render_target: true,
            })
            &&& p.output.width == w && p.output.height == h
            &&& p.output.usage == TextureUsage::Gpu
            &&& p.output.cpu_access == CpuAccess::NoAccess
            &&& p.output.format == PixelFormat::Rgba16Typeless
            &&& p.output.mip_levels == 1 && !p.output.generate_mips
            &&& p.output.bind == (BindFlags {
                unordered_access: true,
                shader_resource: false,
                render_target: false,
            })
            &&& p.staging.width == w && p.staging.height == h
            &&& p.staging.usage == TextureUsage::Staging
            &&& p.staging.cpu_access == CpuAccess::Read
            &&& p.staging.format == PixelFormat::Rgba16Typeless
            &&& p.staging.mip_levels == 1 && !p.staging.generate_mips
            &&& p.staging.bind == (BindFlags {
                unordered_access: false,
                shader_resource: false,
                render_target: false,
            })
            &&& p.scalar_buffer_bytes == SCALAR_BUFFER_BYTES
            &&& p.scratch_buffer_bytes == SCRATCH_BUFFER_BYTES
            &&& p.buffer_stride == BUFFER_STRIDE
            &&& p.copy_box == (CopyBox {
                left: rect.left as u32,
                top: rect.top as u32,
                right: rect.right as u32,
                bottom: rect.bottom as u32,
            })
        },
{
    if !(rect.left < rect.right && rect.top < rect.bottom) {
        return Err(ExportError::EmptySelection);
    }
    if !(rect.left >= 0 && rect.top >= 0 && rect.right as i64 <= screen_width as i64
        && rect.bottom as i64 <= screen_height as i64) {
        return Err(ExportError::OutOfBounds);
    }
    let dims = rect.dimensions();
    let all = BindFlags { unordered_access: true, shader_resource: true, render_target: true };
    let uav_only = BindFlags { unordered_access: true, shader_resource: false, render_target: false };
    let none = BindFlags { unordered_access: false, shader_resource: false, render_target: false };
    Ok(
        ExportPlan {
            input: texture_desc(
                &dims,
                TextureUsage::Gpu,
                CpuAccess::NoAccess,
                all,
                PixelFormat::Rgba16Float,
                0,
            ),
            output: texture_desc(
                &dims,
                TextureUsage::Gpu,
                CpuAccess::NoAccess,
                uav_only,
                PixelFormat::Rgba16Typeless,
                1,
            ),
            staging: texture_desc(
                &dims,
                TextureUsage::Staging,
                CpuAccess::Read,
                none,
                PixelFormat::Rgba16Typeless,
                1,
            ),
            scalar_buffer_bytes: SCALAR_BUFFER_BYTES,
            scratch_buffer_bytes: SCRATCH_BUFFER_BYTES,
            buffer_stride: BUFFER_STRIDE,
            copy_box: CopyBox {
                left: rect.left as u32,
                top: rect.top as u32,
                right: rect.right as u32,
                bottom: rect.bottom as u32,
            },
        },
    )
}

/// The first `row_bytes` bytes of each of `height` rows of `data`, where
/// each row begins at a multiple of `pitch`: the tightly packed image.
pub open spec fn packed_rows(data: Seq<u8>, row_bytes: int, pitch: int, height: int) -> Seq<u8> {
    Seq::new((height * row_bytes) as nat, |i: int| data[(i / row_bytes) * pitch + (i % row_bytes)])
}

/// Strip the hardware row padding from a mapped staging buffer: copy
/// `width * 8` bytes out of each of `height` rows of `pitch` bytes,
/// producing exactly `width * height * 8` tightly packed bytes. The
/// reported pitch is authoritative; a pitch narrower than a packed row
/// or a buffer shorter than `pitch * height` is refused.
pub fn strip_row_padding(data: &Vec<u8>, width: u32, height: u32, row_pitch: u32) -> (r: Result<
    Vec<u8>,
    ExportError,
>)
    requires
        width > 0,
        height > 0,
    ensures
        r is Ok <==> (row_pitch >= width * BYTES_PER_PIXEL && data@.len() >= row_pitch * height),
        row_pitch < width * BYTES_PER_PIXEL ==> r == Err::<Vec<u8>, ExportError>(
            ExportError::PitchTooSmall,
        ),
        r matches Ok(out) ==> out@ == packed_rows(
            data@,
            width * BYTES_PER_PIXEL,
            row_pitch as int,
            height as int,
        ),
        r matches Ok(out) ==> out@.len() == width * height * BYTES_PER_PIXEL,
{
    let row_bytes: u64 = width as u64 * BYTES_PER_PIXEL as u64;
    proof {
        assert(row_bytes >= BYTES_PER_PIXEL) by (nonlinear_arith)
            requires
                row_bytes == width as u64 * (BYTES_PER_PIXEL as u64),
                width >= 1,
        ;
    }
    if (row_pitch as u64) < row_bytes {
        return Err(ExportError::PitchTooSmall);
    }
    if (data.len() as u64) / (row_pitch as u64) < height as u64 {
        proof {
            let p = row_pitch as int;
            let l = data@.len() as int;
            vstd::arithmetic::div_mod::lemma_fundamental_div_mod(l, p);
            vstd::arithmetic::div_mod::lemma_mod_bound(l, p);
            assert(l < p * (height as int)) by (nonlinear_arith)
                requires
                    p > 0,
                    l == p * (l / p) + l % p,
                    0 <= l % p < p,
                    l / p < height as int,
            ;
        }
        return Err(ExportError::BufferTooShort);
    }
    proof {
        let p = row_pitch as int;
        let l = data@.len() as int;
        vstd::arithmetic::div_mod::lemma_fundamental_div_mod(l, p);
        vstd::arithmetic::div_mod::lemma_mod_bound(l, p);
        assert(l >= p * (height as int)) by (nonlinear_arith)
            requires
                p > 0,
                l == p * (l / p) + l % p,
                0 <= l % p,
                l / p >= height as int,
        ;
    }
    let rb: usize = row_bytes as usize;
    let pitch: usize = row_pitch as usize;
    let rows: usize = height as usize;
    proof {
        assert(data@.len() == data.len());
    }
    let mut out: Vec<u8> = Vec::new();
    let mut row: usize = 0;
    while row < rows
        invariant
            rows == height,
            rb == width * BYTES_PER_PIXEL,
            pitch == row_pitch,
            0 < rb <= pitch,
            data@.len() <= usize::MAX,
            data@.len() >= pitch * rows,
            row <= rows,
            out@.len() == row * rb,
            forall|i: int|
                0 <= i < out@.len() ==> out@[i] == data@[(i / rb as int) * pitch + (i % rb as int)],
        decreases rows - row,
    {
        let mut col: usize = 0;
        while col < rb
            invariant
                rows == height,
                rb == width * BYTES_PER_PIXEL,
                pitch == row_pitch,
                0 < rb <= pitch,
                data@.len() <= usize::MAX,
                data@.len() >= pitch * rows,
                row < rows,
                col <= rb,
                out@.len() == row * rb + col,
                forall|i: int|
                    0 <= i < out@.len() ==> out@[i] == data@[(i / rb as int) * pitch + (
                    i % rb as int)],
            decreases rb - col,
        {
            proof {
                assert(row * pitch + col < pitch * rows) by (nonlinear_arith)
                    requires
                        row < rows,
                        col < rb,
                        rb <= pitch,
                        pitch > 0,
                ;
            }
            let src: usize = row * pitch + col;
            out.push(data[src]);
            proof {
                let i = (row * rb + col) as int;
                lemma_fundamental_div_mod_converse(i, rb as int, row as int, col as int);
            }
            col = col + 1;
        }
        row = row + 1;
        proof {
            assert((row - 1) * rb + rb == row * rb) by (nonlinear_arith);
        }
    }
    proof {
        assert(out@.len() == rows * rb);
        assert(rows * rb == (height as int) * (width * BYTES_PER_PIXEL)) by (nonlinear_arith)
            requires
                rows == height,
                rb == width * BYTES_PER_PIXEL,
        ;
        assert(out@ =~= packed_rows(data@, width * BYTES_PER_PIXEL, row_pitch as int, height as int));
        assert((height as int) * ((width * BYTES_PER_PIXEL) as int) == (width * height
            * BYTES_PER_PIXEL) as int) by (nonlinear_arith);
    }
    Ok(out)
}

} // verus!
