//! Pixel layouts of images and graphics targets: pixel sizes, GPU row
//! alignment, region checks and row unpadding.
use crate::error::{InvalidArgument, ProcessingError, Result};
use vstd::prelude::*;

verus! {

/// The texture formats that the pixel paths know, and the rest.
#[derive(Clone, Copy, Debug, PartialEq, Eq, Structural)]
pub enum PixelFormat {
    Rgba8Unorm,
    Rgba8UnormSrgb,
    Rgba16Float,
    Rgba32Float,
    /// Any other texture format.
    Other,
}

/// Bytes per pixel of a supported format.
pub open spec fn pixel_bytes(format: PixelFormat) -> Option<nat> {
    match format {
        PixelFormat::Rgba8Unorm | PixelFormat::Rgba8UnormSrgb => Some(4),
        PixelFormat::Rgba16Float => Some(8),
        PixelFormat::Rgba32Float => Some(16),
        PixelFormat::Other => None,
    }
}

/// The size in bytes of one pixel of `format`.
pub fn pixel_size(format: PixelFormat) -> (r: Result<usize>)
    ensures
        match pixel_bytes(format) {
            Some(n) => r == Ok::<usize, ProcessingError>(n as usize),
            None => r == Err::<usize, ProcessingError>(ProcessingError::UnsupportedTextureFormat),
        },
{
    match format {
        PixelFormat::Rgba8Unorm | PixelFormat::Rgba8UnormSrgb => Ok(4),
        PixelFormat::Rgba16Float => Ok(8),
        PixelFormat::Rgba32Float => Ok(16),
        PixelFormat::Other => Err(ProcessingError::UnsupportedTextureFormat),
    }
}

/// Whether the format holds floating-point channels (and so renders HDR).
pub fn is_hdr(format: PixelFormat) -> (r: bool)
    ensures
        r == (format == PixelFormat::Rgba16Float || format == PixelFormat::Rgba32Float),
{
    match format {
        PixelFormat::Rgba16Float | PixelFormat::Rgba32Float => true,
        _ => false,
    }
}

/// The alignment that GPU buffer-texture copies ask of a row.
pub const COPY_BYTES_PER_ROW_ALIGNMENT: usize = 256;

/// Reads `wgpu_types::COPY_BYTES_PER_ROW_ALIGNMENT`, the alignment that the
/// GPU API asks of each row of a buffer-texture copy; the crate defines it
/// as 256, which is what the contract claims.
#[verifier::external_body]
fn copy_bytes_per_row_alignment() -> (r: usize)
    ensures
        r == COPY_BYTES_PER_ROW_ALIGNMENT,
{
    wgpu_types::COPY_BYTES_PER_ROW_ALIGNMENT as usize
}

/// `row_bytes` rounded up to a multiple of the copy alignment.
pub open spec fn aligned_row(row_bytes: int) -> int {
    row_bytes + (COPY_BYTES_PER_ROW_ALIGNMENT - row_bytes % COPY_BYTES_PER_ROW_ALIGNMENT as int)
        % COPY_BYTES_PER_ROW_ALIGNMENT as int
}

/// The padded length of a GPU copy row holding `row_bytes` bytes.
pub fn align_copy_bytes_per_row(row_bytes: usize) -> (r: usize)
    requires
        row_bytes + COPY_BYTES_PER_ROW_ALIGNMENT - 1 <= usize::MAX,
    ensures
        r == aligned_row(row_bytes as int),
        r % COPY_BYTES_PER_ROW_ALIGNMENT == 0,
        row_bytes <= r < row_bytes + COPY_BYTES_PER_ROW_ALIGNMENT,
{
    let align = copy_bytes_per_row_alignment();
    let padding = (align - row_bytes % align) % align;
    row_bytes + padding
}

/// The size of the buffer a readback of a `width` x `height` image of
/// `format` lands in: padded rows times height.
pub fn readback_buffer_size(width: u32, height: u32, format: PixelFormat) -> (r: Result<u64>)
    requires
        pixel_bytes(format) matches Some(n) ==> aligned_row(width as int * n) * height as int
            <= u64::MAX,
    ensures
        match pixel_bytes(format) {
            Some(n) => r == Ok::<u64, ProcessingError>(
                (aligned_row(width as int * n) * height as int) as u64,
            ),
            None => r == Err::<u64, ProcessingError>(ProcessingError::UnsupportedTextureFormat),
        },
{
    let px = match pixel_size(format) {
        Ok(p) => p,
        Err(e) => return Err(e),
    };
    proof {
        assert(width as int * px as int <= 0xffff_ffff * 16) by (nonlinear_arith)
            requires width <= 0xffff_ffff, px <= 16;
    }
    let row: u64 = width as u64 * px as u64;
    let align = COPY_BYTES_PER_ROW_ALIGNMENT as u64;
    let padded: u64 = row + (align - row % align) % align;
    Ok(padded * height as u64)
}

/// Whether a `width` x `height` region at `(x, y)` fits in a target of
/// `bound_width` x `bound_height` pixels.
pub open spec fn region_fits(x: u32, y: u32, width: u32, height: u32, bound_width: u32, bound_height: u32) -> bool {
    x + width <= bound_width && y + height <= bound_height
}

/// Refuses a pixel region that does not fit in its target.
pub fn check_region(x: u32, y: u32, width: u32, height: u32, bound_width: u32, bound_height: u32) -> (r: Result<()>)
    ensures
        region_fits(x, y, width, height, bound_width, bound_height) ==> r == Ok::<(), ProcessingError>(()),
        !region_fits(x, y, width, height, bound_width, bound_height) ==> r == Err::<(), ProcessingError>(
            ProcessingError::InvalidArgument(
                InvalidArgument::RegionOutOfBounds { x, y, width, height, bound_width, bound_height },
            ),
        ),
{
    if x as u64 + width as u64 > bound_width as u64 || y as u64 + height as u64 > bound_height as u64 {
        return Err(
            ProcessingError::InvalidArgument(
                InvalidArgument::RegionOutOfBounds { x, y, width, height, bound_width, bound_height },
            ),
        );
    }
    Ok(())
}

/// Refuses a pixel update that does not hold exactly `width * height` pixels.
pub fn check_pixel_count(width: u32, height: u32, count: usize) -> (r: Result<()>)
    ensures
        count == width as int * height as int ==> r == Ok::<(), ProcessingError>(()),
        count != width as int * height as int ==> r == Err::<(), ProcessingError>(
            ProcessingError::InvalidArgument(
                InvalidArgument::PixelCountMismatch {
                    expected: (width as int * height as int) as u64,
                    got: count as u64,
                },
            ),
        ),
{
    proof {
        assert(width as int * height as int <= 0xffff_ffff * 0xffff_ffff) by (nonlinear_arith)
            requires width <= 0xffff_ffff, height <= 0xffff_ffff;
    }
    let expected = width as u64 * height as u64;
    if count as u64 != expected {
        return Err(
            ProcessingError::InvalidArgument(
                InvalidArgument::PixelCountMismatch { expected, got: count as u64 },
            ),
        );
    }
    Ok(())
}

/// The first `row_bytes` bytes of each of the first `rows` rows of `data`,
/// rows being `padded` bytes apart.
pub open spec fn unpadded(data: Seq<u8>, rows: nat, row_bytes: nat, padded: nat) -> Seq<u8>
    decreases rows,
{
    if rows == 0 {
        Seq::empty()
    } else {
        let r = (rows - 1) as nat;
        unpadded(data, r, row_bytes, padded) + data.subrange((r * padded) as int, (r * padded + row_bytes) as int)
    }
}

/// How many whole padded rows `data` holds, at most `height`.
pub open spec fn rows_held(len: nat, height: nat, padded: nat) -> nat {
    let whole = len / padded;
    if whole < height {
        whole
    } else {
        height
    }
}

/// What unpadding keeps: of the padded rows that `data` holds whole, the
/// first `height` (fewer when `data` holds fewer), each cut to its first
/// `row_bytes` bytes and laid end to end, so byte `c` of kept row `r` is byte
/// `r * padded + c` of `data`.
pub proof fn lemma_unpadded_layout(data: Seq<u8>, height: nat, row_bytes: nat, padded: nat)
    requires
        0 < padded,
        row_bytes <= padded,
    ensures
        rows_held(data.len(), height, padded) <= height,
        rows_held(data.len(), height, padded) * padded <= data.len(),
        rows_held(data.len(), height, padded) == height || (rows_held(data.len(), height, padded) + 1)
            * padded > data.len(),
        unpadded(data, rows_held(data.len(), height, padded), row_bytes, padded).len()
            == rows_held(data.len(), height, padded) * row_bytes,
        forall|r: int, c: int|
            0 <= r < rows_held(data.len(), height, padded) && 0 <= c < row_bytes ==> #[trigger] unpadded(
                data,
                rows_held(data.len(), height, padded),
                row_bytes,
                padded,
            )[r * row_bytes + c] == data[r * padded + c],
{
    let rows = rows_held(data.len(), height, padded);
    let whole = data.len() / padded;
    assert(whole * padded <= data.len()) by (nonlinear_arith)
        requires whole == data.len() / padded, padded > 0;
    assert((whole + 1) * padded > data.len()) by (nonlinear_arith)
        requires whole == data.len() / padded, padded > 0;
    assert(rows * padded <= whole * padded) by (nonlinear_arith)
        requires rows <= whole;
    lemma_unpadded_rows(data, rows, row_bytes, padded);
}

proof fn lemma_unpadded_rows(data: Seq<u8>, rows: nat, row_bytes: nat, padded: nat)
    requires
        row_bytes <= padded,
        rows * padded <= data.len(),
    ensures
        unpadded(data, rows, row_bytes, padded).len() == rows * row_bytes,
        forall|r: int, c: int|
            0 <= r < rows && 0 <= c < row_bytes ==> #[trigger] unpadded(data, rows, row_bytes, padded)[r
                * row_bytes + c] == data[r * padded + c],
    decreases rows,
{
    if rows > 0 {
        let q = (rows - 1) as nat;
        assert(q * padded + padded == rows * padded) by (nonlinear_arith)
            requires q == rows - 1;
        assert(q * padded <= data.len()) by (nonlinear_arith)
            requires q * padded + padded == rows * padded, rows * padded <= data.len(), padded >= 0;
        lemma_unpadded_rows(data, q, row_bytes, padded);
        let front = unpadded(data, q, row_bytes, padded);
        let last = data.subrange((q * padded) as int, (q * padded + row_bytes) as int);
        assert(q * row_bytes + row_bytes == rows * row_bytes) by (nonlinear_arith)
            requires q == rows - 1;
        assert forall|r: int, c: int| 0 <= r < rows && 0 <= c < row_bytes implies #[trigger] unpadded(
            data,
            rows,
            row_bytes,
            padded,
        )[r * row_bytes + c] == data[r * padded + c] by {
            if r < q {
                assert(r * row_bytes + c < q * row_bytes) by (nonlinear_arith)
                    requires r < q, c < row_bytes, r >= 0, c >= 0;
                assert(r * row_bytes + c >= 0) by (nonlinear_arith)
                    requires r >= 0, c >= 0, row_bytes >= 0;
            } else {
                assert(r == q);
                assert(r * row_bytes + c - q * row_bytes == c);
                assert(r * padded == q * padded);
            }
        }
    }
}

/// Bytes per pixel: four channels, one byte each for the 8-bit formats, two
/// for half floats and four for full floats; other formats have none.
/// Copy rows are padded to the least multiple of 256 bytes that holds them.
pub proof fn lemma_pixel_and_row_sizes(format: PixelFormat, row: int)
    requires
        row >= 0,
    ensures
        (format == PixelFormat::Rgba8Unorm || format == PixelFormat::Rgba8UnormSrgb) ==> pixel_bytes(format)
            == Some(4nat),
        format == PixelFormat::Rgba16Float ==> pixel_bytes(format) == Some(8nat),
        format == PixelFormat::Rgba32Float ==> pixel_bytes(format) == Some(16nat),
        format == PixelFormat::Other ==> pixel_bytes(format) is None,
        aligned_row(row) % 256 == 0,
        row <= aligned_row(row) < row + 256,
{
}

/// Strips the padding from rows of `padded_bytes_per_row` bytes, keeping the
/// first `bytes_per_row` of each of the first `height` whole rows; rows past
/// `height` and a trailing partial row are dropped, padded or not.
pub fn unpad_rows(data: Vec<u8>, height: u32, bytes_per_row: usize, padded_bytes_per_row: usize) -> (r: Vec<u8>)
    requires
        0 < padded_bytes_per_row,
        bytes_per_row <= padded_bytes_per_row,
    ensures
        r@ == unpadded(
            data@,
            rows_held(data@.len(), height as nat, padded_bytes_per_row as nat),
            bytes_per_row as nat,
            padded_bytes_per_row as nat,
        ),
{
    let dlen = data.len();
    let whole = dlen / padded_bytes_per_row;
    let rows = if whole < height as usize { whole } else { height as usize };
    let mut out: Vec<u8> = Vec::new();
    let mut row: usize = 0;
    while row < rows
        invariant
            0 <= row <= rows,
            rows <= whole,
            data@.len() == dlen,
            whole == data@.len() as int / padded_bytes_per_row as int,
            0 < padded_bytes_per_row,
            bytes_per_row <= padded_bytes_per_row,
            out@ == unpadded(data@, row as nat, bytes_per_row as nat, padded_bytes_per_row as nat),
        decreases rows - row,
    {
        proof {
            assert((row + 1) * padded_bytes_per_row as int <= whole * padded_bytes_per_row as int) by (nonlinear_arith)
                requires row + 1 <= whole, padded_bytes_per_row >= 0;
            assert(whole * padded_bytes_per_row as int <= data@.len()) by (nonlinear_arith)
                requires whole == data@.len() as int / padded_bytes_per_row as int, padded_bytes_per_row > 0;
            assert((row + 1) * padded_bytes_per_row as int == row * padded_bytes_per_row as int + padded_bytes_per_row) by (nonlinear_arith);
        }
        let start = row * padded_bytes_per_row;
        let mut k: usize = 0;
        let ghost before = out@;
        while k < bytes_per_row
            invariant
                0 <= k <= bytes_per_row,
                start + bytes_per_row <= data@.len(),
                data@.len() == dlen,
                out@ == before + data@.subrange(start as int, start + k),
            decreases bytes_per_row - k,
        {
            out.push(data[start + k]);
            proof {
                assert(data@.subrange(start as int, start + k + 1) =~= data@.subrange(start as int, start + k).push(data@[start + k]));
            }
            k = k + 1;
        }
        row = row + 1;
    }
    out
}

/// Texture filtering of a sampler.
#[derive(Clone, Copy, Debug, PartialEq, Eq, Structural)]
pub enum FilterMode {
    Linear,
    Nearest,
}

/// What a sampler does outside the texture.
#[derive(Clone, Copy, Debug, PartialEq, Eq, Structural)]
pub enum AddressMode {
    ClampToEdge,
    Repeat,
    MirrorRepeat,
}

/// The filter mode numbered `v`.
pub open spec fn filter_mode_of(v: u8) -> Option<FilterMode> {
    if v == 0 {
        Some(FilterMode::Linear)
    } else if v == 1 {
        Some(FilterMode::Nearest)
    } else {
        None
    }
}

/// The wrap mode numbered `v`.
pub open spec fn address_mode_of(v: u8) -> Option<AddressMode> {
    if v == 0 {
        Some(AddressMode::ClampToEdge)
    } else if v == 1 {
        Some(AddressMode::Repeat)
    } else if v == 2 {
        Some(AddressMode::MirrorRepeat)
    } else {
        None
    }
}

fn address_mode(v: u8) -> (r: Result<AddressMode>)
    ensures
        match address_mode_of(v) {
            Some(m) => r == Ok::<AddressMode, ProcessingError>(m),
            None => r == Err::<AddressMode, ProcessingError>(
                ProcessingError::InvalidArgument(InvalidArgument::UnknownWrapMode(v)),
            ),
        },
{
    match v {
        0 => Ok(AddressMode::ClampToEdge),
        1 => Ok(AddressMode::Repeat),
        2 => Ok(AddressMode::MirrorRepeat),
        _ => Err(ProcessingError::InvalidArgument(InvalidArgument::UnknownWrapMode(v))),
    }
}

/// The modes of an image sampler: one filter for magnification,
/// minification and mipmaps, and a wrap mode per axis.
#[derive(Clone, Copy, Debug, PartialEq, Eq, Structural)]
pub struct SamplerModes {
    pub filter: FilterMode,
    pub wrap_x: AddressMode,
    pub wrap_y: AddressMode,
}

/// The sampler settings by number: filter `0` linear and `1` nearest, wrap
/// `0` clamp to edge, `1` repeat and `2` mirrored repeat; other numbers name
/// none.
pub proof fn lemma_sampler_numbers(v: u8)
    ensures
        v == 0 ==> filter_mode_of(v) == Some(FilterMode::Linear),
        v == 1 ==> filter_mode_of(v) == Some(FilterMode::Nearest),
        v >= 2 ==> filter_mode_of(v) is None,
        v == 0 ==> address_mode_of(v) == Some(AddressMode::ClampToEdge),
        v == 1 ==> address_mode_of(v) == Some(AddressMode::Repeat),
        v == 2 ==> address_mode_of(v) == Some(AddressMode::MirrorRepeat),
        v >= 3 ==> address_mode_of(v) is None,
{
}

/// Decodes the sampler settings of `set_sampler`: filter `0` linear, `1`
/// nearest; wrap `0` clamp, `1` repeat, `2` mirrored repeat. The filter is
/// checked first, then the horizontal wrap, then the vertical one.
pub fn sampler_modes(filter: u8, wrap_x: u8, wrap_y: u8) -> (r: Result<SamplerModes>)
    ensures
        filter_mode_of(filter) is None ==> r == Err::<SamplerModes, ProcessingError>(
            ProcessingError::InvalidArgument(InvalidArgument::UnknownFilterMode(filter)),
        ),
        filter_mode_of(filter) is Some && address_mode_of(wrap_x) is None ==> r == Err::<
            SamplerModes,
            ProcessingError,
        >(ProcessingError::InvalidArgument(InvalidArgument::UnknownWrapMode(wrap_x))),
        filter_mode_of(filter) is Some && address_mode_of(wrap_x) is Some && address_mode_of(
            wrap_y,
        ) is None ==> r == Err::<SamplerModes, ProcessingError>(
            ProcessingError::InvalidArgument(InvalidArgument::UnknownWrapMode(wrap_y)),
        ),
        filter_mode_of(filter) is Some && address_mode_of(wrap_x) is Some && address_mode_of(
            wrap_y,
        ) is Some ==> r == Ok::<SamplerModes, ProcessingError>(
            SamplerModes {
                filter: filter_mode_of(filter)->0,
                wrap_x: address_mode_of(wrap_x)->0,
                wrap_y: address_mode_of(wrap_y)->0,
            },
        ),
{
    let f = match filter {
        0 => FilterMode::Linear,
        1 => FilterMode::Nearest,
        _ => {
            return Err(ProcessingError::InvalidArgument(InvalidArgument::UnknownFilterMode(filter)));
        },
    };
    let x = match address_mode(wrap_x) {
        Ok(m) => m,
        Err(e) => return Err(e),
    };
    let y = match address_mode(wrap_y) {
        Ok(m) => m,
        Err(e) => return Err(e),
    };
    Ok(SamplerModes { filter: f, wrap_x: x, wrap_y: y })
}

} // verus!
