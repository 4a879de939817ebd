//! Surfaces (windows or offscreen canvases), the pixel storage of an
//! offscreen canvas, and the integer placement of a window on a monitor.
use crate::error::{ProcessingError, Result};
use vstd::prelude::*;

verus! {

/// Marks an entity as a surface that graphics render to.
#[derive(Debug, Clone, Copy, PartialEq, Eq, Structural)]
pub struct Surface;

/// Registers surface support with an app.
#[derive(Debug, Clone, Copy, PartialEq, Eq, Structural)]
pub struct SurfacePlugin;

/// The texture format of an offscreen canvas.
#[derive(Debug, Clone, Copy, PartialEq, Eq, Structural)]
pub enum OffscreenFormat {
    R8Unorm,
    Rg8Unorm,
    Rgba8Unorm,
    Rgba8UnormSrgb,
    Bgra8Unorm,
    Rgba16Float,
    Rgba32Float,
    /// Any other texture format.
    Other,
}

/// The bytes per pixel that an offscreen canvas of `format` is given: one
/// for each 8-bit channel of the single- and two-channel formats, four for
/// the four-channel ones; no other format is supported.
pub open spec fn offscreen_pixel_bytes(format: OffscreenFormat) -> Option<nat> {
    match format {
        OffscreenFormat::R8Unorm => Some(1),
        OffscreenFormat::Rg8Unorm => Some(2),
        OffscreenFormat::Other => None,
        _ => Some(4),
    }
}

/// The bytes per pixel of an offscreen canvas of `format`, or `None` for a
/// format that is not supported.
pub fn offscreen_pixel_size(format: OffscreenFormat) -> (r: Option<u32>)
    ensures
        match offscreen_pixel_bytes(format) {
            Some(p) => r == Some(p as u32),
            None => r is None,
        },
{
    match format {
        OffscreenFormat::R8Unorm => Some(1),
        OffscreenFormat::Rg8Unorm => Some(2),
        OffscreenFormat::Rgba8Unorm
        | OffscreenFormat::Rgba8UnormSrgb
        | OffscreenFormat::Bgra8Unorm
        | OffscreenFormat::Rgba16Float
        | OffscreenFormat::Rgba32Float => Some(4),
        OffscreenFormat::Other => None,
    }
}

/// Offscreen canvases take one byte per pixel for the single-channel 8-bit
/// format, two for the two-channel one, and four for every four-channel
/// format (floating-point ones included); other formats are refused.
pub proof fn lemma_offscreen_pixel_bytes(format: OffscreenFormat)
    ensures
        format == OffscreenFormat::R8Unorm ==> offscreen_pixel_bytes(format) == Some(1nat),
        format == OffscreenFormat::Rg8Unorm ==> offscreen_pixel_bytes(format) == Some(2nat),
        (format == OffscreenFormat::Rgba8Unorm || format == OffscreenFormat::Rgba8UnormSrgb || format
            == OffscreenFormat::Bgra8Unorm || format == OffscreenFormat::Rgba16Float || format
            == OffscreenFormat::Rgba32Float) ==> offscreen_pixel_bytes(format) == Some(4nat),
        format == OffscreenFormat::Other ==> offscreen_pixel_bytes(format) is None,
{
}

/// Whether the pixel storage of a `width` by `height` canvas of `format`
/// fits in `u32` bytes; true of an unsupported format, which is refused
/// before any size is computed.
pub open spec fn offscreen_fits(width: u32, height: u32, format: OffscreenFormat) -> bool {
    match offscreen_pixel_bytes(format) {
        Some(p) => width * height * p <= u32::MAX,
        None => true,
    }
}

/// The zeroed pixel storage of an offscreen canvas of `width` by `height`
/// physical pixels in `format`.
pub fn prepare_offscreen(width: u32, height: u32, format: OffscreenFormat) -> (r: Result<Vec<u8>>)
    requires
        offscreen_fits(width, height, format),
    ensures
        match offscreen_pixel_bytes(format) {
            Some(p) => r is Ok && r->Ok_0@ == Seq::new((width * height * p) as nat, |i: int| 0u8),
            None => r == Err::<Vec<u8>, ProcessingError>(ProcessingError::UnsupportedTextureFormat),
        },
{
    let pixel_size: u32 = match offscreen_pixel_size(format) {
        Some(p) => p,
        None => {
            return Err(ProcessingError::UnsupportedTextureFormat);
        },
    };
    proof {
        assert(width * height <= width * height * pixel_size) by (nonlinear_arith)
            requires pixel_size >= 1;
    }
    let n: u32 = width * height * pixel_size;
    let mut data: Vec<u8> = Vec::new();
    let mut i: u32 = 0;
    while i < n
        invariant
            i <= n,
            data@ == Seq::new(i as nat, |k: int| 0u8),
        decreases n - i,
    {
        data.push(0u8);
        proof {
            assert(data@ =~= Seq::new((i + 1) as nat, |k: int| 0u8));
        }
        i = i + 1;
    }
    Ok(data)
}

/// An integer rectangle in physical pixels, `min` inclusive, `max`
/// exclusive.
#[derive(Debug, Clone, Copy, PartialEq, Eq, Structural)]
pub struct PixelRect {
    pub min_x: i32,
    pub min_y: i32,
    pub max_x: i32,
    pub max_y: i32,
}

/// Rust's `/` on integers: the quotient rounded toward zero.
pub open spec fn div_toward_zero(a: int, b: int) -> int
    recommends
        b != 0,
{
    if a >= 0 {
        a / b
    } else {
        -((-a) / b)
    }
}

/// Halves `v`, rounding toward zero as integer division does.
pub fn half_toward_zero(v: i32) -> (r: i32)
    ensures
        r == div_toward_zero(v as int, 2),
{
    v / 2
}

/// `v` reinterpreted as a signed 32-bit integer, as a cast does.
pub open spec fn as_signed(v: u32) -> int {
    if v <= i32::MAX {
        v as int
    } else {
        v - 0x1_0000_0000
    }
}

fn cast_signed(v: u32) -> (r: i32)
    ensures
        r == as_signed(v),
{
    let r = v as i32;
    assert(v <= 0x7fff_ffff ==> r == v) by (bit_vector)
        requires
            r == v as i32,
    ;
    assert(v > 0x7fff_ffff ==> r == v - 0x1_0000_0000) by (bit_vector)
        requires
            r == v as i32,
    ;
    r
}

/// What the library knows of a monitor: its position and size in physical
/// pixels, and the usable region the windowing backend reported, if any.
#[derive(Debug, Clone, Copy, PartialEq, Eq, Structural)]
pub struct MonitorInfo {
    pub x: i32,
    pub y: i32,
    pub width: u32,
    pub height: u32,
    pub workarea: Option<PixelRect>,
}

/// The rectangle with corners `(ax, ay)` and `(bx, by)`, in either order.
pub open spec fn from_corners(ax: int, ay: int, bx: int, by: int) -> (int, int, int, int) {
    (
        if ax <= bx { ax } else { bx },
        if ay <= by { ay } else { by },
        if ax <= bx { bx } else { ax },
        if ay <= by { by } else { ay },
    )
}

/// The far corner of a monitor's full area fits in `i32`.
pub open spec fn monitor_fits(m: MonitorInfo) -> bool {
    &&& i32::MIN <= m.x + as_signed(m.width) <= i32::MAX
    &&& i32::MIN <= m.y + as_signed(m.height) <= i32::MAX
}

/// A rectangle as `(min_x, min_y, max_x, max_y)`.
pub open spec fn rect_tuple(r: PixelRect) -> (int, int, int, int) {
    (r.min_x as int, r.min_y as int, r.max_x as int, r.max_y as int)
}

/// The usable region of a monitor: the reported one, else the whole
/// monitor; nothing (an empty rectangle at the origin) without a monitor.
pub open spec fn workarea_of(m: Option<MonitorInfo>) -> (int, int, int, int) {
    match m {
        None => (0, 0, 0, 0),
        Some(m) => match m.workarea {
            Some(w) => rect_tuple(w),
            None => from_corners(m.x as int, m.y as int, m.x + as_signed(m.width), m.y + as_signed(m.height)),
        },
    }
}

fn min_i32(a: i32, b: i32) -> (r: i32)
    ensures
        r == (if a <= b { a } else { b }),
{
    if a <= b { a } else { b }
}

fn max_i32(a: i32, b: i32) -> (r: i32)
    ensures
        r == (if a <= b { b } else { a }),
{
    if a <= b { b } else { a }
}

/// The usable region of a monitor, or an empty rectangle at the origin when
/// there is no monitor.
pub fn monitor_workarea(m: Option<MonitorInfo>) -> (r: PixelRect)
    requires
        m matches Some(mi) ==> mi.workarea is Some || monitor_fits(mi),
    ensures
        rect_tuple(r) == workarea_of(m),
{
    match m {
        None => PixelRect { min_x: 0, min_y: 0, max_x: 0, max_y: 0 },
        Some(mi) => match mi.workarea {
            Some(w) => w,
            None => {
                let far_x = mi.x + cast_signed(mi.width);
                let far_y = mi.y + cast_signed(mi.height);
                PixelRect {
                    min_x: min_i32(mi.x, far_x),
                    min_y: min_i32(mi.y, far_y),
                    max_x: max_i32(mi.x, far_x),
                    max_y: max_i32(mi.y, far_y),
                }
            },
        },
    }
}

/// Where a monitor's usable region starts: the reported region's corner,
/// else the monitor's position.
pub open spec fn origin_of(m: MonitorInfo) -> (int, int) {
    match m.workarea {
        Some(w) => (w.min_x as int, w.min_y as int),
        None => (m.x as int, m.y as int),
    }
}

/// The window position `(x, y)` pixels into a monitor's usable region;
/// `None`, leaving the window where it is, when there is no monitor.
pub fn position_on_monitor(m: Option<MonitorInfo>, x: i32, y: i32) -> (r: Option<(i32, i32)>)
    requires
        m matches Some(mi) ==> {
            &&& i32::MIN <= origin_of(mi).0 + x <= i32::MAX
            &&& i32::MIN <= origin_of(mi).1 + y <= i32::MAX
        },
    ensures
        match m {
            None => r is None,
            Some(mi) => r matches Some(p) && p.0 == origin_of(mi).0 + x && p.1 == origin_of(mi).1 + y,
        },
{
    match m {
        None => None,
        Some(mi) => {
            let (ox, oy) = match mi.workarea {
                Some(w) => (w.min_x, w.min_y),
                None => (mi.x, mi.y),
            };
            Some((ox + x, oy + y))
        },
    }
}

/// The centring offset along one axis: `min + (extent - size) / 2`,
/// the division rounding toward zero.
pub open spec fn centered(min: int, max: int, size: int) -> int {
    min + div_toward_zero((max - min) - size, 2)
}

/// Centring splits the free space evenly: the margins before and after the
/// window differ by at most one pixel, and when the window fits the extra
/// pixel of an odd free space goes after it.
pub proof fn lemma_centering_balances_margins(min: int, max: int, size: int)
    ensures
        ({
            let before = centered(min, max, size) - min;
            let after = max - (centered(min, max, size) + size);
            &&& before + after == (max - min) - size
            &&& -1 <= after - before <= 1
            &&& (max - min) - size >= 0 ==> 0 <= after - before
        }),
{
}

/// The usable region of a monitor without a reported one is the monitor's
/// full area, whichever way its size runs: its corners are ordered.
pub proof fn lemma_workarea_ordered(m: MonitorInfo)
    requires
        m.workarea is None,
    ensures
        workarea_of(Some(m)).0 <= workarea_of(Some(m)).2,
        workarea_of(Some(m)).1 <= workarea_of(Some(m)).3,
        workarea_of(Some(m)).2 - workarea_of(Some(m)).0 == (if as_signed(m.width) >= 0 {
            as_signed(m.width)
        } else {
            -as_signed(m.width)
        }),
{
}

/// The position that centres a window of `width` by `height` physical
/// pixels in a monitor's usable region; `None`, leaving the window where it
/// is, when there is no monitor.
pub fn center_on_monitor(m: Option<MonitorInfo>, width: u32, height: u32) -> (r: Option<(i32, i32)>)
    requires
        m matches Some(mi) ==> {
            let a = workarea_of(Some(mi));
            &&& mi.workarea is Some || monitor_fits(mi)
            &&& i32::MIN <= a.2 - a.0 <= i32::MAX
            &&& i32::MIN <= a.3 - a.1 <= i32::MAX
            &&& i32::MIN <= (a.2 - a.0) - as_signed(width) <= i32::MAX
            &&& i32::MIN <= (a.3 - a.1) - as_signed(height) <= i32::MAX
            &&& i32::MIN <= centered(a.0, a.2, as_signed(width)) <= i32::MAX
            &&& i32::MIN <= centered(a.1, a.3, as_signed(height)) <= i32::MAX
        },
    ensures
        match m {
            None => r is None,
            Some(mi) => {
                let a = workarea_of(Some(mi));
                r matches Some(p) && p.0 == centered(a.0, a.2, as_signed(width)) && p.1 == centered(
                    a.1,
                    a.3,
                    as_signed(height),
                )
            },
        },
{
    match m {
        None => None,
        Some(mi) => {
            let area = monitor_workarea(Some(mi));
            let w = cast_signed(width);
            let h = cast_signed(height);
            let free_x = (area.max_x - area.min_x) - w;
            let free_y = (area.max_y - area.min_y) - h;
            let hx = half_toward_zero(free_x);
            let hy = half_toward_zero(free_y);
            Some((area.min_x + hx, area.min_y + hy))
        },
    }
}

} // verus!
