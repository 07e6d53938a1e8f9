use vstd::prelude::*;

verus! {

/// The part of a monitor that windows may use, in physical pixels.
#[derive(Clone, Copy, Debug, PartialEq, Eq, Structural)]
pub struct WorkArea {
    pub x: i32,
    pub y: i32,
    pub width: i32,
    pub height: i32,
}

/// A monitor together with the bin's size in physical pixels on it.
#[derive(Clone, Copy, Debug, PartialEq, Eq, Structural)]
pub struct MonitorFit {
    pub area: WorkArea,
    pub width: i32,
    pub height: i32,
}

pub open spec fn in_i32(v: int) -> bool {
    i32::MIN <= v <= i32::MAX
}

/// The sums compared when checking that a window fits an area stay in `i32`.
pub open spec fn fit_in_range(x: i32, y: i32, width: i32, height: i32, area: WorkArea) -> bool {
    &&& in_i32(x + width)
    &&& in_i32(y + height)
    &&& in_i32(area.x + area.width)
    &&& in_i32(area.y + area.height)
}

/// A window of the given size at `(x, y)` lies wholly inside the area.
pub open spec fn spec_fits(x: i32, y: i32, width: i32, height: i32, area: WorkArea) -> bool {
    &&& x >= area.x
    &&& y >= area.y
    &&& x + width <= area.x + area.width
    &&& y + height <= area.y + area.height
}

/// Whether `v` lies in the range of `i32`.
fn fits_i32(v: i64) -> (ok: bool)
    ensures
        ok == in_i32(v as int),
{
    i32::MIN as i64 <= v && v <= i32::MAX as i64
}

/// Whether the sums of a fit check stay in `i32`.
pub fn fit_arithmetic_ok(x: i32, y: i32, width: i32, height: i32, area: WorkArea) -> (ok: bool)
    ensures
        ok == fit_in_range(x, y, width, height, area),
{
    fits_i32(x as i64 + width as i64) && fits_i32(y as i64 + height as i64) && fits_i32(
        area.x as i64 + area.width as i64,
    ) && fits_i32(area.y as i64 + area.height as i64)
}

/// Whether the bin, placed at `(x, y)` with the given size, lies inside the area.
pub fn fits_in_area(x: i32, y: i32, width: i32, height: i32, area: WorkArea) -> (inside: bool)
    requires
        fit_in_range(x, y, width, height, area),
    ensures
        inside == spec_fits(x, y, width, height, area),
        inside == (x >= area.x && y >= area.y && x + width <= area.x + area.width && y + height <= area.y
            + area.height),
{
    x >= area.x && y >= area.y && x + width <= area.x + area.width && y + height <= area.y + area.height
}

/// Every check of a saved position against the monitors stays in `i32`.
pub open spec fn monitors_in_range(x: i32, y: i32, monitors: Seq<MonitorFit>) -> bool {
    forall|k: int| 0 <= k < monitors.len() ==> #[trigger] fit_in_range(x, y, monitors[k].width, monitors[k].height, monitors[k].area)
}

/// The saved position puts the bin wholly inside one of the monitors.
pub open spec fn spec_position_usable(x: i32, y: i32, monitors: Seq<MonitorFit>) -> bool {
    exists|k: int| 0 <= k < monitors.len() && #[trigger] spec_fits(x, y, monitors[k].width, monitors[k].height, monitors[k].area)
}

/// Whether a position remembered from an earlier run can be used again:
/// the bin, sized for each monitor, lies wholly inside the work area of one.
pub fn position_usable(x: i32, y: i32, monitors: &Vec<MonitorFit>) -> (usable: bool)
    requires
        monitors_in_range(x, y, monitors@),
    ensures
        usable == spec_position_usable(x, y, monitors@),
{
    let mut k: usize = 0;
    while k < monitors.len()
        invariant
            k <= monitors.len(),
            monitors_in_range(x, y, monitors@),
            forall|j: int| 0 <= j < k ==> !#[trigger] spec_fits(x, y, monitors@[j].width, monitors@[j].height, monitors@[j].area),
        decreases monitors.len() - k,
    {
        let m = monitors[k];
        assert(fit_in_range(x, y, monitors@[k as int].width, monitors@[k as int].height, monitors@[k as int].area));
        if fits_in_area(x, y, m.width, m.height, m.area) {
            return true;
        }
        k = k + 1;
    }
    false
}

/// The sums of the default placement stay in `i32`.
pub open spec fn fallback_in_range(area: WorkArea, width: i32, height: i32, margin: i32) -> bool {
    &&& in_i32(area.x + area.width)
    &&& in_i32(area.x + area.width - width)
    &&& in_i32(area.x + area.width - width - margin)
    &&& in_i32(area.y + area.height)
    &&& in_i32(area.y + area.height - height)
    &&& in_i32(area.y + area.height - height - margin)
}

/// Whether the sums of the default placement stay in `i32`.
pub fn fallback_arithmetic_ok(area: WorkArea, width: i32, height: i32, margin: i32) -> (ok: bool)
    ensures
        ok == fallback_in_range(area, width, height, margin),
{
    let right = area.x as i64 + area.width as i64;
    let bottom = area.y as i64 + area.height as i64;
    fits_i32(right) && fits_i32(right - width as i64) && fits_i32(right - width as i64 - margin as i64) && fits_i32(
        bottom,
    ) && fits_i32(bottom - height as i64) && fits_i32(bottom - height as i64 - margin as i64)
}

/// The default place of the bin: the bottom-right corner of the work area,
/// `margin` pixels in from both edges.
pub fn fallback_position(area: WorkArea, width: i32, height: i32, margin: i32) -> (p: (i32, i32))
    requires
        fallback_in_range(area, width, height, margin),
    ensures
        p.0 == area.x + area.width - width - margin,
        p.1 == area.y + area.height - height - margin,
        0 <= margin && width + margin <= area.width && height + margin <= area.height ==> spec_fits(
            p.0,
            p.1,
            width,
            height,
            area,
        ),
{
    (area.x + area.width - width - margin, area.y + area.height - height - margin)
}

/// The sums of a resize placement stay in `i32`.
pub open spec fn resize_in_range(
    old_x: i32,
    old_y: i32,
    old_width: i32,
    old_height: i32,
    width: i32,
    height: i32,
    area: WorkArea,
) -> bool {
    &&& in_i32(area.x + area.width)
    &&& in_i32(area.x + area.width - width)
    &&& in_i32(area.y + area.height)
    &&& in_i32(area.y + area.height - height)
    &&& in_i32(old_x + old_width)
    &&& in_i32(old_x + old_width - width)
    &&& in_i32(old_y + old_height)
    &&& in_i32(old_y + old_height - height)
}

/// Whether the sums of a resize placement stay in `i32`.
pub fn resize_arithmetic_ok(
    old_x: i32,
    old_y: i32,
    old_width: i32,
    old_height: i32,
    width: i32,
    height: i32,
    area: WorkArea,
) -> (ok: bool)
    ensures
        ok == resize_in_range(old_x, old_y, old_width, old_height, width, height, area),
{
    let right = area.x as i64 + area.width as i64;
    let bottom = area.y as i64 + area.height as i64;
    let old_right = old_x as i64 + old_width as i64;
    let old_bottom = old_y as i64 + old_height as i64;
    fits_i32(right) && fits_i32(right - width as i64) && fits_i32(bottom) && fits_i32(bottom - height as i64)
        && fits_i32(old_right) && fits_i32(old_right - width as i64) && fits_i32(old_bottom) && fits_i32(
        old_bottom - height as i64,
    )
}

pub open spec fn clamp_spec(v: int, lo: int, hi: int) -> int {
    if v < lo {
        lo
    } else if v > hi {
        hi
    } else {
        v
    }
}

/// `v` limited to `lo..=hi`.
fn clamp_i32(v: i32, lo: i32, hi: i32) -> (r: i32)
    requires
        lo <= hi,
    ensures
        r == clamp_spec(v as int, lo as int, hi as int),
{
    if v < lo {
        lo
    } else if v > hi {
        hi
    } else {
        v
    }
}

/// One coordinate after a resize: the far edge stays where it was, limited
/// to the positions that keep the window's near edge inside the area.
pub open spec fn anchored(old: int, old_size: int, size: int, start: int, extent: int) -> int {
    let lo = start;
    let hi = if start + extent - size > start { start + extent - size } else { start };
    clamp_spec(old + old_size - size, lo, hi)
}

/// Where the bin goes when it changes size: its bottom-right corner stays
/// in place, but the window is kept inside the work area (its top-left
/// corner never leaves the area).
pub fn resized_position(
    old_x: i32,
    old_y: i32,
    old_width: i32,
    old_height: i32,
    width: i32,
    height: i32,
    area: WorkArea,
) -> (p: (i32, i32))
    requires
        resize_in_range(old_x, old_y, old_width, old_height, width, height, area),
    ensures
        p.0 == anchored(old_x as int, old_width as int, width as int, area.x as int, area.width as int),
        p.1 == anchored(old_y as int, old_height as int, height as int, area.y as int, area.height as int),
        p.0 >= area.x,
        p.1 >= area.y,
        width <= area.width ==> p.0 + width <= area.x + area.width,
        height <= area.height ==> p.1 + height <= area.y + area.height,
        width <= area.width && height <= area.height ==> spec_fits(p.0, p.1, width, height, area),
        area.x <= old_x + old_width - width && old_x + old_width <= area.x + area.width ==> p.0 + width == old_x
            + old_width,
        area.y <= old_y + old_height - height && old_y + old_height <= area.y + area.height ==> p.1 + height
            == old_y + old_height,
        old_x + old_width - width < area.x ==> p.0 == area.x,
        old_y + old_height - height < area.y ==> p.1 == area.y,
        width <= area.width && old_x + old_width > area.x + area.width ==> p.0 + width == area.x + area.width,
        height <= area.height && old_y + old_height > area.y + area.height ==> p.1 + height == area.y
            + area.height,
{
    let min_x = area.x;
    let min_y = area.y;
    let max_x = if area.x + area.width - width > min_x {
        area.x + area.width - width
    } else {
        min_x
    };
    let max_y = if area.y + area.height - height > min_y {
        area.y + area.height - height
    } else {
        min_y
    };
    let x = clamp_i32(old_x + old_width - width, min_x, max_x);
    let y = clamp_i32(old_y + old_height - height, min_y, max_y);
    (x, y)
}

/// When the area leaves room, a resize keeps the bin's bottom-right corner
/// exactly where it was.
pub proof fn lemma_resize_keeps_corner(
    old_x: int,
    old_width: int,
    width: int,
    start: int,
    extent: int,
)
    requires
        start <= old_x + old_width - width,
        old_x + old_width <= start + extent,
    ensures
        anchored(old_x, old_width, width, start, extent) + width == old_x + old_width,
{
}

/// A window reported as fitting lies wholly inside the area, on all four
/// sides; and a window inside the area on all four sides is reported as fitting.
pub proof fn lemma_fit_means_wholly_inside(x: i32, y: i32, width: i32, height: i32, area: WorkArea)
    ensures
        spec_fits(x, y, width, height, area) ==> {
            &&& x >= area.x
            &&& y >= area.y
            &&& x + width <= area.x + area.width
            &&& y + height <= area.y + area.height
        },
        (x >= area.x && y >= area.y && x + width <= area.x + area.width && y + height <= area.y + area.height)
            ==> spec_fits(x, y, width, height, area),
{
}

/// A remembered position is usable exactly when, on some monitor, the bin
/// sized for that monitor lies wholly inside its work area.
pub proof fn lemma_usable_means_inside_some_monitor(x: i32, y: i32, monitors: Seq<MonitorFit>)
    ensures
        spec_position_usable(x, y, monitors) <==> exists|k: int|
            0 <= k < monitors.len() && {
                let m = #[trigger] monitors[k];
                &&& x >= m.area.x
                &&& y >= m.area.y
                &&& x + m.width <= m.area.x + m.area.width
                &&& y + m.height <= m.area.y + m.area.height
            },
{
    if spec_position_usable(x, y, monitors) {
        let k = choose|k: int| 0 <= k < monitors.len() && #[trigger] spec_fits(x, y, monitors[k].width, monitors[k].height, monitors[k].area);
        let m = monitors[k];
        assert(x >= m.area.x && y >= m.area.y && x + m.width <= m.area.x + m.area.width && y + m.height <= m.area.y + m.area.height);
    }
    if exists|k: int|
        0 <= k < monitors.len() && {
            let m = #[trigger] monitors[k];
            &&& x >= m.area.x
            &&& y >= m.area.y
            &&& x + m.width <= m.area.x + m.area.width
            &&& y + m.height <= m.area.y + m.area.height
        } {
        let k = choose|k: int|
            0 <= k < monitors.len() && {
                let m = #[trigger] monitors[k];
                &&& x >= m.area.x
                &&& y >= m.area.y
                &&& x + m.width <= m.area.x + m.area.width
                &&& y + m.height <= m.area.y + m.area.height
            };
        assert(spec_fits(x, y, monitors[k].width, monitors[k].height, monitors[k].area));
    }
}

} // verus!
