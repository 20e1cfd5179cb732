use vstd::prelude::*;

verus! {

/// A point in logical integer coordinates.
#[derive(Clone, Copy, Debug, PartialEq, Eq, Structural)]
pub struct Point {
    pub x: i32,
    pub y: i32,
}

/// An extent in logical integer units.
#[derive(Clone, Copy, Debug, PartialEq, Eq, Structural)]
pub struct Size {
    pub w: i32,
    pub h: i32,
}

/// A pointer position in 24.8 fixed-point logical coordinates: 256 steps
/// to a logical unit, as pointer positions travel on the wire.
#[derive(Clone, Copy, Debug, PartialEq, Eq, Structural)]
pub struct PointerPos {
    pub x: i32,
    pub y: i32,
}

/// The set of window edges being dragged.
#[derive(Clone, Copy, Debug, PartialEq, Eq, Structural)]
pub struct ResizeEdge {
    pub top: bool,
    pub bottom: bool,
    pub left: bool,
    pub right: bool,
}

pub open spec fn i32_min() -> int {
    i32::MIN as int
}

pub open spec fn i32_max() -> int {
    i32::MAX as int
}

/// Saturating conversion of an integer into the `i32` range.
pub open spec fn saturate_i32(v: int) -> int {
    if v < i32_min() {
        i32_min()
    } else if v > i32_max() {
        i32_max()
    } else {
        v
    }
}

/// `v / 256`, truncated toward zero.
pub open spec fn trunc_fixed(v: int) -> int {
    if v >= 0 {
        v / 256
    } else {
        -((-v) / 256)
    }
}

/// `v / 256`, rounded to the nearest integer, halves away from zero.
pub open spec fn round_fixed(v: int) -> int {
    if v >= 0 {
        (2 * v + 256) / 512
    } else {
        -((-2 * v + 256) / 512)
    }
}

impl PointerPos {
    /// The pointer position at the logical integer point `(x, y)`.
    pub fn from_logical(x: i32, y: i32) -> (r: PointerPos)
        requires
            -0x80_0000 <= x < 0x80_0000,
            -0x80_0000 <= y < 0x80_0000,
        ensures
            r.x == x * 256,
            r.y == y * 256,
    {
        PointerPos { x: x * 256, y: y * 256 }
    }
}

impl ResizeEdge {
    pub open spec fn from_bits_spec(bits: u32) -> ResizeEdge {
        ResizeEdge {
            top: bits & 1 != 0,
            bottom: bits & 2 != 0,
            left: bits & 4 != 0,
            right: bits & 8 != 0,
        }
    }

    /// The edge set of an `xdg_toplevel` resize-edge value
    /// (top = 1, bottom = 2, left = 4, right = 8).
    pub fn from_bits(bits: u32) -> (r: ResizeEdge)
        ensures
            r == Self::from_bits_spec(bits),
    {
        ResizeEdge {
            top: bits & 1 != 0,
            bottom: bits & 2 != 0,
            left: bits & 4 != 0,
            right: bits & 8 != 0,
        }
    }

    pub open spec fn horizontal(self) -> bool {
        self.left || self.right
    }

    pub open spec fn vertical(self) -> bool {
        self.top || self.bottom
    }
}

/// The smallest size the window may take on an axis: the declared minimum,
/// but never below one.
pub open spec fn lower_bound(declared_min: i32) -> int {
    if declared_min < 1 {
        1
    } else {
        declared_min as int
    }
}

/// The largest size the window may take on an axis: the declared maximum,
/// where zero means unbounded.
pub open spec fn upper_bound(declared_max: i32) -> int {
    if declared_max == 0 {
        i32_max()
    } else {
        declared_max as int
    }
}

/// `min(max(v, lower), upper)`: the lower bound first, then the upper one.
pub open spec fn clamp_axis(v: int, declared_min: i32, declared_max: i32) -> int {
    let lo = if v < lower_bound(declared_min) {
        lower_bound(declared_min)
    } else {
        v
    };
    if lo > upper_bound(declared_max) {
        upper_bound(declared_max)
    } else {
        lo
    }
}

/// The unclamped size on one axis after a drag by `disp` (24.8 fixed point).
/// An inactive axis keeps its size; on an active one the displacement is
/// negated when the leading edge (left or top) is dragged.
pub open spec fn raw_axis(start: i32, disp: int, active: bool, leading: bool) -> int {
    if !active {
        start as int
    } else {
        let d = if leading {
            -disp
        } else {
            disp
        };
        saturate_i32(trunc_fixed(start * 256 + d))
    }
}

/// The candidate size on one axis.
pub open spec fn solve_axis(
    start: i32,
    disp: int,
    active: bool,
    leading: bool,
    declared_min: i32,
    declared_max: i32,
) -> int {
    clamp_axis(raw_axis(start, disp, active, leading), declared_min, declared_max)
}

/// The candidate size of a window of size `start` whose `edges` were dragged
/// by `(dx, dy)`, within the declared constraints.
pub open spec fn solve_spec(
    start: Size,
    edges: ResizeEdge,
    dx: int,
    dy: int,
    min_size: Size,
    max_size: Size,
) -> (int, int) {
    (
        solve_axis(start.w, dx, edges.horizontal(), edges.left, min_size.w, max_size.w),
        solve_axis(start.h, dy, edges.vertical(), edges.top, min_size.h, max_size.h),
    )
}

/// A displacement that fits the difference of two fixed-point positions.
pub open spec fn displacement_in_range(d: int) -> bool {
    -0x1_0000_0000 <= d <= 0x1_0000_0000
}

fn trunc_fixed_exec(v: i64) -> (r: i64)
    requires
        -0x10_0000_0000_0000 <= v <= 0x10_0000_0000_0000,
    ensures
        r == trunc_fixed(v as int),
{
    if v >= 0 {
        v / 256
    } else {
        let n: i64 = -v;
        -(n / 256)
    }
}

fn round_fixed_exec(v: i64) -> (r: i64)
    requires
        -0x10_0000_0000_0000 <= v <= 0x10_0000_0000_0000,
    ensures
        r == round_fixed(v as int),
{
    if v >= 0 {
        (2 * v + 256) / 512
    } else {
        let n: i64 = 256 - 2 * v;
        -(n / 512)
    }
}

fn saturate_i32_exec(v: i64) -> (r: i32)
    ensures
        r == saturate_i32(v as int),
{
    if v < i32::MIN as i64 {
        i32::MIN
    } else if v > i32::MAX as i64 {
        i32::MAX
    } else {
        v as i32
    }
}

fn clamp_axis_exec(v: i32, declared_min: i32, declared_max: i32) -> (r: i32)
    ensures
        r == clamp_axis(v as int, declared_min, declared_max),
{
    let lower: i32 = if declared_min < 1 {
        1
    } else {
        declared_min
    };
    let upper: i32 = if declared_max == 0 {
        i32::MAX
    } else {
        declared_max
    };
    let lo: i32 = if v < lower {
        lower
    } else {
        v
    };
    if lo > upper {
        upper
    } else {
        lo
    }
}

fn solve_axis_exec(
    start: i32,
    disp: i64,
    active: bool,
    leading: bool,
    declared_min: i32,
    declared_max: i32,
) -> (r: i32)
    requires
        displacement_in_range(disp as int),
    ensures
        r == solve_axis(start, disp as int, active, leading, declared_min, declared_max),
{
    let raw: i32 = if !active {
        start
    } else {
        let d: i64 = if leading {
            -disp
        } else {
            disp
        };
        saturate_i32_exec(trunc_fixed_exec(start as i64 * 256 + d))
    };
    clamp_axis_exec(raw, declared_min, declared_max)
}

/// The candidate size of a window of size `start` when its `edges` are
/// dragged by the fixed-point displacement `(dx, dy)`, clamped to
/// `[max(min, 1), max]` on each axis (a zero maximum is unbounded).
pub fn solve_size(start: Size, edges: ResizeEdge, dx: i64, dy: i64, min_size: Size, max_size: Size) -> (r: Size)
    requires
        displacement_in_range(dx as int),
        displacement_in_range(dy as int),
    ensures
        (r.w as int, r.h as int) == solve_spec(start, edges, dx as int, dy as int, min_size, max_size),
{
    let w = solve_axis_exec(start.w, dx, edges.left || edges.right, edges.left, min_size.w, max_size.w);
    let h = solve_axis_exec(start.h, dy, edges.top || edges.bottom, edges.top, min_size.h, max_size.h);
    Size { w, h }
}

/// One coordinate of a moved window: `start` plus the fixed-point
/// displacement `disp`, rounded to the nearest integer, halves away from zero.
pub open spec fn moved_axis(start: i32, disp: int) -> int {
    saturate_i32(round_fixed(start * 256 + disp))
}

/// The location of a window that started at `start` after the pointer moved
/// by the fixed-point displacement `(dx, dy)`, rounded to the nearest point.
pub fn move_location(start: Point, dx: i64, dy: i64) -> (r: Point)
    requires
        displacement_in_range(dx as int),
        displacement_in_range(dy as int),
    ensures
        r.x == moved_axis(start.x, dx as int),
        r.y == moved_axis(start.y, dy as int),
{
    let x = saturate_i32_exec(round_fixed_exec(start.x as i64 * 256 + dx));
    let y = saturate_i32_exec(round_fixed_exec(start.y as i64 * 256 + dy));
    Point { x, y }
}

/// The fixed-point displacement from `from` to `to`.
pub fn displacement(from: PointerPos, to: PointerPos) -> (r: (i64, i64))
    ensures
        r.0 == to.x - from.x,
        r.1 == to.y - from.y,
        displacement_in_range(r.0 as int),
        displacement_in_range(r.1 as int),
{
    (to.x as i64 - from.x as i64, to.y as i64 - from.y as i64)
}

/// Whatever the start size, edges and displacement, each side of the
/// candidate size lies between `max(min, 1)` and the maximum (unbounded when
/// zero), wherever that range is not empty.
pub proof fn lemma_solve_within_bounds(
    start: Size,
    edges: ResizeEdge,
    dx: int,
    dy: int,
    min_size: Size,
    max_size: Size,
)
    requires
        lower_bound(min_size.w) <= upper_bound(max_size.w),
        lower_bound(min_size.h) <= upper_bound(max_size.h),
    ensures
        lower_bound(min_size.w) <= solve_spec(start, edges, dx, dy, min_size, max_size).0
            <= upper_bound(max_size.w),
        lower_bound(min_size.h) <= solve_spec(start, edges, dx, dy, min_size, max_size).1
            <= upper_bound(max_size.h),
{
}

/// With no edge dragged, a size that already meets the constraints is kept
/// exactly, whatever the displacement.
pub proof fn lemma_solve_no_edges(start: Size, dx: int, dy: int, min_size: Size, max_size: Size)
    requires
        lower_bound(min_size.w) <= start.w <= upper_bound(max_size.w),
        lower_bound(min_size.h) <= start.h <= upper_bound(max_size.h),
    ensures
        solve_spec(
            start,
            (ResizeEdge { top: false, bottom: false, left: false, right: false }),
            dx,
            dy,
            min_size,
            max_size,
        ) == (start.w as int, start.h as int),
{
}

/// Dragging the leading edge of an axis (left, top) by a displacement gives
/// the same candidate as dragging only the trailing edge (right, bottom) by
/// the negated displacement: the two negations cancel.
pub proof fn lemma_leading_edge_negates(
    start: Size,
    edges: ResizeEdge,
    dx: int,
    dy: int,
    min_size: Size,
    max_size: Size,
)
    ensures
        edges.left ==> solve_spec(start, edges, dx, dy, min_size, max_size).0 == solve_spec(
            start,
            (ResizeEdge { left: false, right: true, ..edges }),
            -dx,
            dy,
            min_size,
            max_size,
        ).0,
        edges.top ==> solve_spec(start, edges, dx, dy, min_size, max_size).1 == solve_spec(
            start,
            (ResizeEdge { top: false, bottom: true, ..edges }),
            dx,
            -dy,
            min_size,
            max_size,
        ).1,
{
}

} // verus!
