use vstd::prelude::*;
use vstd::string::StringSliceAdditionalSpecFns;

verus! {

/// Logo plate width in pixels.
pub const TEX_W: usize = 256;
/// Logo plate height in pixels.
pub const TEX_H: usize = 128;
/// Byte length of an RGBA8 logo plate.
pub const TEX_BYTES: usize = 131072;

/// Horizontal pixel coordinate of byte `k` of a plate.
pub open spec fn px(k: int) -> int {
    (k / 4) % 256
}

/// Vertical pixel coordinate of byte `k` of a plate.
pub open spec fn py(k: int) -> int {
    (k / 4) / 256
}

/// `old` with every pixel (x, y) for which `cov(x, y)` holds set to
/// `color`; the other bytes unchanged.
pub open spec fn paint(old: Seq<u8>, cov: spec_fn(int, int) -> bool, color: [u8; 4]) -> Seq<u8> {
    Seq::new(old.len(), |k: int| if cov(px(k), py(k)) { color@[k % 4] } else { old[k] })
}

/// Painting twice with one colour paints the union.
pub proof fn lemma_paint_twice(old: Seq<u8>, a: spec_fn(int, int) -> bool, b: spec_fn(int, int) -> bool, color: [u8; 4])
    ensures
        paint(paint(old, a, color), b, color) =~= paint(old, |x: int, y: int| a(x, y) || b(x, y), color),
{
}

/// Paintings with regions that agree on every pixel of the plate agree.
pub proof fn lemma_paint_same(old: Seq<u8>, a: spec_fn(int, int) -> bool, b: spec_fn(int, int) -> bool, color: [u8; 4])
    requires
        forall|x: int, y: int| 0 <= x < 256 && 0 <= y < 128 ==> #[trigger] a(x, y) == b(x, y),
        old.len() == TEX_BYTES,
    ensures
        paint(old, a, color) =~= paint(old, b, color),
{
    assert forall|k: int| 0 <= k < old.len() implies paint(old, a, color)[k] == paint(old, b, color)[k] by {
        assert(0 <= px(k) < 256 && 0 <= py(k) < 128);
    }
}

/// Sets pixel (x, y) to `color`; a pixel outside the plate is ignored.
pub fn set_pixel(data: &mut Vec<u8>, x: usize, y: usize, color: &[u8; 4])
    requires
        old(data)@.len() == TEX_BYTES,
    ensures
        final(data)@ == paint(old(data)@, |px: int, py: int| px == x && py == y, *color),
{
    if x >= TEX_W || y >= TEX_H {
        proof {
            assert(data@ =~= paint(old(data)@, |px: int, py: int| px == x && py == y, *color)) by {
                assert forall|k: int| 0 <= k < data@.len() implies !(px(k) == x && py(k) == y) by {
                    assert(py(k) < 128);
                }
            }
        }
        return;
    }
    let idx = (y * TEX_W + x) * 4;
    data.set(idx, color[0]);
    data.set(idx + 1, color[1]);
    data.set(idx + 2, color[2]);
    data.set(idx + 3, color[3]);
    proof {
        assert forall|k: int| 0 <= k < data@.len() implies data@[k] == paint(old(data)@, |px: int, py: int| px == x && py == y, *color)[k] by {
            let p = y * 256 + x;
            if idx <= k < idx + 4 {
                assert(k / 4 == p);
                assert(px(k) == x && py(k) == y);
                assert(k % 4 == k - idx);
            } else {
                assert(k / 4 != p);
                assert(!(px(k) == x && py(k) == y));
            }
        }
        assert(data@ =~= paint(old(data)@, |px: int, py: int| px == x && py == y, *color));
    }
}


/// Sets the pixels (x, y) with `x0 <= x < x1` of row `y`.
pub fn fill_span(data: &mut Vec<u8>, y: usize, x0: usize, x1: usize, color: &[u8; 4])
    requires
        old(data)@.len() == TEX_BYTES,
    ensures
        final(data)@ == paint(old(data)@, |px: int, py: int| py == y && x0 <= px < x1, *color),
{
    let ghost start = data@;
    let mut col = x0;
    proof {
        assert(data@ =~= paint(start, |px: int, py: int| py == y && x0 <= px < col, *color));
    }
    while col < x1
        invariant
            col >= x0,
            col <= x1 || col == x0,
            data@.len() == TEX_BYTES,
            data@ == paint(start, |px: int, py: int| py == y && x0 <= px < col, *color),
        decreases x1 - col,
    {
        set_pixel(data, col, y, color);
        proof {
            lemma_paint_twice(
                start,
                |px: int, py: int| py == y && x0 <= px < col,
                |px: int, py: int| px == col && py == y,
                *color,
            );
            lemma_paint_same(
                start,
                |px: int, py: int| (py == y && x0 <= px < col) || (px == col && py == y),
                |px: int, py: int| py == y && x0 <= px < col + 1,
                *color,
            );
        }
        col = col + 1;
    }
    proof {
        lemma_paint_same(
            start,
            |px: int, py: int| py == y && x0 <= px < col,
            |px: int, py: int| py == y && x0 <= px < x1,
            *color,
        );
    }
}

/// Sets every pixel of the `w` by `h` rectangle whose top-left corner is
/// (x0, y0).
pub fn fill_rect(data: &mut Vec<u8>, x0: usize, y0: usize, w: usize, h: usize, color: &[u8; 4])
    requires
        old(data)@.len() == TEX_BYTES,
        x0 + w <= usize::MAX,
        y0 + h <= usize::MAX,
    ensures
        final(data)@ == paint(old(data)@, |px: int, py: int| x0 <= px < x0 + w && y0 <= py < y0 + h, *color),
{
    let ghost start = data@;
    let mut dy: usize = 0;
    proof {
        lemma_paint_same(start, |px: int, py: int| false, |px: int, py: int| x0 <= px < x0 + w && y0 <= py < y0 + dy, *color);
        assert(start =~= paint(start, |px: int, py: int| false, *color));
    }
    while dy < h
        invariant
            dy <= h,
            x0 + w <= usize::MAX,
            y0 + h <= usize::MAX,
            data@.len() == TEX_BYTES,
            start.len() == TEX_BYTES,
            data@ == paint(start, |px: int, py: int| x0 <= px < x0 + w && y0 <= py < y0 + dy, *color),
        decreases h - dy,
    {
        fill_span(data, y0 + dy, x0, x0 + w, color);
        proof {
            lemma_paint_twice(
                start,
                |px: int, py: int| x0 <= px < x0 + w && y0 <= py < y0 + dy,
                |px: int, py: int| py == y0 + dy && x0 <= px < x0 + w,
                *color,
            );
            lemma_paint_same(
                start,
                |px: int, py: int| (x0 <= px < x0 + w && y0 <= py < y0 + dy) || (py == y0 + dy && x0 <= px < x0 + w),
                |px: int, py: int| x0 <= px < x0 + w && y0 <= py < y0 + dy + 1,
                *color,
            );
        }
        dy = dy + 1;
    }
}


/// Product categories of the parody sponsor brands; each has its own mark.
#[derive(Clone, Copy, Debug, PartialEq, Eq, Structural)]
pub enum BrandCategory {
    Tires,
    Shocks,
    Lights,
    Winches,
    Wheels,
    Recovery,
    Lifestyle,
}

pub open spec fn imax(a: int, b: int) -> int {
    if a >= b { a } else { b }
}

pub open spec fn imin(a: int, b: int) -> int {
    if a <= b { a } else { b }
}

/// Tires: a triangle widening downward from the top centre.
pub open spec fn tires_span(ox: int, size: int, row: int, x: int) -> bool {
    let half_w = row * (size / 2) / imax(size, 1);
    let mid = ox + size / 2;
    imax(mid - half_w, 0) <= x < imin(mid + half_w + 1, ox + size)
}

/// Shocks: two slanted bands meeting at the bottom, forming a V.
pub open spec fn shocks_span(ox: int, size: int, i: int, x: int) -> bool {
    let th = imax(size / 8, 2);
    let rb = ox + size - 1 - i / 2;
    (ox + i / 2 <= x < imin(ox + i / 2 + th, ox + size)) || (imax(rb + 1 - th, ox) <= x <= rb)
}

/// Lights: a lightning-bolt zig-zag of two diagonal bands.
pub open spec fn lights_span(ox: int, size: int, row: int, x: int) -> bool {
    let half = size / 2;
    let thick = imax(size / 7, 2);
    if row < half {
        ox + size - 1 - row <= x < imin(ox + size - 1 - row + thick, ox + size)
    } else if row < 2 * half {
        ox + half - (row - half) <= x < imin(ox + half - (row - half) + thick, ox + size)
    } else {
        false
    }
}

/// Recovery and lifestyle: a shield, widening over its top third and
/// tapering over its bottom quarter.
pub open spec fn shield_half_width(size: int, row: int) -> int {
    let top_h = size / 3;
    let half_w = size / 2;
    if row < top_h {
        (row + 1) * half_w / imax(top_h, 1)
    } else if row >= size * 3 / 4 {
        imax((size - row) * half_w / imax(size / 4, 1), 1)
    } else {
        half_w
    }
}

pub open spec fn shield_span(ox: int, size: int, row: int, x: int) -> bool {
    let w = shield_half_width(size, row);
    let mid = ox + size / 2;
    imax(mid - w, 0) <= x < imin(mid + w, ox + size)
}

/// Winches: a ring with a diagonal slash across it.
pub open spec fn winch_hit(size: int, dx: int, dy: int) -> bool {
    let r = imax(size / 2 - 2, 0);
    let ring = imax(size / 8, 2);
    let inner = imax(r - ring, 0);
    let d2 = dx * dx + dy * dy;
    (d2 >= inner * inner && d2 <= r * r) || ((if dx + dy >= 0 { dx + dy } else { -(dx + dy) }) <= ring && d2 <= r * r)
}

/// Whether (dx, dy) lies in the flat-topped hexagon of radius `r`.
pub open spec fn hex_contains(dx: int, dy: int, r: int) -> bool {
    let adx = if dx >= 0 { dx } else { -dx };
    let ady = if dy >= 0 { dy } else { -dy };
    r > 0 && ady <= r && adx * 866 / 1000 + ady / 2 <= r
}

/// Wheels: a hexagonal ring.
pub open spec fn wheel_hit(size: int, dx: int, dy: int) -> bool {
    let r = imax(size / 2 - 3, 0);
    let ring = imax(size / 8, 2);
    hex_contains(dx, dy, r) && !hex_contains(dx, dy, imax(r - ring, 0))
}

/// The pixels of the mark of category `cat` drawn in the `size` square at
/// (ox, oy).
pub open spec fn mark_covers(cat: BrandCategory, ox: int, oy: int, size: int, x: int, y: int) -> bool {
    let row = y - oy;
    0 <= row < size && match cat {
        BrandCategory::Tires => tires_span(ox, size, row, x),
        BrandCategory::Shocks => shocks_span(ox, size, row, x),
        BrandCategory::Lights => lights_span(ox, size, row, x),
        BrandCategory::Winches => ox <= x < ox + size && winch_hit(size, x - (ox + size / 2), y - (oy + size / 2)),
        BrandCategory::Wheels => ox <= x < ox + size && wheel_hit(size, x - (ox + size / 2), y - (oy + size / 2)),
        BrandCategory::Recovery | BrandCategory::Lifestyle => shield_span(ox, size, row, x),
    }
}


/// The row-span part of a mark: row `row` (from the top of the mark) of a
/// category drawn as one or two horizontal spans per row.
pub open spec fn span_covers(cat: BrandCategory, ox: int, size: int, row: int, x: int) -> bool {
    match cat {
        BrandCategory::Tires => tires_span(ox, size, row, x),
        BrandCategory::Shocks => shocks_span(ox, size, row, x),
        BrandCategory::Lights => lights_span(ox, size, row, x),
        BrandCategory::Recovery | BrandCategory::Lifestyle => shield_span(ox, size, row, x),
        _ => false,
    }
}

pub open spec fn is_span_mark(cat: BrandCategory) -> bool {
    !(cat is Winches || cat is Wheels)
}

/// The limits of the drawing arithmetic: the mark square's coordinates and
/// the products of the triangle and chevron rows fit a `usize`, and for the
/// ring, hexagon and shield marks the squared distances and taper products
/// of the mark's size fit an `i32` (the position does not enter those).
pub open spec fn mark_fits(cat: BrandCategory, ox: int, oy: int, size: int) -> bool {
    &&& 0 <= ox && 0 <= oy && 0 <= size
    &&& ox + size * size + 3 * size <= usize::MAX
    &&& oy + size <= usize::MAX
    &&& (cat is Winches || cat is Wheels || cat is Recovery || cat is Lifestyle) ==>
        2 * size * size + 866 * size <= i32::MAX
}

fn min_usize(a: usize, b: usize) -> (r: usize)
    ensures
        r == imin(a as int, b as int),
{
    if a <= b { a } else { b }
}

fn max_usize(a: usize, b: usize) -> (r: usize)
    ensures
        r == imax(a as int, b as int),
{
    if a >= b { a } else { b }
}

fn tires_bounds(ox: usize, size: usize, row: usize) -> (r: (usize, usize))
    requires
        row < size,
        ox + size * size + 3 * size <= usize::MAX,
    ensures
        forall|x: int| #![trigger tires_span(ox as int, size as int, row as int, x)]
            tires_span(ox as int, size as int, row as int, x) <==> r.0 <= x < r.1,
{
    assert(row * (size / 2) <= size * size) by (nonlinear_arith)
        requires row < size;
    let half_w = row * (size / 2) / max_usize(size, 1);
    assert(half_w <= size / 2) by (nonlinear_arith)
        requires half_w == row * (size / 2) / imax(size as int, 1), row < size;
    let mid = ox + size / 2;
    let lo = if mid >= half_w { mid - half_w } else { 0 };
    let hi = min_usize(mid + half_w + 1, ox + size);
    (lo, hi)
}

fn shocks_bounds(ox: usize, size: usize, row: usize) -> (r: (usize, usize, usize, usize))
    requires
        row < size,
        ox + size * size + 3 * size <= usize::MAX,
    ensures
        forall|x: int| #![trigger shocks_span(ox as int, size as int, row as int, x)]
            shocks_span(ox as int, size as int, row as int, x) <==> ((r.0 <= x < r.1) || (r.2 <= x < r.3)),
{
    let th = max_usize(size / 8, 2);
    let l = ox + row / 2;
    let hi = if th < size - row / 2 { l + th } else { ox + size };
    let rb = ox + size - 1 - row / 2;
    let lo2 = if rb + 1 >= th { max_usize(rb + 1 - th, ox) } else { ox };
    (l, hi, lo2, rb + 1)
}

fn lights_bounds(ox: usize, size: usize, row: usize) -> (r: (usize, usize))
    requires
        row < size,
        ox + size * size + 3 * size <= usize::MAX,
    ensures
        forall|x: int| #![trigger lights_span(ox as int, size as int, row as int, x)]
            lights_span(ox as int, size as int, row as int, x) <==> r.0 <= x < r.1,
{
    let half = size / 2;
    let thick = max_usize(size / 7, 2);
    if row < half {
        let lo = ox + size - 1 - row;
        let hi = if thick < row + 1 { lo + thick } else { ox + size };
        (lo, hi)
    } else if row < 2 * half {
        let lo = ox + half - (row - half);
        let hi = if thick < size - half + (row - half) { lo + thick } else { ox + size };
        (lo, hi)
    } else {
        (0, 0)
    }
}

fn shield_width(size: usize, row: usize) -> (w: usize)
    requires
        row < size,
        size * size + 3 * size <= usize::MAX,
        2 * size * size + 866 * size <= i32::MAX,
    ensures
        w == shield_half_width(size as int, row as int),
        w <= size * size,
{
    let top_h = size / 3;
    let half_w = size / 2;
    assert(size * size <= i32::MAX && 1 <= size * size) by (nonlinear_arith)
        requires 2 * size * size + 866 * size <= i32::MAX, row < size;
    if row < top_h {
        assert((row + 1) * half_w <= size * size) by (nonlinear_arith)
            requires row < size, half_w <= size;
        let w = (row + 1) * half_w / max_usize(top_h, 1);
        assert(w <= size * size) by (nonlinear_arith)
            requires w == (row + 1) * half_w / imax(top_h as int, 1), (row + 1) * half_w <= size * size;
        w
    } else if row >= size * 3 / 4 {
        let frac = (size - row) as i32;
        assert((size - row) * half_w <= size * size) by (nonlinear_arith)
            requires row < size, half_w <= size;
        let hw = half_w as i32;
        assert(frac as int == size - row);
        assert(hw as int == half_w);
        assert((frac as int) * (hw as int) <= size * size) by (nonlinear_arith)
            requires frac as int == size - row, hw as int == half_w, row < size, half_w <= size;
        let prod = frac * hw;
        let d = max_usize(size / 4, 1) as i32;
        let q = prod / d;
        assert(q <= prod) by (nonlinear_arith)
            requires q == prod / d, prod >= 0, d >= 1;
        if q >= 1 { q as usize } else { 1 }
    } else {
        assert(half_w <= size * size) by (nonlinear_arith)
            requires half_w <= size, row < size;
        half_w
    }
}

fn shield_bounds(ox: usize, size: usize, row: usize) -> (r: (usize, usize))
    requires
        row < size,
        ox + size * size + 3 * size <= usize::MAX,
        2 * size * size + 866 * size <= i32::MAX,
    ensures
        forall|x: int| #![trigger shield_span(ox as int, size as int, row as int, x)]
            shield_span(ox as int, size as int, row as int, x) <==> r.0 <= x < r.1,
{
    let w = shield_width(size, row);
    let mid = ox + size / 2;
    let lo = if mid >= w { mid - w } else { 0 };
    let hi = min_usize(mid + w, ox + size);
    (lo, hi)
}

/// The spans of row `row` of a span mark: pixels x with `lo <= x < hi` or
/// `lo2 <= x < hi2`.
fn mark_spans(cat: BrandCategory, ox: usize, size: usize, row: usize) -> (r: (usize, usize, usize, usize))
    requires
        is_span_mark(cat),
        row < size,
        mark_fits(cat, ox as int, 0, size as int),
    ensures
        forall|x: int| #![trigger span_covers(cat, ox as int, size as int, row as int, x)]
            span_covers(cat, ox as int, size as int, row as int, x)
            <==> ((r.0 <= x < r.1) || (r.2 <= x < r.3)),
{
    match cat {
        BrandCategory::Tires => {
            let (lo, hi) = tires_bounds(ox, size, row);
            (lo, hi, 0, 0)
        },
        BrandCategory::Shocks => shocks_bounds(ox, size, row),
        BrandCategory::Lights => {
            let (lo, hi) = lights_bounds(ox, size, row);
            (lo, hi, 0, 0)
        },
        _ => {
            let (lo, hi) = shield_bounds(ox, size, row);
            (lo, hi, 0, 0)
        },
    }
}


fn paint_span_mark(data: &mut Vec<u8>, cat: BrandCategory, ox: usize, oy: usize, size: usize, color: &[u8; 4])
    requires
        old(data)@.len() == TEX_BYTES,
        is_span_mark(cat),
        mark_fits(cat, ox as int, oy as int, size as int),
    ensures
        final(data)@ == paint(
            old(data)@,
            |x: int, y: int| oy <= y < oy + size && span_covers(cat, ox as int, size as int, y - oy, x),
            *color,
        ),
{
    let ghost start = data@;
    proof {
        lemma_paint_same(start, |x: int, y: int| false, |x: int, y: int| oy <= y < oy + 0 && span_covers(cat, ox as int, size as int, y - oy, x), *color);
        assert(start =~= paint(start, |x: int, y: int| false, *color));
    }
    let mut row: usize = 0;
    while row < size
        invariant
            row <= size,
            is_span_mark(cat),
            mark_fits(cat, ox as int, oy as int, size as int),
            data@.len() == TEX_BYTES,
            start.len() == TEX_BYTES,
            data@ == paint(
                start,
                |x: int, y: int| oy <= y < oy + row && span_covers(cat, ox as int, size as int, y - oy, x),
                *color,
            ),
        decreases size - row,
    {
        let (lo, hi, lo2, hi2) = mark_spans(cat, ox, size, row);
        let y = oy + row;
        fill_span(data, y, lo, hi, color);
        fill_span(data, y, lo2, hi2, color);
        proof {
            let prev = |x: int, y: int| oy <= y < oy + row && span_covers(cat, ox as int, size as int, y - oy, x);
            let a = |px: int, py: int| py == y && lo <= px < hi;
            let b = |px: int, py: int| py == y && lo2 <= px < hi2;
            lemma_paint_twice(start, prev, a, *color);
            lemma_paint_twice(start, |px: int, py: int| prev(px, py) || a(px, py), b, *color);
            assert forall|x: int, yy: int| 0 <= x < 256 && 0 <= yy < 128 implies
                ((prev(x, yy) || a(x, yy)) || b(x, yy))
                == (oy <= yy < oy + row + 1 && #[trigger] span_covers(cat, ox as int, size as int, yy - oy, x)) by {
                if yy == y {
                    assert(span_covers(cat, ox as int, size as int, row as int, x) <==> ((lo <= x < hi) || (lo2 <= x < hi2)));
                }
            }
            lemma_paint_same(
                start,
                |px: int, py: int| (prev(px, py) || a(px, py)) || b(px, py),
                |x: int, y: int| oy <= y < oy + row + 1 && span_covers(cat, ox as int, size as int, y - oy, x),
                *color,
            );
        }
        row = row + 1;
    }
}


pub open spec fn pixel_hit(cat: BrandCategory, ox: int, oy: int, size: int, x: int, y: int) -> bool {
    let dx = x - (ox + size / 2);
    let dy = y - (oy + size / 2);
    if cat is Winches { winch_hit(size, dx, dy) } else { wheel_hit(size, dx, dy) }
}

fn abs_i32(v: i32) -> (r: i32)
    requires
        v > i32::MIN,
    ensures
        r == (if v >= 0 { v as int } else { -v }),
{
    if v >= 0 { v } else { -v }
}

fn in_hex(dx: i32, dy: i32, r: i32) -> (b: bool)
    requires
        dx > i32::MIN,
        dy > i32::MIN,
        866 * (if dx >= 0 { dx as int } else { -dx }) <= i32::MAX,
    ensures
        b == hex_contains(dx as int, dy as int, r as int),
{
    if r <= 0 {
        return false;
    }
    let adx = abs_i32(dx);
    let ady = abs_i32(dy);
    ady <= r && adx * 866 / 1000 + ady / 2 <= r
}

/// Whether the pixel at column `col`, row `row` of the mark square is
/// part of a winch or wheel mark.
fn mark_pixel(cat: BrandCategory, ox: usize, oy: usize, size: usize, col: usize, row: usize) -> (b: bool)
    requires
        cat is Winches || cat is Wheels,
        mark_fits(cat, ox as int, oy as int, size as int),
        col < size,
        row < size,
    ensures
        b == pixel_hit(cat, ox as int, oy as int, size as int, ox + col, oy + row),
{
    let half = size / 2;
    assert(866 * size <= i32::MAX) by (nonlinear_arith)
        requires 2 * size * size + 866 * size <= i32::MAX;
    let dx: i32 = if col >= half { (col - half) as i32 } else { -((half - col) as i32) };
    let dy: i32 = if row >= half { (row - half) as i32 } else { -((half - row) as i32) };
    assert(dx as int == col - size / 2);
    assert(dy as int == row - size / 2);
    assert(dx * dx + dy * dy <= 2 * size * size) by (nonlinear_arith)
        requires
            dx as int == col - size / 2,
            dy as int == row - size / 2,
            col < size,
            row < size;
    assert(0 <= dx * dx <= size * size && 0 <= dy * dy <= size * size && 2 * (size * size) <= i32::MAX) by (nonlinear_arith)
        requires
            dx as int == col - size / 2,
            dy as int == row - size / 2,
            col < size,
            row < size,
            2 * size * size + 866 * size <= i32::MAX;
    if cat == BrandCategory::Winches {
        let r: i32 = if size / 2 >= 2 { (size / 2 - 2) as i32 } else { 0 };
        let ring: i32 = if size / 8 >= 2 { (size / 8) as i32 } else { 2 };
        let inner: i32 = if r - ring >= 0 { r - ring } else { 0 };
        assert(r * r <= size * size) by (nonlinear_arith)
            requires 0 <= r <= size;
        assert(inner * inner <= size * size) by (nonlinear_arith)
            requires 0 <= inner <= size;
        let d2 = dx * dx + dy * dy;
        let on_ring = d2 >= inner * inner && d2 <= r * r;
        let on_slash = abs_i32(dx + dy) <= ring && d2 <= r * r;
        on_ring || on_slash
    } else {
        let r: i32 = if size / 2 >= 3 { (size / 2 - 3) as i32 } else { 0 };
        let ring: i32 = if size / 8 >= 2 { (size / 8) as i32 } else { 2 };
        let inner: i32 = if r - ring >= 0 { r - ring } else { 0 };
        assert(866 * (if dx >= 0 { dx as int } else { -dx }) <= i32::MAX) by (nonlinear_arith)
            requires dx as int == col - size / 2, col < size, 866 * size <= i32::MAX;
        in_hex(dx, dy, r) && !in_hex(dx, dy, inner)
    }
}

fn paint_pixel_mark(data: &mut Vec<u8>, cat: BrandCategory, ox: usize, oy: usize, size: usize, color: &[u8; 4])
    requires
        old(data)@.len() == TEX_BYTES,
        cat is Winches || cat is Wheels,
        mark_fits(cat, ox as int, oy as int, size as int),
    ensures
        final(data)@ == paint(
            old(data)@,
            |x: int, y: int| oy <= y < oy + size && ox <= x < ox + size && pixel_hit(cat, ox as int, oy as int, size as int, x, y),
            *color,
        ),
{
    let ghost start = data@;
    proof {
        lemma_paint_same(start, |x: int, y: int| false,
            |x: int, y: int| oy <= y < oy + 0 && ox <= x < ox + size && pixel_hit(cat, ox as int, oy as int, size as int, x, y), *color);
        assert(start =~= paint(start, |x: int, y: int| false, *color));
    }
    let mut row: usize = 0;
    while row < size
        invariant
            row <= size,
            cat is Winches || cat is Wheels,
            mark_fits(cat, ox as int, oy as int, size as int),
            data@.len() == TEX_BYTES,
            start.len() == TEX_BYTES,
            data@ == paint(
                start,
                |x: int, y: int| oy <= y < oy + row && ox <= x < ox + size && pixel_hit(cat, ox as int, oy as int, size as int, x, y),
                *color,
            ),
        decreases size - row,
    {
        let mut col: usize = 0;
        while col < size
            invariant
                row < size,
                col <= size,
                cat is Winches || cat is Wheels,
                mark_fits(cat, ox as int, oy as int, size as int),
                data@.len() == TEX_BYTES,
                start.len() == TEX_BYTES,
                data@ == paint(
                    start,
                    |x: int, y: int| ((oy <= y < oy + row && ox <= x < ox + size) || (y == oy + row && ox <= x < ox + col))
                        && pixel_hit(cat, ox as int, oy as int, size as int, x, y),
                    *color,
                ),
            decreases size - col,
        {
            let hit = mark_pixel(cat, ox, oy, size, col, row);
            let ghost prev = |x: int, y: int| ((oy <= y < oy + row && ox <= x < ox + size) || (y == oy + row && ox <= x < ox + col))
                && pixel_hit(cat, ox as int, oy as int, size as int, x, y);
            let ghost next = |x: int, y: int| ((oy <= y < oy + row && ox <= x < ox + size) || (y == oy + row && ox <= x < ox + col + 1))
                && pixel_hit(cat, ox as int, oy as int, size as int, x, y);
            if hit {
                set_pixel(data, ox + col, oy + row, color);
                proof {
                    lemma_paint_twice(start, prev, |px: int, py: int| px == ox + col && py == oy + row, *color);
                    lemma_paint_same(start, |px: int, py: int| prev(px, py) || (px == ox + col && py == oy + row), next, *color);
                }
            } else {
                proof {
                    lemma_paint_same(start, prev, next, *color);
                }
            }
            col = col + 1;
        }
        proof {
            lemma_paint_same(
                start,
                |x: int, y: int| ((oy <= y < oy + row && ox <= x < ox + size) || (y == oy + row && ox <= x < ox + size))
                    && pixel_hit(cat, ox as int, oy as int, size as int, x, y),
                |x: int, y: int| oy <= y < oy + row + 1 && ox <= x < ox + size && pixel_hit(cat, ox as int, oy as int, size as int, x, y),
                *color,
            );
        }
        row = row + 1;
    }
}

/// Every pixel a mark covers lies in its `size` by `size` square when the
/// size is a multiple of four (the shield's taper needs that); as `paint`
/// writes nothing else, drawing a mark changes no pixel outside the square.
pub proof fn lemma_mark_in_square(cat: BrandCategory, ox: int, oy: int, size: int, x: int, y: int)
    requires
        0 <= ox,
        0 <= oy,
        4 <= size,
        size % 4 == 0,
        mark_covers(cat, ox, oy, size, x, y),
    ensures
        ox <= x < ox + size,
        oy <= y < oy + size,
{
    let row = y - oy;
    match cat {
        BrandCategory::Tires => {
            let hw = row * (size / 2) / imax(size, 1);
            assert(hw <= size / 2) by (nonlinear_arith)
                requires hw == row * (size / 2) / imax(size, 1), 0 <= row < size, size >= 4;
        },
        BrandCategory::Recovery | BrandCategory::Lifestyle => {
            let top_h = size / 3;
            let half_w = size / 2;
            let w = shield_half_width(size, row);
            if row < top_h {
                assert((row + 1) * half_w / imax(top_h, 1) <= half_w) by (nonlinear_arith)
                    requires 0 <= row < top_h, half_w >= 0, top_h >= 1;
            } else if row >= size * 3 / 4 {
                assert((size - row) * half_w / imax(size / 4, 1) <= half_w) by (nonlinear_arith)
                    requires size - row <= size / 4, 0 <= size - row, half_w >= 0, size / 4 >= 1;
            }
            assert(w <= half_w);
        },
        _ => {},
    }
}

/// Draws the mark of `cat` in the `size` by `size` square whose top-left
/// corner is (ox, oy).
pub fn draw_mark(data: &mut Vec<u8>, cat: BrandCategory, ox: usize, oy: usize, size: usize, color: &[u8; 4])
    requires
        old(data)@.len() == TEX_BYTES,
        mark_fits(cat, ox as int, oy as int, size as int),
    ensures
        final(data)@ == paint(old(data)@, |x: int, y: int| mark_covers(cat, ox as int, oy as int, size as int, x, y), *color),
{
    let ghost start = data@;
    if cat == BrandCategory::Winches || cat == BrandCategory::Wheels {
        paint_pixel_mark(data, cat, ox, oy, size, color);
        proof {
            lemma_paint_same(
                start,
                |x: int, y: int| oy <= y < oy + size && ox <= x < ox + size && pixel_hit(cat, ox as int, oy as int, size as int, x, y),
                |x: int, y: int| mark_covers(cat, ox as int, oy as int, size as int, x, y),
                *color,
            );
        }
    } else {
        paint_span_mark(data, cat, ox, oy, size, color);
        proof {
            lemma_paint_same(
                start,
                |x: int, y: int| oy <= y < oy + size && span_covers(cat, ox as int, size as int, y - oy, x),
                |x: int, y: int| mark_covers(cat, ox as int, oy as int, size as int, x, y),
                *color,
            );
        }
    }
}


/// 5x7 bitmap glyphs, one byte per row, bit 4 the leftmost column.
pub const GLYPHS_AZ: [[u8; 7]; 26] = [
    [0x04, 0x0A, 0x11, 0x1F, 0x11, 0x11, 0x11],
    [0x1E, 0x11, 0x11, 0x1E, 0x11, 0x11, 0x1E],
    [0x0E, 0x11, 0x10, 0x10, 0x10, 0x11, 0x0E],
    [0x1E, 0x09, 0x11, 0x11, 0x11, 0x09, 0x1E],
    [0x1F, 0x10, 0x10, 0x1E, 0x10, 0x10, 0x1F],
    [0x1F, 0x10, 0x10, 0x1E, 0x10, 0x10, 0x10],
    [0x0E, 0x11, 0x10, 0x17, 0x11, 0x11, 0x0E],
    [0x11, 0x11, 0x11, 0x1F, 0x11, 0x11, 0x11],
    [0x0E, 0x04, 0x04, 0x04, 0x04, 0x04, 0x0E],
    [0x07, 0x02, 0x02, 0x02, 0x02, 0x12, 0x0C],
    [0x11, 0x12, 0x14, 0x18, 0x14, 0x12, 0x11],
    [0x10, 0x10, 0x10, 0x10, 0x10, 0x10, 0x1F],
    [0x11, 0x1B, 0x15, 0x11, 0x11, 0x11, 0x11],
    [0x11, 0x19, 0x15, 0x13, 0x11, 0x11, 0x11],
    [0x0E, 0x11, 0x11, 0x11, 0x11, 0x11, 0x0E],
    [0x1E, 0x11, 0x11, 0x1E, 0x10, 0x10, 0x10],
    [0x0E, 0x11, 0x11, 0x11, 0x15, 0x12, 0x0D],
    [0x1E, 0x11, 0x11, 0x1E, 0x14, 0x12, 0x11],
    [0x0E, 0x11, 0x10, 0x0E, 0x01, 0x11, 0x0E],
    [0x1F, 0x04, 0x04, 0x04, 0x04, 0x04, 0x04],
    [0x11, 0x11, 0x11, 0x11, 0x11, 0x11, 0x0E],
    [0x11, 0x11, 0x11, 0x11, 0x11, 0x0A, 0x04],
    [0x11, 0x11, 0x11, 0x15, 0x15, 0x1B, 0x11],
    [0x11, 0x11, 0x0A, 0x04, 0x0A, 0x11, 0x11],
    [0x11, 0x11, 0x0A, 0x04, 0x04, 0x04, 0x04],
    [0x1F, 0x01, 0x02, 0x04, 0x08, 0x10, 0x1F],
];

pub const GLYPHS_09: [[u8; 7]; 10] = [
    [0x0E, 0x11, 0x13, 0x15, 0x19, 0x11, 0x0E],
    [0x04, 0x0C, 0x04, 0x04, 0x04, 0x04, 0x0E],
    [0x0E, 0x11, 0x01, 0x06, 0x08, 0x10, 0x1F],
    [0x1F, 0x02, 0x04, 0x02, 0x01, 0x11, 0x0E],
    [0x02, 0x06, 0x0A, 0x12, 0x1F, 0x02, 0x02],
    [0x1F, 0x10, 0x1E, 0x01, 0x01, 0x11, 0x0E],
    [0x06, 0x08, 0x10, 0x1E, 0x11, 0x11, 0x0E],
    [0x1F, 0x01, 0x02, 0x04, 0x08, 0x08, 0x08],
    [0x0E, 0x11, 0x11, 0x0E, 0x11, 0x11, 0x0E],
    [0x0E, 0x11, 0x11, 0x0F, 0x01, 0x02, 0x0C],
];

pub const GLYPH_SPACE: [u8; 7] = [0x00, 0x00, 0x00, 0x00, 0x00, 0x00, 0x00];
pub const GLYPH_DASH: [u8; 7] = [0x00, 0x00, 0x00, 0x1F, 0x00, 0x00, 0x00];
pub const GLYPH_AMPERSAND: [u8; 7] = [0x0C, 0x12, 0x14, 0x08, 0x15, 0x12, 0x0D];
pub const GLYPH_DOT: [u8; 7] = [0x00, 0x00, 0x00, 0x00, 0x00, 0x0C, 0x0C];
pub const GLYPH_BANG: [u8; 7] = [0x04, 0x04, 0x04, 0x04, 0x04, 0x00, 0x04];
pub const GLYPH_SLASH: [u8; 7] = [0x01, 0x02, 0x02, 0x04, 0x08, 0x08, 0x10];
/// Drawn for any byte without a glyph of its own: a hollow box.
pub const GLYPH_UNKNOWN: [u8; 7] = [0x1F, 0x11, 0x11, 0x11, 0x11, 0x11, 0x1F];

/// The glyph drawn for byte `b`: letters in either case share a glyph.
pub open spec fn glyph(b: u8) -> [u8; 7] {
    if 65 <= b <= 90 {
        GLYPHS_AZ[b - 65]
    } else if 97 <= b <= 122 {
        GLYPHS_AZ[b - 97]
    } else if 48 <= b <= 57 {
        GLYPHS_09[b - 48]
    } else if b == 32 {
        GLYPH_SPACE
    } else if b == 45 || b == 95 {
        GLYPH_DASH
    } else if b == 38 {
        GLYPH_AMPERSAND
    } else if b == 46 {
        GLYPH_DOT
    } else if b == 33 {
        GLYPH_BANG
    } else if b == 47 {
        GLYPH_SLASH
    } else {
        GLYPH_UNKNOWN
    }
}

/// Each character is drawn with its own table entry: digit d with the d-th
/// digit bitmap, the i-th letter of the alphabet (either case) with the
/// i-th letter bitmap.
pub proof fn lemma_glyph_table(i: u8)
    ensures
        i < 10 ==> glyph((48 + i) as u8) == GLYPHS_09[i as int],
        i < 26 ==> glyph((65 + i) as u8) == GLYPHS_AZ[i as int],
        i < 26 ==> glyph((97 + i) as u8) == GLYPHS_AZ[i as int],
{
}

/// Letters are drawn the same in either case.
pub proof fn lemma_glyph_case_insensitive(b: u8)
    requires
        97 <= b <= 122,
    ensures
        glyph(b) == glyph((b - 32) as u8),
{
}

pub fn glyph_for(b: u8) -> (g: [u8; 7])
    ensures
        g == glyph(b),
{
    if 65 <= b && b <= 90 {
        GLYPHS_AZ[(b - 65) as usize]
    } else if 97 <= b && b <= 122 {
        GLYPHS_AZ[(b - 97) as usize]
    } else if 48 <= b && b <= 57 {
        GLYPHS_09[(b - 48) as usize]
    } else if b == 32 {
        GLYPH_SPACE
    } else if b == 45 || b == 95 {
        GLYPH_DASH
    } else if b == 38 {
        GLYPH_AMPERSAND
    } else if b == 46 {
        GLYPH_DOT
    } else if b == 33 {
        GLYPH_BANG
    } else if b == 47 {
        GLYPH_SLASH
    } else {
        GLYPH_UNKNOWN
    }
}

/// Whether column `col` (0 the leftmost of five) of glyph row `byte` is lit.
pub open spec fn glyph_bit(byte: u8, col: int) -> bool {
    (byte >> ((4 - col) as u8)) & 1u8 == 1u8
}

/// Cell `i` (row `i / 5`, column `i % 5`) of glyph `g` drawn at (ox, oy)
/// with `scale` pixels per cell covers (x, y).
pub open spec fn glyph_cell(g: [u8; 7], ox: int, oy: int, scale: int, i: int, x: int, y: int) -> bool {
    let row = i / 5;
    let col = i % 5;
    &&& glyph_bit(g[row], col)
    &&& ox + col * scale <= x < ox + col * scale + scale
    &&& oy + row * scale <= y < oy + row * scale + scale
}

/// The pixels that the first `n` cells of glyph `g` cover.
pub open spec fn glyph_upto(g: [u8; 7], ox: int, oy: int, scale: int, n: int, x: int, y: int) -> bool {
    exists|i: int| 0 <= i < n && #[trigger] glyph_cell(g, ox, oy, scale, i, x, y)
}

/// The pixels that glyph `g` covers, drawn at (ox, oy) with `scale`
/// pixels per bitmap cell.
pub open spec fn glyph_covers(g: [u8; 7], ox: int, oy: int, scale: int, x: int, y: int) -> bool {
    glyph_upto(g, ox, oy, scale, 35, x, y)
}

/// Draws glyph `g` with its top-left corner at (ox, oy), each bitmap cell
/// a `scale` by `scale` block.
pub fn draw_glyph(data: &mut Vec<u8>, g: &[u8; 7], ox: usize, oy: usize, scale: usize, color: &[u8; 4])
    requires
        old(data)@.len() == TEX_BYTES,
        ox + 5 * scale <= usize::MAX,
        oy + 7 * scale <= usize::MAX,
    ensures
        final(data)@ == paint(old(data)@, |x: int, y: int| glyph_covers(*g, ox as int, oy as int, scale as int, x, y), *color),
{
    let ghost start = data@;
    proof {
        lemma_paint_same(start, |x: int, y: int| false,
            |x: int, y: int| glyph_upto(*g, ox as int, oy as int, scale as int, 0, x, y), *color);
        assert(start =~= paint(start, |x: int, y: int| false, *color));
    }
    let mut i: usize = 0;
    while i < 35
        invariant
            i <= 35,
            ox + 5 * scale <= usize::MAX,
            oy + 7 * scale <= usize::MAX,
            data@.len() == TEX_BYTES,
            start.len() == TEX_BYTES,
            data@ == paint(start, |x: int, y: int| glyph_upto(*g, ox as int, oy as int, scale as int, i as int, x, y), *color),
        decreases 35 - i,
    {
        let row = i / 5;
        let col = i % 5;
        let byte = g[row];
        let bit = (byte >> (4 - col as u8)) & 1;
        let ghost prev = |x: int, y: int| glyph_upto(*g, ox as int, oy as int, scale as int, i as int, x, y);
        let ghost next = |x: int, y: int| glyph_upto(*g, ox as int, oy as int, scale as int, i + 1, x, y);
        assert(col * scale <= 4 * scale && row * scale <= 6 * scale) by (nonlinear_arith)
            requires col < 5, row < 7;
        let bx = ox + col * scale;
        let by = oy + row * scale;
        if bit == 1 {
            fill_rect(data, bx, by, scale, scale, color);
            proof {
                let blk = |px: int, py: int| bx <= px < bx + scale && by <= py < by + scale;
                lemma_paint_twice(start, prev, blk, *color);
                assert forall|x: int, y: int| 0 <= x < 256 && 0 <= y < 128 implies
                    (prev(x, y) || blk(x, y)) == #[trigger] glyph_upto(*g, ox as int, oy as int, scale as int, i + 1, x, y) by {
                    if blk(x, y) {
                        assert(glyph_cell(*g, ox as int, oy as int, scale as int, i as int, x, y));
                    }
                    if glyph_upto(*g, ox as int, oy as int, scale as int, i + 1, x, y) && !prev(x, y) {
                        let j = choose|j: int| 0 <= j < i + 1 && #[trigger] glyph_cell(*g, ox as int, oy as int, scale as int, j, x, y);
                        assert(j == i);
                    }
                }
                lemma_paint_same(start, |px: int, py: int| prev(px, py) || blk(px, py), next, *color);
            }
        } else {
            proof {
                assert forall|x: int, y: int| 0 <= x < 256 && 0 <= y < 128 implies
                    prev(x, y) == #[trigger] glyph_upto(*g, ox as int, oy as int, scale as int, i + 1, x, y) by {
                    if glyph_upto(*g, ox as int, oy as int, scale as int, i + 1, x, y) && !prev(x, y) {
                        let j = choose|j: int| 0 <= j < i + 1 && #[trigger] glyph_cell(*g, ox as int, oy as int, scale as int, j, x, y);
                        assert(j == i);
                        assert(!glyph_bit(g[row as int], col as int));
                    }
                }
                lemma_paint_same(start, prev, next, *color);
            }
        }
        i = i + 1;
    }
}


/// Left edge of the brand name: centred in the text area (x 60 to 248)
/// when it fits, else flush with its left edge. Glyphs are 10 pixels wide
/// with 2 pixels between them.
pub open spec fn name_start_x(n: int) -> int {
    let total = if n == 0 { 0 } else { n * 12 - 2 };
    if total < 188 { 60 + (188 - total) / 2 } else { 60 }
}

/// Top edge of the brand name: the 14-pixel-high glyphs centred vertically.
pub open spec fn name_start_y() -> int {
    57
}

/// Glyph `i` of the name is drawn when it ends within the plate.
pub open spec fn name_glyph_drawn(n: int, i: int) -> bool {
    0 <= i < n && name_start_x(n) + 12 * i + 10 <= 256
}

/// Pixels that glyph `i` of `name` covers.
pub open spec fn name_glyph_covers(name: Seq<u8>, i: int, x: int, y: int) -> bool {
    glyph_covers(glyph(name[i]), name_start_x(name.len() as int) + 12 * i, name_start_y(), 2, x, y)
}

/// Pixels covered by the first `j` glyphs of the name that are drawn.
pub open spec fn text_upto(name: Seq<u8>, j: int, x: int, y: int) -> bool {
    exists|i: int| 0 <= i < j && name_glyph_drawn(name.len() as int, i) && #[trigger] name_glyph_covers(name, i, x, y)
}

/// The pixels drawn in the foreground colour on a logo plate: the category
/// mark in the 40-pixel square at (10, 44) and the name's glyphs.
pub open spec fn plate_covers(cat: BrandCategory, name: Seq<u8>, x: int, y: int) -> bool {
    mark_covers(cat, 10, 44, 40, x, y) || text_upto(name, name.len() as int, x, y)
}

/// The RGBA8 bytes of a logo plate: foreground where `plate_covers`,
/// background elsewhere.
pub open spec fn logo_plate(bg: [u8; 4], fg: [u8; 4], cat: BrandCategory, name: Seq<u8>) -> Seq<u8> {
    Seq::new(TEX_BYTES as nat, |k: int| if plate_covers(cat, name, px(k), py(k)) { fg@[k % 4] } else { bg@[k % 4] })
}

pub open spec fn background(bg: [u8; 4]) -> Seq<u8> {
    Seq::new(TEX_BYTES as nat, |k: int| bg@[k % 4])
}

/// A plate filled with one colour.
pub fn filled_plate(bg: &[u8; 4]) -> (data: Vec<u8>)
    ensures
        data@ == background(*bg),
{
    let mut data: Vec<u8> = Vec::new();
    let mut k: usize = 0;
    while k < TEX_BYTES
        invariant
            k <= TEX_BYTES,
            data@ =~= background(*bg).subrange(0, k as int),
        decreases TEX_BYTES - k,
    {
        data.push(bg[k % 4]);
        k = k + 1;
    }
    proof {
        assert(data@ =~= background(*bg));
    }
    data
}

/// Renders the logo plate of a sponsor brand: the background colour, the
/// category mark at the left, and the name in the foreground colour.
pub fn build_logo_plate(bg: &[u8; 4], fg: &[u8; 4], display_name: &str, category: BrandCategory) -> (data: Vec<u8>)
    requires
        display_name.spec_bytes().len() * 12 <= usize::MAX,
    ensures
        data@ == logo_plate(*bg, *fg, category, display_name.spec_bytes()),
{
    let mut data = filled_plate(bg);
    let ghost start = data@;
    draw_mark(&mut data, category, 10, 44, 40, fg);
    let name = display_name.as_bytes();
    let ghost nm = name@;
    let n = name.len();
    let total_w: usize = if n == 0 { 0 } else { n * 12 - 2 };
    let area_w: usize = 188;
    let start_x: usize = if total_w < area_w { 60 + (area_w - total_w) / 2 } else { 60 };
    assert(start_x == name_start_x(n as int));
    let ghost mark = |x: int, y: int| mark_covers(category, 10, 44, 40, x, y);
    proof {
        lemma_paint_same(start, mark, |x: int, y: int| mark(x, y) || text_upto(nm, 0, x, y), *fg);
    }
    let mut j: usize = 0;
    let mut cx = start_x;
    while j < n && cx + 10 <= TEX_W
        invariant
            j <= n,
            n == nm.len(),
            name@ == nm,
            cx <= 258,
            n * 12 <= usize::MAX,
            start_x == name_start_x(n as int),
            cx == start_x + 12 * j,
            forall|i: int| 0 <= i < j ==> name_glyph_drawn(n as int, i),
            data@.len() == TEX_BYTES,
            start.len() == TEX_BYTES,
            data@ == paint(start, |x: int, y: int| mark(x, y) || text_upto(nm, j as int, x, y), *fg),
        decreases n - j,
    {
        let g = glyph_for(name[j]);
        draw_glyph(&mut data, &g, cx, 57, 2, fg);
        proof {
            let prev = |x: int, y: int| mark(x, y) || text_upto(nm, j as int, x, y);
            let gl = |x: int, y: int| glyph_covers(g, cx as int, 57, 2, x, y);
            let next = |x: int, y: int| mark(x, y) || text_upto(nm, j + 1, x, y);
            lemma_paint_twice(start, prev, gl, *fg);
            assert(name_glyph_drawn(n as int, j as int));
            assert forall|x: int, y: int| 0 <= x < 256 && 0 <= y < 128 implies
                (prev(x, y) || gl(x, y)) == #[trigger] text_upto(nm, j + 1, x, y) || mark(x, y) by {
                if gl(x, y) {
                    assert(name_glyph_covers(nm, j as int, x, y));
                }
                if text_upto(nm, j + 1, x, y) && !text_upto(nm, j as int, x, y) {
                    let i = choose|i: int| 0 <= i < j + 1 && name_glyph_drawn(n as int, i) && #[trigger] name_glyph_covers(nm, i, x, y);
                    assert(i == j);
                }
            }
            lemma_paint_same(start, |x: int, y: int| prev(x, y) || gl(x, y), next, *fg);
        }
        cx = cx + 12;
        j = j + 1;
    }
    proof {
        assert forall|x: int, y: int| 0 <= x < 256 && 0 <= y < 128 implies
            text_upto(nm, j as int, x, y) == #[trigger] text_upto(nm, n as int, x, y) by {
            if text_upto(nm, n as int, x, y) {
                let i = choose|i: int| 0 <= i < n && name_glyph_drawn(n as int, i) && #[trigger] name_glyph_covers(nm, i, x, y);
                assert(i < j);
            }
        }
        lemma_paint_same(start, |x: int, y: int| mark(x, y) || text_upto(nm, j as int, x, y),
            |x: int, y: int| plate_covers(category, nm, x, y), *fg);
        assert(data@ =~= logo_plate(*bg, *fg, category, nm));
    }
    data
}

} // verus!
