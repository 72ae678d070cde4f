//! Rectangles of pixels, and how a tall one is cut into row batches.
//!
//! A region covers the columns `x1..x2` and the rows `y1..y2`: its right and
//! bottom edges lie just outside it. Its pixels are stored row by row, top
//! row first.

use vstd::prelude::*;
use crate::panel::BATCH_HEIGHT;

verus! {

/// One pixel.
#[derive(Clone, Copy, Debug, PartialEq, Eq, Structural)]
pub struct Color {
    /// Red channel.
    pub red: u8,
    /// Green channel.
    pub green: u8,
    /// Blue channel.
    pub blue: u8,
}

/// A region as mathematics sees it.
pub struct RegionModel {
    /// Left edge, inside the region.
    pub x1: int,
    /// Top edge, inside the region.
    pub y1: int,
    /// Right edge, just outside the region.
    pub x2: int,
    /// Bottom edge, just outside the region.
    pub y2: int,
    /// The pixels, row by row.
    pub pixels: Seq<Color>,
}

impl RegionModel {
    /// Number of columns.
    pub open spec fn width(self) -> int {
        self.x2 - self.x1
    }

    /// Number of rows.
    pub open spec fn height(self) -> int {
        self.y2 - self.y1
    }

    /// The edges are in order and there is one pixel for each cell.
    pub open spec fn wf(self) -> bool {
        &&& self.x1 <= self.x2
        &&& self.y1 <= self.y2
        &&& self.pixels.len() == self.width() * self.height()
    }

    /// Number of batches that the region is cut into: its height divided by
    /// the batch height, rounded up.
    pub open spec fn batch_count(self) -> int {
        (self.height() + BATCH_HEIGHT - 1) / (BATCH_HEIGHT as int)
    }

    /// Top row of batch `k`.
    pub open spec fn batch_top(self, k: int) -> int {
        self.y1 + k * BATCH_HEIGHT
    }

    /// The row just below batch `k`: a full batch further down, or the
    /// region's bottom edge where that comes first.
    pub open spec fn batch_bottom(self, k: int) -> int {
        if self.batch_top(k) + BATCH_HEIGHT <= self.y2 {
            self.batch_top(k) + BATCH_HEIGHT
        } else {
            self.y2
        }
    }

    /// Batch `k` of the region: the same columns, the rows of that batch and
    /// the pixels of those rows.
    pub open spec fn batch(self, k: int) -> RegionModel {
        RegionModel {
            x1: self.x1,
            y1: self.batch_top(k),
            x2: self.x2,
            y2: self.batch_bottom(k),
            pixels: self.pixels.subrange(
                (self.batch_top(k) - self.y1) * self.width(),
                (self.batch_bottom(k) - self.y1) * self.width(),
            ),
        }
    }

    /// All batches of the region, top to bottom.
    pub open spec fn batches(self) -> Seq<RegionModel> {
        Seq::new(self.batch_count() as nat, |k: int| self.batch(k))
    }
}

/// Sum of the heights of the first `n` regions of `s`.
pub open spec fn total_height(s: Seq<RegionModel>, n: nat) -> int
    decreases n,
{
    if n == 0 {
        0
    } else {
        total_height(s, (n - 1) as nat) + s[n - 1].height()
    }
}

/// The pixels of the first `n` regions of `s`, one region after the other.
pub open spec fn joined_pixels(s: Seq<RegionModel>, n: nat) -> Seq<Color>
    decreases n,
{
    if n == 0 {
        Seq::empty()
    } else {
        joined_pixels(s, (n - 1) as nat) + s[n - 1].pixels
    }
}

/// Rows turned into pixels: with `w` pixels to the row, `a` rows are no more
/// pixels than `b >= a` rows, and the rows between them are the difference.
proof fn lemma_rows_to_pixels(a: int, b: int, w: int)
    requires
        0 <= a <= b,
        0 <= w,
    ensures
        0 <= a * w <= b * w,
        b * w - a * w == (b - a) * w,
        (b - a) * w == w * (b - a),
        b * w == w * b,
{
    assert(0 <= a * w <= b * w) by (nonlinear_arith)
        requires
            0 <= a <= b,
            0 <= w,
    ;
    assert(b * w - a * w == (b - a) * w) by (nonlinear_arith);
    assert((b - a) * w == w * (b - a)) by (nonlinear_arith);
    assert(b * w == w * b) by (nonlinear_arith);
}

/// Each batch of a well-formed region is itself well formed, has the region's
/// columns, at least one row and at most a batch height of them.
pub proof fn lemma_batch_bounded(r: RegionModel, k: int)
    requires
        r.wf(),
        0 <= k < r.batch_count(),
    ensures
        r.batch(k).wf(),
        r.batch(k).x1 == r.x1,
        r.batch(k).x2 == r.x2,
        r.y1 <= r.batch(k).y1 < r.batch(k).y2 <= r.y2,
        1 <= r.batch(k).height() <= BATCH_HEIGHT,
{
    let top = r.batch_top(k);
    let bottom = r.batch_bottom(k);
    lemma_rows_to_pixels(top - r.y1, bottom - r.y1, r.width());
    lemma_rows_to_pixels(bottom - r.y1, r.height(), r.width());
    assert(r.batch(k).pixels.len() == (bottom - r.y1) * r.width() - (top - r.y1) * r.width());
    assert(r.batch(k).height() == bottom - top);
}

/// The batches lie one below the other without a gap or an overlap: the
/// first starts at the region's top, each starts where the one before it
/// ended, and the last ends at the region's bottom.
pub proof fn lemma_batches_consecutive(r: RegionModel, k: int)
    requires
        r.wf(),
        0 <= k < r.batch_count(),
    ensures
        k == 0 ==> r.batch(k).y1 == r.y1,
        k + 1 < r.batch_count() ==> r.batch(k).y2 == r.batch(k + 1).y1,
        k + 1 == r.batch_count() ==> r.batch(k).y2 == r.y2,
{
}

/// The first `n` batches cover the rows from the region's top down to where
/// batch `n` would start, and hold exactly the pixels of those rows.
pub proof fn lemma_batches_prefix(r: RegionModel, n: nat)
    requires
        r.wf(),
        n <= r.batch_count(),
    ensures
        n < r.batch_count() ==> total_height(r.batches(), n) == n * BATCH_HEIGHT,
        n == r.batch_count() ==> total_height(r.batches(), n) == r.height(),
        0 <= total_height(r.batches(), n) <= r.height(),
        joined_pixels(r.batches(), n) == r.pixels.subrange(
            0,
            total_height(r.batches(), n) * r.width(),
        ),
    decreases n,
{
    let s = r.batches();
    if n == 0 {
        assert(joined_pixels(s, 0) =~= r.pixels.subrange(0, 0 * r.width()));
    } else {
        let k = (n - 1) as nat;
        lemma_batches_prefix(r, k);
        lemma_batch_bounded(r, k as int);
        assert(s[k as int] == r.batch(k as int));
        let above = total_height(s, k);
        let below = total_height(s, n);
        assert(above == r.batch_top(k as int) - r.y1);
        assert(below == r.batch_bottom(k as int) - r.y1);
        lemma_rows_to_pixels(above, below, r.width());
        lemma_rows_to_pixels(below, r.height(), r.width());
        assert(s[k as int].pixels == r.pixels.subrange(above * r.width(), below * r.width()));
        assert(joined_pixels(s, n) == joined_pixels(s, k) + s[k as int].pixels);
        assert(joined_pixels(s, n) =~= r.pixels.subrange(0, below * r.width()));
    }
}

/// The batches of a region add up to it: their heights sum to its height and
/// their pixels, taken top to bottom, are its pixels.
pub proof fn lemma_batches_tile(r: RegionModel)
    requires
        r.wf(),
    ensures
        r.batches().len() == r.batch_count(),
        total_height(r.batches(), r.batches().len()) == r.height(),
        joined_pixels(r.batches(), r.batches().len()) == r.pixels,
{
    lemma_batches_prefix(r, r.batch_count() as nat);
    assert(r.pixels.subrange(0, r.height() * r.width()) =~= r.pixels) by {
        assert(r.height() * r.width() == r.width() * r.height()) by (nonlinear_arith);
    }
}

/// A region no taller than a batch is its own single batch; an empty one has
/// none.
pub proof fn lemma_short_region(r: RegionModel)
    requires
        r.wf(),
        r.height() <= BATCH_HEIGHT,
    ensures
        r.height() == 0 ==> r.batch_count() == 0,
        r.height() > 0 ==> r.batch_count() == 1 && r.batch(0) == r,
{
    if r.height() > 0 {
        assert(r.height() * r.width() == r.width() * r.height()) by (nonlinear_arith);
        assert(0 * r.width() == 0);
        assert(r.batch(0).pixels =~= r.pixels);
    }
}

/// A rectangle of the panel together with its pixels.
#[derive(Clone, Debug, PartialEq, Eq)]
pub struct DisplayRegion {
    x1: i32,
    y1: i32,
    x2: i32,
    y2: i32,
    pixels: Vec<Color>,
}

impl View for DisplayRegion {
    type V = RegionModel;

    closed spec fn view(&self) -> RegionModel {
        RegionModel {
            x1: self.x1 as int,
            y1: self.y1 as int,
            x2: self.x2 as int,
            y2: self.y2 as int,
            pixels: self.pixels@,
        }
    }
}

/// Number of cells of the rectangle `x1..x2` by `y1..y2`.
pub open spec fn cells(x1: int, y1: int, x2: int, y2: int) -> int {
    (x2 - x1) * (y2 - y1)
}

/// Counts the cells of a rectangle whose edges are in order.
fn count_cells(x1: i32, y1: i32, x2: i32, y2: i32) -> (n: u64)
    requires
        x1 <= x2,
        y1 <= y2,
    ensures
        n == cells(x1 as int, y1 as int, x2 as int, y2 as int),
{
    let w: u64 = (x2 as i64 - x1 as i64) as u64;
    let h: u64 = (y2 as i64 - y1 as i64) as u64;
    assert(w * h <= u64::MAX) by (nonlinear_arith)
        requires
            w <= 0xffff_ffff,
            h <= 0xffff_ffff,
    ;
    w * h
}

/// Copies the pixels `from..to` of `source`.
fn copy_pixels(source: &Vec<Color>, from: usize, to: usize) -> (out: Vec<Color>)
    requires
        from <= to <= source@.len(),
    ensures
        out@ == source@.subrange(from as int, to as int),
{
    let mut out: Vec<Color> = Vec::new();
    let mut i: usize = from;
    while i < to
        invariant
            from <= i <= to <= source@.len(),
            out@ == source@.subrange(from as int, i as int),
        decreases to - i,
    {
        out.push(source[i]);
        i = i + 1;
    }
    out
}

impl DisplayRegion {
    /// Whether the region's edges are in order and it has one pixel for each
    /// cell.
    pub open spec fn wf(&self) -> bool {
        self@.wf()
    }

    /// The region `x1..x2` by `y1..y2` with the given pixels, row by row.
    /// There is no such region where an edge pair is out of order or the
    /// number of pixels is not the number of cells.
    pub fn new(x1: i32, y1: i32, x2: i32, y2: i32, pixels: Vec<Color>) -> (r: Option<
        DisplayRegion,
    >)
        ensures
            r is Some <==> x1 <= x2 && y1 <= y2 && pixels@.len() == cells(
                x1 as int,
                y1 as int,
                x2 as int,
                y2 as int,
            ),
            r matches Some(region) ==> region.wf() && region@ == (RegionModel {
                x1: x1 as int,
                y1: y1 as int,
                x2: x2 as int,
                y2: y2 as int,
                pixels: pixels@,
            }),
    {
        if x1 > x2 || y1 > y2 {
            return None;
        }
        let n = count_cells(x1, y1, x2, y2);
        if pixels.len() as u64 != n {
            return None;
        }
        Some(DisplayRegion { x1, y1, x2, y2, pixels })
    }

    /// The region that a refresh of the rendering runtime names: its corners
    /// `(x1, y1)` and `(x2, y2)` both lie inside it, and its pixels are the
    /// first of `colors`, as many as it has cells. There is no such region
    /// where the corners are out of order or `colors` is too short.
    pub fn from_refresh(x1: i16, y1: i16, x2: i16, y2: i16, colors: &Vec<Color>) -> (r: Option<
        DisplayRegion,
    >)
        ensures
            r is Some <==> x1 <= x2 && y1 <= y2 && colors@.len() >= cells(
                x1 as int,
                y1 as int,
                x2 + 1,
                y2 + 1,
            ),
            r matches Some(region) ==> region.wf() && region@ == (RegionModel {
                x1: x1 as int,
                y1: y1 as int,
                x2: x2 + 1,
                y2: y2 + 1,
                pixels: colors@.subrange(0, cells(x1 as int, y1 as int, x2 + 1, y2 + 1)),
            }),
    {
        if x1 > x2 || y1 > y2 {
            return None;
        }
        let right: i32 = x2 as i32 + 1;
        let bottom: i32 = y2 as i32 + 1;
        let n = count_cells(x1 as i32, y1 as i32, right, bottom);
        if (colors.len() as u64) < n {
            return None;
        }
        let pixels = copy_pixels(colors, 0, n as usize);
        Some(DisplayRegion { x1: x1 as i32, y1: y1 as i32, x2: right, y2: bottom, pixels })
    }

    /// Left edge, inside the region.
    pub fn x1(&self) -> (v: i32)
        ensures
            v == self@.x1,
    {
        self.x1
    }

    /// Top edge, inside the region.
    pub fn y1(&self) -> (v: i32)
        ensures
            v == self@.y1,
    {
        self.y1
    }

    /// Right edge, just outside the region.
    pub fn x2(&self) -> (v: i32)
        ensures
            v == self@.x2,
    {
        self.x2
    }

    /// Bottom edge, just outside the region.
    pub fn y2(&self) -> (v: i32)
        ensures
            v == self@.y2,
    {
        self.y2
    }

    /// The pixels, row by row.
    pub fn pixels(&self) -> (p: &Vec<Color>)
        ensures
            p@ == self@.pixels,
    {
        &self.pixels
    }

    /// Number of rows.
    pub fn height(&self) -> (h: u32)
        requires
            self.wf(),
        ensures
            h == self@.height(),
    {
        (self.y2 as i64 - self.y1 as i64) as u32
    }

    /// Number of columns.
    pub fn width(&self) -> (w: u32)
        requires
            self.wf(),
        ensures
            w == self@.width(),
    {
        (self.x2 as i64 - self.x1 as i64) as u32
    }

    /// Cuts the region into its batches, top to bottom: each has the region's
    /// columns and at most a batch height of rows, and together they are the
    /// region.
    pub fn split(&self) -> (batches: Vec<DisplayRegion>)
        requires
            self.wf(),
        ensures
            batches@.len() == self@.batch_count(),
            forall|k: int|
                0 <= k < batches@.len() ==> (#[trigger] batches@[k]).wf() && batches@[k]@
                    == self@.batch(k),
    {
        let mut batches: Vec<DisplayRegion> = Vec::new();
        let mut top: i32 = self.y1;
        let mut offset: usize = 0;
        let width: u64 = (self.x2 as i64 - self.x1 as i64) as u64;
        let total: usize = self.pixels.len();
        let ghost r = self@;
        proof {
            assert(0 * r.width() == 0);
            assert(r.pixels.len() == r.width() * r.height());
        }
        while top < self.y2
            invariant
                self.wf(),
                r == self@,
                width == r.width(),
                batches@.len() <= r.batch_count(),
                top < self.y2 ==> top == r.batch_top(batches@.len() as int),
                top >= self.y2 ==> top == self.y2 && batches@.len() == r.batch_count(),
                self.y1 <= top <= self.y2,
                offset == (top - self.y1) * r.width(),
                offset <= total == self.pixels@.len(),
                forall|k: int|
                    0 <= k < batches@.len() ==> (#[trigger] batches@[k]).wf() && batches@[k]@
                        == r.batch(k),
            decreases self.y2 - top,
        {
            let ghost k = batches@.len() as int;
            let bottom: i32 = if self.y2 as i64 - top as i64 >= BATCH_HEIGHT as i64 {
                top + BATCH_HEIGHT as i32
            } else {
                self.y2
            };
            let rows: u64 = (bottom as i64 - top as i64) as u64;
            proof {
                assert(bottom == r.batch_bottom(k));
                lemma_batch_bounded(r, k);
                lemma_rows_to_pixels(top - self.y1, bottom - self.y1, r.width());
                lemma_rows_to_pixels(bottom - self.y1, r.height(), r.width());
                assert(rows * width == (bottom - top) * r.width());
                assert((bottom - self.y1) - (top - self.y1) == bottom - top);
                assert(rows * width == (bottom - self.y1) * r.width() - offset);
                assert((bottom - self.y1) * r.width() <= self.pixels@.len());
            }
            let end: usize = offset + (rows * width) as usize;
            let pixels = copy_pixels(&self.pixels, offset, end);
            let batch = DisplayRegion { x1: self.x1, y1: top, x2: self.x2, y2: bottom, pixels };
            assert(batch@ == r.batch(k));
            batches.push(batch);
            top = bottom;
            offset = end;
        }
        batches
    }
}

} // verus!
