//! Layout of the reference grid: a square bundle of evenly spaced lines
//! around the origin, the same in both directions, with the two lines
//! through the origin marked as axes.
//!
//! A grid of `slices` slices reaches `half_slices(slices)` lines to each side
//! of the axes. Lines are numbered by their signed distance from the axis;
//! the caller multiplies by the spacing and draws.

use vstd::prelude::*;

verus! {

/// One grid line of each direction: the line at `index` spacings from the
/// axis.
#[derive(Clone, Copy, Debug, PartialEq, Eq, Structural)]
pub struct GridLine {
    /// Signed distance from the axis, in spacings.
    pub index: i32,
    /// Whether this line is the axis itself.
    pub axis: bool,
}

/// The slice count read as a signed 32-bit number: counts above `i32::MAX`
/// wrap around to negative numbers.
pub open spec fn signed_slices(slices: u32) -> int {
    if slices <= i32::MAX {
        slices as int
    } else {
        slices - 0x1_0000_0000
    }
}

/// Number of lines to each side of the axes: half the signed slice count,
/// rounded towards zero.
pub open spec fn half_slices(slices: u32) -> int {
    let signed = signed_slices(slices);
    if signed >= 0 {
        signed / 2
    } else {
        -((-signed) / 2)
    }
}

/// The lines of a grid of `slices` slices, in drawing order: from
/// `-half_slices` up to `half_slices`, none at all where that is negative.
pub open spec fn grid_lines(slices: u32) -> Seq<GridLine> {
    let half = half_slices(slices);
    if half < 0 {
        Seq::empty()
    } else {
        Seq::new(
            (2 * half + 1) as nat,
            |k: int| GridLine { index: (k - half) as i32, axis: k == half },
        )
    }
}

/// Number of lines to each side of the axes.
pub fn half_extent(slices: u32) -> (half: i32)
    ensures
        half == half_slices(slices),
{
    if slices <= 0x7fff_ffff {
        (slices / 2) as i32
    } else {
        let magnitude: u32 = (0xffff_ffff - slices) + 1;
        -((magnitude / 2) as i32)
    }
}

/// Number of lines of each direction.
pub fn line_count(slices: u32) -> (count: u32)
    ensures
        count == grid_lines(slices).len(),
{
    let half: i32 = half_extent(slices);
    if half < 0 {
        0
    } else {
        2 * (half as u32) + 1
    }
}

/// The `k`-th line in drawing order, if the grid has that many.
pub fn line_at(slices: u32, k: u32) -> (line: Option<GridLine>)
    ensures
        k < grid_lines(slices).len() ==> line == Some(grid_lines(slices)[k as int]),
        k >= grid_lines(slices).len() ==> line.is_none(),
{
    let half: i32 = half_extent(slices);
    if half < 0 || k > 2 * (half as u32) {
        None
    } else {
        let index: i32 = if k >= half as u32 {
            (k - half as u32) as i32
        } else {
            -((half as u32 - k) as i32)
        };
        Some(GridLine { index, axis: index == 0 })
    }
}

/// A grid with lines has exactly one axis of each direction, in the middle:
/// the line at `half_slices` is the axis, and no other line is.
pub proof fn lemma_one_axis(slices: u32, k: int)
    requires
        0 <= k < grid_lines(slices).len(),
    ensures
        grid_lines(slices).len() == 2 * half_slices(slices) + 1,
        grid_lines(slices)[k].axis <==> k == half_slices(slices),
        grid_lines(slices)[k].axis <==> grid_lines(slices)[k].index == 0,
{
}

/// The lines run from `-half_slices` to `half_slices` without a gap: the
/// `k`-th line lies `k - half_slices` spacings from the axis.
pub proof fn lemma_lines_are_consecutive(slices: u32, k: int)
    requires
        0 <= k < grid_lines(slices).len(),
    ensures
        grid_lines(slices)[k].index == k - half_slices(slices),
        -half_slices(slices) <= grid_lines(slices)[k].index <= half_slices(slices),
{
}

} // verus!
