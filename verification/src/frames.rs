//! Sprite-sheet geometry and the animation frame selector.
//!
//! An [`AnimationFrames`] table is one looping animation's timing curve: a
//! list of millisecond offsets, sorted strictly ascending, paired with the
//! sprite-sheet frame to show once that offset has passed.  The last offset
//! is the loop's period.  [`select_frame`] maps an elapsed time to a frame:
//! it reduces the elapsed time into the first period (by repeatedly taking
//! the period off, so a multiple of the period reduces to the period itself,
//! not to zero) and then picks the frame of the greatest offset strictly
//! below the reduced time, falling back to the first frame when no offset
//! qualifies.

use vstd::prelude::*;

use vstd::arithmetic::div_mod::lemma_mod_add_multiples_vanish;
use vstd::arithmetic::div_mod::lemma_mod_division_less_than_divisor;
use vstd::arithmetic::div_mod::lemma_multiply_divide_lt;
use vstd::arithmetic::mul::lemma_mul_inequality;
use vstd::arithmetic::mul::lemma_mul_is_distributive_add_other_way;

verus! {

/// Where the frames of a sprite sheet sit inside its texture: the texture's
/// size in pixels and the grid of equally sized cells that covers it.
#[derive(Debug)]
pub struct Grid {
    pub texture_width: u32,
    pub texture_height: u32,
    pub columns: u32,
    pub rows: u32,
    pub cell_size: (u32, u32),
}

impl Grid {
    /// A usable grid: no zero dimension, and the cells fit inside the
    /// texture.
    pub open spec fn wf(&self) -> bool {
        &&& self.columns > 0
        &&& self.rows > 0
        &&& self.cell_size.0 > 0
        &&& self.cell_size.1 > 0
        &&& self.columns * self.cell_size.0 <= self.texture_width
        &&& self.rows * self.cell_size.1 <= self.texture_height
    }

    /// How many frames the grid holds.
    pub open spec fn frame_count(&self) -> int {
        self.columns * self.rows
    }
}

/// One animation's timing curve: `input[i]` is a millisecond offset into the
/// loop, `output[i]` the sprite-sheet frame shown from just after that offset
/// onwards.
#[derive(Debug)]
pub struct AnimationFrames {
    pub input: Vec<u64>,
    pub output: Vec<u32>,
}

impl AnimationFrames {
    /// The table invariant: the two columns have equal, non-zero length, the
    /// offsets are strictly increasing, and the period is positive.
    pub open spec fn wf(&self) -> bool {
        &&& self.input@.len() == self.output@.len()
        &&& self.input@.len() > 0
        &&& forall|i: int, j: int|
            0 <= i < j < self.input@.len() ==> self.input@[i] < self.input@[j]
        &&& self.input@.last() > 0
    }

    /// The loop period: the last offset of the table.
    pub open spec fn period(&self) -> int {
        self.input@.last() as int
    }
}

/// An elapsed time brought into the first loop: zero stays zero, a positive
/// multiple of the period becomes the period itself, anything else its
/// remainder.  This is what taking the period off while the time exceeds the
/// period leaves behind.
pub open spec fn reduce_elapsed(elapsed: int, period: int) -> int
    recommends
        elapsed >= 0,
        period > 0,
{
    if elapsed == 0 {
        0
    } else if elapsed % period == 0 {
        period
    } else {
        elapsed % period
    }
}

/// How many offsets at the front of the table lie strictly below `diff`:
/// the scan for the frame stops at the first offset that does not.
pub open spec fn qualifying_prefix_len(inputs: Seq<u64>, diff: int) -> int
    decreases inputs.len(),
{
    if inputs.len() == 0 {
        0
    } else if inputs[0] >= diff {
        0
    } else {
        1 + qualifying_prefix_len(inputs.drop_first(), diff)
    }
}

/// The table row the scan selects for a reduced time `diff`: the greatest
/// index whose offset is strictly below `diff`, or the first row when no
/// offset is.
pub open spec fn selected_index(inputs: Seq<u64>, diff: int) -> int {
    let k = qualifying_prefix_len(inputs, diff);
    if k == 0 {
        0
    } else {
        k - 1
    }
}

/// The frame that a well-formed table shows at a given elapsed time.
pub open spec fn select_frame_spec(frames: &AnimationFrames, elapsed: int) -> u32
    recommends
        frames.wf(),
        elapsed >= 0,
{
    frames.output@[selected_index(frames.input@, reduce_elapsed(elapsed, frames.period()))]
}

/// The prefix of qualifying offsets never outruns the table.
proof fn lemma_qualifying_prefix_len_bound(inputs: Seq<u64>, diff: int)
    ensures
        0 <= qualifying_prefix_len(inputs, diff) <= inputs.len(),
    decreases inputs.len(),
{
    if inputs.len() > 0 && inputs[0] < diff {
        lemma_qualifying_prefix_len_bound(inputs.drop_first(), diff);
    }
}

/// The scan's exit point pins the qualifying prefix down: if everything
/// before `i` lies below `diff` and position `i` (when it exists) does not,
/// then `i` is the qualifying prefix length.
proof fn lemma_qualifying_prefix_len_is(inputs: Seq<u64>, diff: int, i: int)
    requires
        0 <= i <= inputs.len(),
        forall|j: int| 0 <= j < i ==> inputs[j] < diff,
        i == inputs.len() || inputs[i] >= diff,
    ensures
        qualifying_prefix_len(inputs, diff) == i,
    decreases inputs.len(),
{
    if inputs.len() > 0 && inputs[0] < diff {
        let rest = inputs.drop_first();
        assert(forall|j: int| 0 <= j < i - 1 ==> rest[j] < diff);
        lemma_qualifying_prefix_len_is(rest, diff, i - 1);
    }
}

/// The scan always lands inside the table.
pub proof fn lemma_selected_index_in_range(inputs: Seq<u64>, diff: int)
    requires
        inputs.len() > 0,
    ensures
        0 <= selected_index(inputs, diff) < inputs.len(),
{
    lemma_qualifying_prefix_len_bound(inputs, diff);
}

/// Map an elapsed time (milliseconds since the animation started) to the
/// sprite-sheet frame a table shows at that moment.
pub fn select_frame(frames: &AnimationFrames, elapsed_ms: u64) -> (frame: u32)
    requires
        frames.wf(),
    ensures
        frame == select_frame_spec(frames, elapsed_ms as int),
{
    let n = frames.input.len();
    let period = frames.input[n - 1];

    let diff: u64 = if elapsed_ms == 0 {
        0
    } else {
        let m = elapsed_ms % period;
        if m == 0 {
            period
        } else {
            m
        }
    };
    assert(diff == reduce_elapsed(elapsed_ms as int, frames.period()));

    let mut i: usize = 0;
    while i < n && frames.input[i] < diff
        invariant
            frames.wf(),
            n == frames.input@.len(),
            0 <= i <= n,
            forall|j: int| 0 <= j < i ==> frames.input@[j] < diff,
        decreases n - i,
    {
        i = i + 1;
    }

    proof {
        lemma_qualifying_prefix_len_is(frames.input@, diff as int, i as int);
    }

    if i == 0 {
        frames.output[0]
    } else {
        frames.output[i - 1]
    }
}

/// The frame selection is periodic: from one millisecond in, moving a whole
/// period forwards never changes the selected frame.  (At an elapsed time of
/// exactly zero the scan falls back to the first row, while one period later
/// it lands on the row just below the period, so zero is left out.)
pub proof fn lemma_select_frame_periodic(frames: &AnimationFrames, elapsed: int)
    requires
        frames.wf(),
        elapsed >= 1,
    ensures
        select_frame_spec(frames, elapsed) == select_frame_spec(frames, elapsed + frames.period()),
{
    let p = frames.period();
    lemma_mod_add_multiples_vanish(elapsed, p);
    assert((elapsed + p) % p == elapsed % p);
    assert(reduce_elapsed(elapsed, p) == reduce_elapsed(elapsed + p, p));
}

/// At an elapsed time of zero the selector returns the table's first frame:
/// no offset is strictly below zero, so the scan falls back to the first row.
pub proof fn lemma_select_frame_at_zero(frames: &AnimationFrames)
    requires
        frames.wf(),
    ensures
        select_frame_spec(frames, 0) == frames.output@[0],
{
    assert(qualifying_prefix_len(frames.input@, reduce_elapsed(0, frames.period())) == 0);
}

/// A pixel-space sub-rectangle of a sprite-sheet texture.
#[derive(Copy, Clone, Debug, PartialEq, Eq, Structural)]
pub struct SourceRect {
    pub x: u32,
    pub y: u32,
    pub w: u32,
    pub h: u32,
}

/// The sub-rectangle of the texture where a frame sits: frames fill the grid
/// row by row, each cell one frame.
pub open spec fn frame_rect_spec(grid: Grid, frame: int) -> SourceRect
    recommends
        grid.wf(),
        0 <= frame < grid.frame_count(),
{
    SourceRect {
        x: ((frame % grid.columns as int) * grid.cell_size.0) as u32,
        y: ((frame / grid.columns as int) * grid.cell_size.1) as u32,
        w: grid.cell_size.0,
        h: grid.cell_size.1,
    }
}

/// Compute the sub-rectangle of the texture where a frame sits.
pub fn frame_source_rect(grid: &Grid, frame: u32) -> (rect: SourceRect)
    requires
        grid.wf(),
        frame < grid.frame_count(),
    ensures
        rect == frame_rect_spec(*grid, frame as int),
        rect.x + rect.w <= grid.texture_width,
        rect.y + rect.h <= grid.texture_height,
{
    let column = frame % grid.columns;
    let row = frame / grid.columns;
    proof {
        lemma_multiply_divide_lt(frame as int, grid.columns as int, grid.rows as int);
        lemma_mod_division_less_than_divisor(frame as int, grid.columns as int);
        lemma_mul_inequality(column as int + 1, grid.columns as int, grid.cell_size.0 as int);
        lemma_mul_inequality(row as int + 1, grid.rows as int, grid.cell_size.1 as int);
        lemma_mul_is_distributive_add_other_way(grid.cell_size.0 as int, column as int, 1);
        lemma_mul_is_distributive_add_other_way(grid.cell_size.1 as int, row as int, 1);
    }
    SourceRect {
        x: column * grid.cell_size.0,
        y: row * grid.cell_size.1,
        w: grid.cell_size.0,
        h: grid.cell_size.1,
    }
}

} // verus!
