//! Animated resources: identifiers, validated animations, and the resource
//! bundle the game plays with.
//!
//! An [`Animation`] is a sprite sheet together with one timing table per
//! burn stage.  [`Animation::load`] checks the configuration that came from
//! the animations file — the grid must be usable, every table well formed,
//! every frame inside the grid, and no stage listed twice — and only then
//! builds the animation, so everything downstream can rely on those
//! invariants.

use vstd::prelude::*;

use crate::assets::sounds::Sounds;
use crate::assets::story::StoryFragments;
use crate::frames::AnimationFrames;
use crate::frames::Grid;
use crate::frames::SourceRect;
use crate::frames::frame_rect_spec;
use crate::frames::frame_source_rect;
use crate::frames::select_frame;
use crate::frames::select_frame_spec;
use vstd::arithmetic::mul::lemma_mul_inequality;
use vstd::arithmetic::mul::lemma_mul_is_commutative;

verus! {

/// The three burn stages of the campfire animation.
#[derive(Copy, Clone, Debug, PartialEq, Eq, Structural, Hash)]
pub enum AnimationId {
    BurnLow,
    BurnMedium,
    BurnHigh,
}

/// Why an animation configuration was rejected.
#[derive(Copy, Clone, Debug, PartialEq, Eq, Structural)]
pub enum ConfigError {
    /// A grid dimension is zero or the cells overrun the texture.
    BadGrid,
    /// A timing table has no entries.
    EmptyTable,
    /// A timing table's offsets and frames differ in number.
    LengthMismatch,
    /// A timing table's offsets are not strictly increasing.
    NotIncreasing,
    /// A timing table's period (its last offset) is zero.
    ZeroPeriod,
    /// A timing table names a frame outside the sprite grid.
    FrameOutOfRange,
    /// Two timing tables are keyed by the same animation stage.
    DuplicateAnimation,
}

/// The first fault of one timing table against a grid, checked in a fixed
/// order, or nothing when the table is sound.
pub open spec fn table_error(frames: AnimationFrames, grid: Grid) -> Option<ConfigError> {
    if frames.input@.len() == 0 {
        Some(ConfigError::EmptyTable)
    } else if frames.input@.len() != frames.output@.len() {
        Some(ConfigError::LengthMismatch)
    } else if !(forall|i: int, j: int|
        0 <= i < j < frames.input@.len() ==> frames.input@[i] < frames.input@[j]) {
        Some(ConfigError::NotIncreasing)
    } else if frames.input@.last() == 0 {
        Some(ConfigError::ZeroPeriod)
    } else if !(forall|i: int|
        0 <= i < frames.output@.len() ==> frames.output@[i] < grid.frame_count()) {
        Some(ConfigError::FrameOutOfRange)
    } else {
        None
    }
}

/// The fault of entry `k` of an animation set: a duplicate of an earlier
/// stage, or whatever is wrong with its own table.
pub open spec fn entry_error(
    set: Seq<(AnimationId, AnimationFrames)>,
    grid: Grid,
    k: int,
) -> Option<ConfigError>
    recommends
        0 <= k < set.len(),
{
    if exists|j: int| 0 <= j < k && set[j].0 == set[k].0 {
        Some(ConfigError::DuplicateAnimation)
    } else {
        table_error(set[k].1, grid)
    }
}

/// The first fault among the entries of an animation set from position `k`
/// onwards.
pub open spec fn set_error_from(
    set: Seq<(AnimationId, AnimationFrames)>,
    grid: Grid,
    k: int,
) -> Option<ConfigError>
    decreases set.len() - k,
{
    if k < 0 || k >= set.len() {
        None
    } else if entry_error(set, grid, k).is_some() {
        entry_error(set, grid, k)
    } else {
        set_error_from(set, grid, k + 1)
    }
}

/// The first fault of a whole animation set.
pub open spec fn animation_set_error(
    set: Seq<(AnimationId, AnimationFrames)>,
    grid: Grid,
) -> Option<ConfigError> {
    set_error_from(set, grid, 0)
}

/// A fault-free run from `k` leaves every later entry fault-free.
proof fn lemma_set_ok_entry_ok(
    set: Seq<(AnimationId, AnimationFrames)>,
    grid: Grid,
    k: int,
    m: int,
)
    requires
        0 <= k <= m < set.len(),
        set_error_from(set, grid, k).is_none(),
    ensures
        entry_error(set, grid, m).is_none(),
    decreases m - k,
{
    if k < m {
        lemma_set_ok_entry_ok(set, grid, k + 1, m);
    }
}

/// In a fault-free animation set every table is well formed, every frame
/// fits the grid, and no stage appears twice.
proof fn lemma_set_ok_facts(set: Seq<(AnimationId, AnimationFrames)>, grid: Grid)
    requires
        animation_set_error(set, grid).is_none(),
    ensures
        forall|k: int| 0 <= k < set.len() ==> (#[trigger] set[k].1).wf(),
        forall|k: int, i: int|
            0 <= k < set.len() && 0 <= i < set[k].1.output@.len()
                ==> (#[trigger] set[k].1.output@[i]) < grid.frame_count(),
        forall|j: int, k: int| 0 <= j < k < set.len() ==> set[j].0 != set[k].0,
{
    assert forall|k: int| 0 <= k < set.len() implies (#[trigger] set[k].1).wf() by {
        lemma_set_ok_entry_ok(set, grid, 0, k);
    }
    assert forall|k: int, i: int|
        0 <= k < set.len() && 0 <= i < set[k].1.output@.len() implies (#[trigger] set[k].1
        .output@[i]) < grid.frame_count() by {
        lemma_set_ok_entry_ok(set, grid, 0, k);
    }
    assert forall|j: int, k: int| 0 <= j < k < set.len() implies set[j].0 != set[k].0 by {
        lemma_set_ok_entry_ok(set, grid, 0, k);
    }
}

/// Check whether a grid is usable.
fn check_grid(grid: &Grid) -> (ok: bool)
    ensures
        ok == grid.wf(),
{
    proof {
        lemma_mul_inequality(grid.columns as int, 0xffff_ffff, grid.cell_size.0 as int);
        lemma_mul_is_commutative(0xffff_ffff, grid.cell_size.0 as int);
        lemma_mul_inequality(grid.cell_size.0 as int, 0xffff_ffff, 0xffff_ffff);
        lemma_mul_inequality(grid.rows as int, 0xffff_ffff, grid.cell_size.1 as int);
        lemma_mul_is_commutative(0xffff_ffff, grid.cell_size.1 as int);
        lemma_mul_inequality(grid.cell_size.1 as int, 0xffff_ffff, 0xffff_ffff);
    }
    grid.columns > 0 && grid.rows > 0 && grid.cell_size.0 > 0 && grid.cell_size.1 > 0
        && grid.columns as u64 * grid.cell_size.0 as u64 <= grid.texture_width as u64
        && grid.rows as u64 * grid.cell_size.1 as u64 <= grid.texture_height as u64
}

/// Check one timing table against a grid, reporting its first fault.
#[verifier::loop_isolation(false)]
fn check_table(frames: &AnimationFrames, grid: &Grid) -> (r: Option<ConfigError>)
    requires
        grid.wf(),
    ensures
        r == table_error(*frames, *grid),
{
    let n = frames.input.len();
    if n == 0 {
        return Some(ConfigError::EmptyTable);
    }
    if n != frames.output.len() {
        return Some(ConfigError::LengthMismatch);
    }

    let mut i: usize = 1;
    while i < n
        invariant
            n == frames.input@.len(),
            1 <= i <= n,
            forall|j: int| 0 < j < i ==> frames.input@[j - 1] < #[trigger] frames.input@[j],
        decreases n - i,
    {
        if frames.input[i - 1] >= frames.input[i] {
            proof {
                if forall|a: int, b: int|
                    0 <= a < b < frames.input@.len() ==> frames.input@[a] < frames.input@[b] {
                    assert(frames.input@[i - 1] < frames.input@[i as int]);
                    assert(false);
                }
            }
            return Some(ConfigError::NotIncreasing);
        }
        i = i + 1;
    }
    proof {
        lemma_adjacent_increasing(frames.input@);
    }

    if frames.input[n - 1] == 0 {
        return Some(ConfigError::ZeroPeriod);
    }

    proof {
        lemma_mul_inequality(grid.columns as int, 0xffff_ffff, grid.rows as int);
        lemma_mul_is_commutative(0xffff_ffff, grid.rows as int);
        lemma_mul_inequality(grid.rows as int, 0xffff_ffff, 0xffff_ffff);
    }
    let bound: u64 = grid.columns as u64 * grid.rows as u64;
    let mut k: usize = 0;
    while k < n
        invariant
            n == frames.output@.len(),
            0 <= k <= n,
            bound == grid.frame_count(),
            forall|j: int| 0 <= j < k ==> frames.output@[j] < grid.frame_count(),
        decreases n - k,
    {
        if frames.output[k] as u64 >= bound {
            proof {
                if forall|j: int|
                    0 <= j < frames.output@.len() ==> frames.output@[j] < grid.frame_count() {
                    assert(frames.output@[k as int] < grid.frame_count());
                    assert(false);
                }
            }
            return Some(ConfigError::FrameOutOfRange);
        }
        k = k + 1;
    }

    None
}

/// A sequence whose neighbours increase is increasing throughout.
proof fn lemma_adjacent_increasing(s: Seq<u64>)
    requires
        forall|j: int| 0 < j < s.len() ==> s[j - 1] < #[trigger] s[j],
    ensures
        forall|i: int, j: int| 0 <= i < j < s.len() ==> s[i] < s[j],
{
    assert forall|i: int, j: int| 0 <= i < j < s.len() implies s[i] < s[j] by {
        lemma_increasing_chain(s, i, j);
    }
}

/// One link at a time: neighbourly increase carries from `i` up to `j`.
proof fn lemma_increasing_chain(s: Seq<u64>, i: int, j: int)
    requires
        forall|k: int| 0 < k < s.len() ==> s[k - 1] < #[trigger] s[k],
        0 <= i < j < s.len(),
    ensures
        s[i] < s[j],
    decreases j - i,
{
    if i + 1 < j {
        lemma_increasing_chain(s, i + 1, j);
    }
}

/// The raw shape of one animation as the configuration file gives it,
/// before validation.  The destination is in thousandths of a pixel.
#[derive(Debug)]
pub struct AnimationDto {
    pub texture: String,
    pub sprites_grid: Grid,
    pub animation_set: Vec<(AnimationId, AnimationFrames)>,
    pub destination: (i64, i64),
}

impl AnimationDto {
    /// The first fault of the configuration, or nothing when it is sound.
    pub open spec fn error(&self) -> Option<ConfigError> {
        if !self.sprites_grid.wf() {
            Some(ConfigError::BadGrid)
        } else {
            animation_set_error(self.animation_set@, self.sprites_grid)
        }
    }
}

/// One validated animation: a sprite sheet, where to draw it, and a timing
/// table per stage, together with its playback state.
#[derive(Debug)]
pub struct Animation {
    /// Path of the sprite-sheet texture.
    pub texture: String,
    /// Where the sprite is drawn, in thousandths of a pixel.
    pub destination: (i64, i64),
    /// The sub-rectangle of the texture currently shown; the whole texture
    /// until the first animation step.
    pub source: SourceRect,
    /// Whether the animation has started playing.
    pub animated: bool,
    /// When the animation started, in milliseconds.
    pub start_time: u64,
    pub sprites_grid: Grid,
    pub animation_set: Vec<(AnimationId, AnimationFrames)>,
}

/// Whether an animation set has a table for a stage.
pub open spec fn has_animation(set: Seq<(AnimationId, AnimationFrames)>, id: AnimationId) -> bool {
    exists|j: int| 0 <= j < set.len() && set[j].0 == id
}

/// The position of a stage's table in an animation set.
pub open spec fn animation_index_of(
    set: Seq<(AnimationId, AnimationFrames)>,
    id: AnimationId,
) -> int {
    choose|j: int| 0 <= j < set.len() && set[j].0 == id
}

/// The milliseconds from `start` to `now`, zero when the clock reads
/// earlier than the start.
pub open spec fn elapsed_since(start: int, now: int) -> int {
    if now >= start {
        now - start
    } else {
        0
    }
}

/// How one animation step at time `now` for stage `id` turns `pre` into
/// `post`: the configuration is untouched; without a table for `id` nothing
/// happens; the first step starts the clock and shows the table's first
/// frame; later steps select the frame for the elapsed time.
pub open spec fn animate_rel(pre: Animation, post: Animation, now: u64, id: AnimationId) -> bool {
    &&& post.texture == pre.texture
    &&& post.destination == pre.destination
    &&& post.sprites_grid == pre.sprites_grid
    &&& post.animation_set == pre.animation_set
    &&& if !has_animation(pre.animation_set@, id) {
        post == pre
    } else {
        let frames = pre.animation_set@[animation_index_of(pre.animation_set@, id)].1;
        &&& post.animated
        &&& if !pre.animated {
            &&& post.start_time == now
            &&& post.source == frame_rect_spec(pre.sprites_grid, frames.output@[0] as int)
        } else {
            &&& post.start_time == pre.start_time
            &&& post.source == frame_rect_spec(
                pre.sprites_grid,
                select_frame_spec(&frames, elapsed_since(pre.start_time as int, now as int)) as int,
            )
        }
    }
}

impl Animation {
    /// A validated animation: usable grid and a fault-free animation set.
    pub open spec fn wf(&self) -> bool {
        &&& self.sprites_grid.wf()
        &&& animation_set_error(self.animation_set@, self.sprites_grid).is_none()
    }

    /// Validate a configured animation and set it up, not yet playing and
    /// showing the whole texture.  Returns the configuration's first fault
    /// instead when there is one.
    #[verifier::loop_isolation(false)]
    pub fn load(dto: AnimationDto) -> (r: Result<Animation, ConfigError>)
        ensures
            match r {
                Ok(a) => {
                    &&& dto.error().is_none()
                    &&& a.wf()
                    &&& a.texture == dto.texture
                    &&& a.destination == dto.destination
                    &&& a.sprites_grid == dto.sprites_grid
                    &&& a.animation_set == dto.animation_set
                    &&& !a.animated
                    &&& a.start_time == 0
                    &&& a.source == (SourceRect {
                        x: 0,
                        y: 0,
                        w: dto.sprites_grid.texture_width,
                        h: dto.sprites_grid.texture_height,
                    })
                },
                Err(e) => dto.error() == Some(e),
            },
    {
        if !check_grid(&dto.sprites_grid) {
            return Err(ConfigError::BadGrid);
        }

        let n = dto.animation_set.len();
        let mut k: usize = 0;
        while k < n
            invariant
                n == dto.animation_set@.len(),
                0 <= k <= n,
                dto.sprites_grid.wf(),
                set_error_from(dto.animation_set@, dto.sprites_grid, 0)
                    == set_error_from(dto.animation_set@, dto.sprites_grid, k as int),
            decreases n - k,
        {
            let mut j: usize = 0;
            while j < k
                invariant
                    0 <= j <= k < n,
                    n == dto.animation_set@.len(),
                    forall|i: int|
                        0 <= i < j ==> dto.animation_set@[i].0 != dto.animation_set@[k as int].0,
                decreases k - j,
            {
                if dto.animation_set[j].0 == dto.animation_set[k].0 {
                    proof {
                        let set = dto.animation_set@;
                        assert(set[j as int].0 == set[k as int].0);
                        assert(entry_error(set, dto.sprites_grid, k as int)
                            == Some(ConfigError::DuplicateAnimation));
                    }
                    return Err(ConfigError::DuplicateAnimation);
                }
                j = j + 1;
            }

            let te = check_table(&dto.animation_set[k].1, &dto.sprites_grid);
            proof {
                let set = dto.animation_set@;
                assert(!(exists|j2: int| 0 <= j2 < k && set[j2].0 == set[k as int].0));
                assert(entry_error(set, dto.sprites_grid, k as int)
                    == table_error(set[k as int].1, dto.sprites_grid));
            }
            if let Some(e) = te {
                return Err(e);
            }
            k = k + 1;
        }

        Ok(Animation {
            source: SourceRect {
                x: 0,
                y: 0,
                w: dto.sprites_grid.texture_width,
                h: dto.sprites_grid.texture_height,
            },
            animated: false,
            start_time: 0,
            texture: dto.texture,
            destination: dto.destination,
            sprites_grid: dto.sprites_grid,
            animation_set: dto.animation_set,
        })
    }

    /// Step the animation for stage `id` at clock time `now_ms`: start it if
    /// it was not playing, and show the frame its timing table selects for
    /// the elapsed time.  Without a table for `id` nothing changes.
    #[verifier::loop_isolation(false)]
    pub fn animate(&mut self, now_ms: u64, id: AnimationId)
        requires
            old(self).wf(),
        ensures
            final(self).wf(),
            animate_rel(*old(self), *final(self), now_ms, id),
    {
        proof {
            lemma_set_ok_facts(self.animation_set@, self.sprites_grid);
        }
        let n = self.animation_set.len();
        let mut found: Option<usize> = None;
        let mut k: usize = 0;
        while k < n
            invariant
                0 <= k <= n,
                match found {
                    Some(f) => f < n && self.animation_set@[f as int].0 == id,
                    None => forall|j: int| 0 <= j < k ==> self.animation_set@[j].0 != id,
                },
            decreases n - k,
        {
            if found.is_none() && self.animation_set[k].0 == id {
                found = Some(k);
            }
            k = k + 1;
        }

        if let Some(f) = found {
            proof {
                assert(self.animation_set@[f as int].1.wf());
                assert(animation_index_of(self.animation_set@, id) == f as int);
            }
            let frame: u32 = if !self.animated {
                self.start_time = now_ms;
                self.animated = true;
                self.animation_set[f].1.output[0]
            } else {
                let diff = if now_ms >= self.start_time {
                    now_ms - self.start_time
                } else {
                    0
                };
                proof {
                    crate::frames::lemma_selected_index_in_range(
                        self.animation_set@[f as int].1.input@,
                        crate::frames::reduce_elapsed(
                            diff as int,
                            self.animation_set@[f as int].1.period(),
                        ),
                    );
                }
                select_frame(&self.animation_set[f].1, diff)
            };
            self.source = frame_source_rect(&self.sprites_grid, frame);
        }
    }

    /// What to draw for this sprite: its current source rectangle and its
    /// destination, or nothing while the animation has not started.
    pub fn draw(&self) -> (r: Option<(SourceRect, (i64, i64))>)
        ensures
            r is Some <==> self.animated,
            r matches Some(p) ==> p.0 == self.source && p.1 == self.destination,
    {
        if self.animated {
            Some((self.source, self.destination))
        } else {
            None
        }
    }

    /// Stop the animation; the next step will start it afresh.
    pub fn reset(&mut self)
        ensures
            *final(self) == (Animation { animated: false, ..*old(self) }),
    {
        self.animated = false;
    }
}

/// A list of animation configurations, as the animations file gives them.
#[derive(Debug)]
pub struct AnimationsDto {
    pub animations: Vec<AnimationDto>,
}

/// The first fault among a list of configurations from position `k` onwards.
pub open spec fn dtos_error_from(dtos: Seq<AnimationDto>, k: int) -> Option<ConfigError>
    decreases dtos.len() - k,
{
    if k < 0 || k >= dtos.len() {
        None
    } else if dtos[k].error().is_some() {
        dtos[k].error()
    } else {
        dtos_error_from(dtos, k + 1)
    }
}

impl AnimationsDto {
    /// The first fault among the configurations, or nothing.
    pub open spec fn error(&self) -> Option<ConfigError> {
        dtos_error_from(self.animations@, 0)
    }
}

/// What loading one configuration gives: the animation mirrors the
/// configuration and starts out not playing.
pub open spec fn loaded_from(a: Animation, dto: AnimationDto) -> bool {
    &&& a.wf()
    &&& a.texture == dto.texture
    &&& a.destination == dto.destination
    &&& a.sprites_grid == dto.sprites_grid
    &&& a.animation_set == dto.animation_set
    &&& !a.animated
    &&& a.start_time == 0
}

/// Every animation of `post` is the matching animation of `pre`, stopped.
pub open spec fn all_reset(pre: Seq<Animation>, post: Seq<Animation>) -> bool {
    &&& post.len() == pre.len()
    &&& forall|i: int|
        0 <= i < post.len() ==> #[trigger] post[i] == (Animation { animated: false, ..pre[i] })
}

/// All animations of the scene, stepped together and showing one shared
/// stage.
#[derive(Debug)]
pub struct Animations {
    pub animations: Vec<Animation>,
    pub animation_id: AnimationId,
}

impl Animations {
    /// Every held animation is validated.
    pub open spec fn wf(&self) -> bool {
        forall|i: int| 0 <= i < self.animations@.len() ==> (#[trigger] self.animations@[i]).wf()
    }

    /// Validate a whole configuration list and set up its animations, at the
    /// low burn stage.  Returns the first fault instead when there is one.
    #[verifier::loop_isolation(false)]
    pub fn load(dto: AnimationsDto) -> (r: Result<Animations, ConfigError>)
        ensures
            match r {
                Ok(a) => {
                    &&& dto.error().is_none()
                    &&& a.wf()
                    &&& a.animation_id == AnimationId::BurnLow
                    &&& a.animations@.len() == dto.animations@.len()
                    &&& forall|i: int|
                        0 <= i < a.animations@.len()
                            ==> loaded_from(#[trigger] a.animations@[i], dto.animations@[i])
                },
                Err(e) => dto.error() == Some(e),
            },
    {
        let mut rest = dto.animations;
        let ghost all = rest@;
        let mut animations: Vec<Animation> = Vec::new();

        while rest.len() > 0
            invariant
                animations@.len() + rest@.len() == all.len(),
                rest@ == all.skip(animations@.len() as int),
                forall|i: int|
                    0 <= i < animations@.len()
                        ==> loaded_from(#[trigger] animations@[i], all[i]),
                dtos_error_from(all, 0) == dtos_error_from(all, animations@.len() as int),
            decreases rest@.len(),
        {
            let ghost done = animations@.len() as int;
            let head = rest.remove(0);
            assert(head == all[done]);
            match Animation::load(head) {
                Ok(a) => {
                    animations.push(a);
                },
                Err(e) => {
                    return Err(e);
                },
            }
            assert(rest@ =~= all.skip(done + 1));
        }

        Ok(Animations { animations, animation_id: AnimationId::BurnLow })
    }

    /// Step every animation at clock time `now_ms`, all at the current
    /// stage.
    #[verifier::loop_isolation(false)]
    pub fn animate(&mut self, now_ms: u64)
        requires
            old(self).wf(),
        ensures
            final(self).wf(),
            final(self).animation_id == old(self).animation_id,
            final(self).animations@.len() == old(self).animations@.len(),
            forall|i: int|
                0 <= i < final(self).animations@.len()
                    ==> animate_rel(
                    old(self).animations@[i],
                    #[trigger] final(self).animations@[i],
                    now_ms,
                    old(self).animation_id,
                ),
    {
        let n = self.animations.len();
        let mut i: usize = 0;
        while i < n
            invariant
                n == self.animations@.len(),
                0 <= i <= n,
                self.animation_id == old(self).animation_id,
                forall|j: int|
                    i <= j < n ==> #[trigger] self.animations@[j] == old(self).animations@[j],
                forall|j: int| i <= j < n ==> (#[trigger] self.animations@[j]).wf(),
                forall|j: int|
                    0 <= j < i ==> animate_rel(
                        old(self).animations@[j],
                        #[trigger] self.animations@[j],
                        now_ms,
                        old(self).animation_id,
                    ),
                forall|j: int| 0 <= j < i ==> (#[trigger] self.animations@[j]).wf(),
            decreases n - i,
    {
            let id = self.animation_id;
            self.animations[i].animate(now_ms, id);
            i = i + 1;
        }
    }

    /// What to draw for each animation, in order: its source rectangle and
    /// destination when it plays, nothing otherwise.
    #[verifier::loop_isolation(false)]
    pub fn draw(&self) -> (r: Vec<Option<(SourceRect, (i64, i64))>>)
        ensures
            r@.len() == self.animations@.len(),
            forall|i: int|
                0 <= i < r@.len() ==> (#[trigger] r@[i] is Some)
                    == self.animations@[i].animated,
            forall|i: int|
                0 <= i < r@.len() ==> (#[trigger] r@[i] matches Some(p) ==> p.0
                    == self.animations@[i].source && p.1 == self.animations@[i].destination),
    {
        let n = self.animations.len();
        let mut r: Vec<Option<(SourceRect, (i64, i64))>> = Vec::new();
        let mut i: usize = 0;
        while i < n
            invariant
                0 <= i <= n,
                r@.len() == i,
                forall|j: int|
                    0 <= j < i ==> (#[trigger] r@[j] is Some)
                        == self.animations@[j].animated,
                forall|j: int|
                    0 <= j < i ==> (#[trigger] r@[j] matches Some(p) ==> p.0
                        == self.animations@[j].source && p.1 == self.animations@[j].destination),
            decreases n - i,
        {
            r.push(self.animations[i].draw());
            i = i + 1;
        }
        r
    }

    /// Stop every animation; the next step starts them afresh.
    #[verifier::loop_isolation(false)]
    pub fn reset(&mut self)
        ensures
            final(self).animation_id == old(self).animation_id,
            all_reset(old(self).animations@, final(self).animations@),
    {
        let n = self.animations.len();
        let mut i: usize = 0;
        while i < n
            invariant
                n == self.animations@.len(),
                0 <= i <= n,
                self.animation_id == old(self).animation_id,
                forall|j: int|
                    i <= j < n ==> #[trigger] self.animations@[j] == old(self).animations@[j],
                forall|j: int|
                    0 <= j < i ==> #[trigger] self.animations@[j] == (Animation {
                        animated: false,
                        ..old(self).animations@[j]
                    }),
            decreases n - i,
        {
            self.animations[i].reset();
            i = i + 1;
        }
    }
}

/// The game's model resources: the animated campfire scene, the story
/// fragments, and the click sounds.  Images and audio themselves live with
/// the renderer outside the crate; these are the parts the logic reads.
pub struct Resources {
    pub static_animations: Animations,
    pub story: StoryFragments,
    pub sounds: Sounds,
}

} // verus!
