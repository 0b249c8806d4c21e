//! The game session: scenes, the fire, and the story's progress.
//!
//! A session starts on the menu.  A click there begins a game: the fire
//! burns down at a fixed rate, clicking it throws wood on, and once an
//! initial delay has passed the story plays fragment by fragment.  The game
//! is won when the last fragment has played and lost when the fire goes
//! out; either ending returns to the menu on the next click.
//!
//! Intensities are in thousandths of a unit, durations in milliseconds, and
//! coordinates in thousandths of a pixel.  Arithmetic that could leave the
//! machine range saturates instead.

use vstd::prelude::*;

use vstd::arithmetic::mul::lemma_mul_inequality;
use vstd::arithmetic::mul::lemma_mul_is_commutative;

use crate::assets::sounds::Sounds;
use crate::assets::sounds::play_random;
use crate::burn::classify;
use crate::burn::classify_spec;
use crate::click::GameObject;
use crate::click::clicked_object_spec;
use crate::click::get_clicked_object;
use crate::constants::FIRE_DROP_OFF_RATE;
use crate::constants::FIRE_STARTING_INTENSITY;
use crate::constants::STARTING_ANIMATION;
use crate::constants::STORY_DELAY;
use crate::constants::WOOD_INCREASE;
use crate::resources::Resources;
use crate::resources::all_reset;

verus! {

/// The screens the session moves between.
#[derive(Copy, Clone, Debug, PartialEq, Eq, Structural)]
pub enum Scene {
    Menu,
    Game,
    EndScreenFail,
    EndScreenSuccess,
}

/// The sound groups a click can answer with.
#[derive(Copy, Clone, Debug, PartialEq, Eq, Structural)]
pub enum SoundGroup {
    Firewood,
    Owl,
    Guitar,
    Man1,
    Girl1,
    Girl2,
}

/// One sound to play: the group and the position of the cue within it.
#[derive(Copy, Clone, Debug, PartialEq, Eq, Structural)]
pub struct SoundChoice {
    pub group: SoundGroup,
    pub index: usize,
}

/// Which sound group answers a click on an object.
pub open spec fn sound_group_for(object: GameObject) -> SoundGroup {
    match object {
        GameObject::Fire => SoundGroup::Firewood,
        GameObject::Man1 => SoundGroup::Man1,
        GameObject::Man2 => SoundGroup::Guitar,
        GameObject::Girl1 => SoundGroup::Girl1,
        GameObject::Girl2 => SoundGroup::Girl2,
        GameObject::Owl1 => SoundGroup::Owl,
        GameObject::Owl2 => SoundGroup::Owl,
        GameObject::Owl3 => SoundGroup::Owl,
    }
}

/// How many cues a group holds.
pub open spec fn group_count(sounds: Sounds, group: SoundGroup) -> int {
    match group {
        SoundGroup::Firewood => sounds.firewood@.len() as int,
        SoundGroup::Owl => sounds.owl@.len() as int,
        SoundGroup::Guitar => sounds.guitar@.len() as int,
        SoundGroup::Man1 => sounds.man1@.len() as int,
        SoundGroup::Girl1 => sounds.girl1@.len() as int,
        SoundGroup::Girl2 => sounds.girl2@.len() as int,
    }
}

/// `x` brought back into the `i64` range.
pub open spec fn sat_i64(x: int) -> int {
    if x > i64::MAX {
        i64::MAX as int
    } else if x < i64::MIN {
        i64::MIN as int
    } else {
        x
    }
}

/// What a decay rate in thousandths per second amounts to over `delta`
/// milliseconds, rounded towards zero.
pub open spec fn decay_change(rate: int, delta: int) -> int {
    if rate >= 0 {
        (rate * delta) / 1000
    } else {
        -(((-rate) * delta) / 1000)
    }
}

/// Add with saturation at the `i64` bounds.
fn sat_add_i64(a: i64, b: i64) -> (r: i64)
    ensures
        r as int == sat_i64(a + b),
{
    let sum: i128 = a as i128 + b as i128;
    if sum > i64::MAX as i128 {
        i64::MAX
    } else if sum < i64::MIN as i128 {
        i64::MIN
    } else {
        sum as i64
    }
}

/// Subtract a duration with saturation at the `i64` bounds.
fn sat_sub_delta(a: i64, delta: u64) -> (r: i64)
    ensures
        r as int == sat_i64(a - delta),
{
    let diff: i128 = a as i128 - delta as i128;
    if diff < i64::MIN as i128 {
        i64::MIN
    } else {
        diff as i64
    }
}

/// Apply a decay rate over `delta` milliseconds to an intensity, with
/// saturation at the `i64` bounds.
fn apply_decay(intensity: i64, rate: i64, delta: u64) -> (r: i64)
    ensures
        r as int == sat_i64(intensity + decay_change(rate as int, delta as int)),
{
    let magnitude: u64 = if rate >= 0 {
        rate as u64
    } else {
        (-(rate as i128)) as u64
    };
    proof {
        lemma_mul_inequality(magnitude as int, 0x8000_0000_0000_0000, delta as int);
        lemma_mul_is_commutative(0x8000_0000_0000_0000, delta as int);
        lemma_mul_inequality(delta as int, 0xffff_ffff_ffff_ffff, 0x8000_0000_0000_0000);
    }
    let amount: u128 = magnitude as u128 * delta as u128 / 1000;
    if rate >= 0 {
        if amount > u64::MAX as u128 {
            i64::MAX
        } else {
            let sum: i128 = intensity as i128 + amount as u64 as i128;
            if sum > i64::MAX as i128 {
                i64::MAX
            } else {
                sum as i64
            }
        }
    } else {
        if amount > u64::MAX as u128 {
            i64::MIN
        } else {
            let diff: i128 = intensity as i128 - amount as u64 as i128;
            if diff < i64::MIN as i128 {
                i64::MIN
            } else {
                diff as i64
            }
        }
    }
}

/// A running game session: the current scene, the fire, and where the story
/// stands.
pub struct MainState {
    pub resources: Resources,
    pub scene: Scene,
    /// The fire's intensity, in thousandths of a unit.
    pub fire_intensity: i64,
    /// How the intensity changes per second, in thousandths; negative while
    /// the fire burns down.
    pub fire_drop_off: i64,
    /// How much one click on the fire adds, in thousandths.
    pub wood_increase: i64,
    /// The story fragment playing or up next.
    pub story_id: usize,
    /// Whether a fragment's narration is currently playing.
    pub story_in_progress: bool,
    /// Milliseconds until the story begins; counts down and goes negative.
    pub delayed_start_after: i64,
}

/// What is drawn this frame.
#[derive(Copy, Clone, Debug, PartialEq, Eq, Structural)]
pub enum DrawPlan {
    /// The menu screen.
    Menu,
    /// The game scene, with the playing fragment's caption, or the empty
    /// caption between fragments once the story has begun.
    Game { story_image: Option<usize>, empty_text: bool },
    /// The losing end screen.
    EndScreenFail,
    /// The winning end screen.
    EndScreenSuccess,
}

/// What the session shows in its current state.
pub open spec fn draw_plan_spec(s: MainState) -> DrawPlan {
    match s.scene {
        Scene::Menu => DrawPlan::Menu,
        Scene::Game => DrawPlan::Game {
            story_image: if s.delayed_start_after < 0 && s.story_in_progress {
                Some(s.story_id)
            } else {
                None
            },
            empty_text: s.delayed_start_after < 0 && !s.story_in_progress,
        },
        Scene::EndScreenFail => DrawPlan::EndScreenFail,
        Scene::EndScreenSuccess => DrawPlan::EndScreenSuccess,
    }
}

/// The hit object's sound group has a cue to answer with; a miss asks for
/// nothing.
pub open spec fn click_answerable(sounds: Sounds, x: int, y: int) -> bool {
    match clicked_object_spec(x, y) {
        Some(object) => group_count(sounds, sound_group_for(object)) > 0,
        None => true,
    }
}

/// How a click at (x, y) during the game turns `pre` into `post` with sound
/// choice `r`: a hit on the fire throws wood on; any hit answers with a
/// random cue of the object's group; a miss changes nothing.
pub open spec fn game_click_rel(
    pre: MainState,
    post: MainState,
    x: int,
    y: int,
    r: Option<SoundChoice>,
) -> bool {
    &&& post.scene == pre.scene
    &&& post.fire_drop_off == pre.fire_drop_off
    &&& post.wood_increase == pre.wood_increase
    &&& post.story_id == pre.story_id
    &&& post.story_in_progress == pre.story_in_progress
    &&& post.delayed_start_after == pre.delayed_start_after
    &&& post.resources == pre.resources
    &&& match clicked_object_spec(x, y) {
        Some(object) => {
            &&& post.fire_intensity == (if object == GameObject::Fire {
                sat_i64(pre.fire_intensity + pre.wood_increase)
            } else {
                pre.fire_intensity as int
            })
            &&& (r matches Some(c) && c.group == sound_group_for(object) && c.index
                < group_count(pre.resources.sounds, c.group))
        },
        None => {
            &&& post.fire_intensity == pre.fire_intensity
            &&& r is None
        },
    }
}

impl MainState {
    /// A fresh session: on the menu, the fire cold, the story at its start
    /// and its opening delay pending.
    pub fn new(resources: Resources) -> (s: Self)
        ensures
            s.resources == resources,
            s.scene == Scene::Menu,
            s.fire_intensity == 0,
            s.fire_drop_off == 0,
            s.wood_increase == 0,
            s.story_id == 0,
            !s.story_in_progress,
            s.delayed_start_after == STORY_DELAY,
    {
        Self {
            resources,
            scene: Scene::Menu,
            fire_intensity: 0,
            fire_drop_off: 0,
            wood_increase: 0,
            story_id: 0,
            story_in_progress: false,
            delayed_start_after: STORY_DELAY,
        }
    }

    /// Begin a game: the starting animation plays from its first frame, the
    /// fire starts at its opening intensity and burns down, and the story
    /// rewinds.  The scene and the story delay are left to the caller.
    pub fn reset_game(&mut self)
        ensures
            final(self).scene == old(self).scene,
            final(self).delayed_start_after == old(self).delayed_start_after,
            final(self).fire_intensity == FIRE_STARTING_INTENSITY,
            final(self).fire_drop_off == -FIRE_DROP_OFF_RATE,
            final(self).wood_increase == WOOD_INCREASE,
            final(self).story_id == 0,
            !final(self).story_in_progress,
            final(self).resources.story == old(self).resources.story,
            final(self).resources.sounds == old(self).resources.sounds,
            final(self).resources.static_animations.animation_id == STARTING_ANIMATION,
            all_reset(
                old(self).resources.static_animations.animations@,
                final(self).resources.static_animations.animations@,
            ),
    {
        self.resources.static_animations.animation_id = STARTING_ANIMATION;
        self.resources.static_animations.reset();

        self.fire_intensity = FIRE_STARTING_INTENSITY;
        self.fire_drop_off = -FIRE_DROP_OFF_RATE;
        self.wood_increase = WOOD_INCREASE;

        self.story_id = 0;
        self.story_in_progress = false;
    }

    /// One tick of the game clock: the fire burns down by its rate over
    /// `delta_ms`; a dead fire loses the game; otherwise the burn stage is
    /// reclassified, and — once the opening delay has elapsed — the story
    /// advances: the next fragment is started (its position is returned for
    /// the caller to play), or, when the playing fragment has ended
    /// (`story_playing` false), the story moves on, winning the game after
    /// the last fragment.
    pub fn update_logic(&mut self, delta_ms: u64, story_playing: bool) -> (story_to_start: Option<
        usize,
    >)
        requires
            ({
                let level = sat_i64(
                    old(self).fire_intensity + decay_change(
                        old(self).fire_drop_off as int,
                        delta_ms as int,
                    ),
                );
                (level >= 0 && old(self).delayed_start_after < 0) ==> old(self).story_id < old(
                    self,
                ).resources.story.fragments@.len()
            }),
        ensures
            ({
                let level = sat_i64(
                    old(self).fire_intensity + decay_change(
                        old(self).fire_drop_off as int,
                        delta_ms as int,
                    ),
                );
                &&& final(self).fire_intensity == level
                &&& final(self).fire_drop_off == old(self).fire_drop_off
                &&& final(self).wood_increase == old(self).wood_increase
                &&& final(self).resources.story == old(self).resources.story
                &&& final(self).resources.sounds == old(self).resources.sounds
                &&& final(self).resources.static_animations.animations == old(
                    self,
                ).resources.static_animations.animations
                &&& if level < 0 {
                    &&& final(self).scene == Scene::EndScreenFail
                    &&& final(self).resources.static_animations.animation_id == old(
                        self,
                    ).resources.static_animations.animation_id
                    &&& final(self).story_id == old(self).story_id
                    &&& final(self).story_in_progress == old(self).story_in_progress
                    &&& final(self).delayed_start_after == old(self).delayed_start_after
                    &&& story_to_start is None
                } else {
                    &&& final(self).resources.static_animations.animation_id == classify_spec(
                        level,
                    )
                    &&& if old(self).delayed_start_after >= 0 {
                        &&& final(self).delayed_start_after == sat_i64(
                            old(self).delayed_start_after - delta_ms,
                        )
                        &&& final(self).scene == old(self).scene
                        &&& final(self).story_id == old(self).story_id
                        &&& final(self).story_in_progress == old(self).story_in_progress
                        &&& story_to_start is None
                    } else {
                        &&& final(self).delayed_start_after == old(self).delayed_start_after
                        &&& if !old(self).story_in_progress {
                            &&& final(self).story_in_progress
                            &&& final(self).story_id == old(self).story_id
                            &&& final(self).scene == old(self).scene
                            &&& story_to_start == Some(old(self).story_id)
                        } else if story_playing {
                            &&& final(self).story_in_progress
                            &&& final(self).story_id == old(self).story_id
                            &&& final(self).scene == old(self).scene
                            &&& story_to_start is None
                        } else {
                            &&& !final(self).story_in_progress
                            &&& final(self).story_id == old(self).story_id + 1
                            &&& final(self).scene == (if old(self).story_id + 1 == old(
                                self,
                            ).resources.story.fragments@.len() {
                                Scene::EndScreenSuccess
                            } else {
                                old(self).scene
                            })
                            &&& story_to_start is None
                        }
                    }
                }
            }),
            story_to_start matches Some(i) ==> i < old(self).resources.story.fragments@.len(),
    {
        self.fire_intensity = apply_decay(self.fire_intensity, self.fire_drop_off, delta_ms);

        if self.fire_intensity < 0 {
            self.scene = Scene::EndScreenFail;
            return None;
        }

        let id = classify(self.fire_intensity);
        self.resources.static_animations.animation_id = id;

        if self.delayed_start_after < 0 {
            if !self.story_in_progress {
                self.story_in_progress = true;
                Some(self.story_id)
            } else if story_playing {
                None
            } else {
                let fragment_count = self.resources.story.fragments.len();
                self.story_in_progress = false;
                self.story_id = self.story_id + 1;
                if self.story_id == fragment_count {
                    self.scene = Scene::EndScreenSuccess;
                }
                None
            }
        } else {
            self.delayed_start_after = sat_sub_delta(self.delayed_start_after, delta_ms);
            None
        }
    }

    /// Throw wood on the fire.
    pub fn add_wood(&mut self)
        ensures
            final(self).fire_intensity == sat_i64(
                old(self).fire_intensity + old(self).wood_increase,
            ),
            *final(self) == (MainState { fire_intensity: final(self).fire_intensity, ..*old(self) }),
    {
        self.fire_intensity = sat_add_i64(self.fire_intensity, self.wood_increase);
    }

    /// Handle a click inside the game scene: wood on the fire when the fire
    /// is hit, and the hit object's sound group answers with a cue picked at
    /// random.
    pub fn handle_game_click(&mut self, x: i64, y: i64) -> (r: Option<SoundChoice>)
        requires
            click_answerable(old(self).resources.sounds, x as int, y as int),
        ensures
            game_click_rel(*old(self), *final(self), x as int, y as int, r),
    {
        let object = get_clicked_object(x, y);

        match object {
            Some(GameObject::Fire) => {
                self.add_wood();
                let index = play_random(&self.resources.sounds.firewood);
                Some(SoundChoice { group: SoundGroup::Firewood, index })
            },
            Some(GameObject::Man1) => {
                let index = play_random(&self.resources.sounds.man1);
                Some(SoundChoice { group: SoundGroup::Man1, index })
            },
            Some(GameObject::Man2) => {
                let index = play_random(&self.resources.sounds.guitar);
                Some(SoundChoice { group: SoundGroup::Guitar, index })
            },
            Some(GameObject::Girl1) => {
                let index = play_random(&self.resources.sounds.girl1);
                Some(SoundChoice { group: SoundGroup::Girl1, index })
            },
            Some(GameObject::Girl2) => {
                let index = play_random(&self.resources.sounds.girl2);
                Some(SoundChoice { group: SoundGroup::Girl2, index })
            },
            Some(GameObject::Owl1) | Some(GameObject::Owl2) | Some(GameObject::Owl3) => {
                let index = play_random(&self.resources.sounds.owl);
                Some(SoundChoice { group: SoundGroup::Owl, index })
            },
            None => None,
        }
    }

    /// Handle the release of a mouse button anywhere: on the menu it starts
    /// a game, on an end screen it returns to the menu, and during a game it
    /// is a game click.
    pub fn mouse_button_up(&mut self, x: i64, y: i64) -> (r: Option<SoundChoice>)
        requires
            old(self).scene == Scene::Game ==> click_answerable(
                old(self).resources.sounds,
                x as int,
                y as int,
            ),
        ensures
            match old(self).scene {
                Scene::Menu => {
                    &&& final(self).scene == Scene::Game
                    &&& final(self).delayed_start_after == STORY_DELAY
                    &&& final(self).fire_intensity == FIRE_STARTING_INTENSITY
                    &&& final(self).fire_drop_off == -FIRE_DROP_OFF_RATE
                    &&& final(self).wood_increase == WOOD_INCREASE
                    &&& final(self).story_id == 0
                    &&& !final(self).story_in_progress
                    &&& final(self).resources.story == old(self).resources.story
                    &&& final(self).resources.sounds == old(self).resources.sounds
                    &&& final(self).resources.static_animations.animation_id
                        == STARTING_ANIMATION
                    &&& all_reset(
                        old(self).resources.static_animations.animations@,
                        final(self).resources.static_animations.animations@,
                    )
                    &&& r is None
                },
                Scene::EndScreenFail | Scene::EndScreenSuccess => {
                    &&& *final(self) == (MainState {
                        scene: Scene::Menu,
                        delayed_start_after: STORY_DELAY,
                        ..*old(self)
                    })
                    &&& r is None
                },
                Scene::Game => game_click_rel(*old(self), *final(self), x as int, y as int, r),
            },
    {
        match self.scene {
            Scene::Menu => {
                self.delayed_start_after = STORY_DELAY;
                self.scene = Scene::Game;
                self.reset_game();
                None
            },
            Scene::EndScreenFail | Scene::EndScreenSuccess => {
                self.delayed_start_after = STORY_DELAY;
                self.scene = Scene::Menu;
                None
            },
            Scene::Game => self.handle_game_click(x, y),
        }
    }

    /// Handle a key press: a first Escape on the menu quits, anywhere else
    /// it returns to the menu; repeats and other keys do nothing.
    pub fn key_down(&mut self, escape: bool, repeat: bool) -> (quit: bool)
        ensures
            quit == (escape && !repeat && old(self).scene == Scene::Menu),
            final(self).scene == (if escape && !repeat && old(self).scene != Scene::Menu {
                Scene::Menu
            } else {
                old(self).scene
            }),
            *final(self) == (MainState { scene: final(self).scene, ..*old(self) }),
    {
        if !repeat && escape {
            if self.scene == Scene::Menu {
                true
            } else {
                self.scene = Scene::Menu;
                false
            }
        } else {
            false
        }
    }

    /// What to draw for the current state.
    pub fn draw_plan(&self) -> (p: DrawPlan)
        requires
            (self.scene == Scene::Game && self.delayed_start_after < 0 && self.story_in_progress)
                ==> self.story_id < self.resources.story.fragments@.len(),
        ensures
            p == draw_plan_spec(*self),
            p matches DrawPlan::Game { story_image: Some(i), .. } ==> i
                < self.resources.story.fragments@.len(),
    {
        match self.scene {
            Scene::Menu => DrawPlan::Menu,
            Scene::Game => {
                if self.delayed_start_after < 0 {
                    if self.story_in_progress {
                        DrawPlan::Game { story_image: Some(self.story_id), empty_text: false }
                    } else {
                        DrawPlan::Game { story_image: None, empty_text: true }
                    }
                } else {
                    DrawPlan::Game { story_image: None, empty_text: false }
                }
            },
            Scene::EndScreenFail => DrawPlan::EndScreenFail,
            Scene::EndScreenSuccess => DrawPlan::EndScreenSuccess,
        }
    }
}

} // verus!
