//! The click-sound catalogue, and the random pick among a group.
//!
//! Each clickable object answers with one sound out of a small numbered
//! group of files; the pick is uniform at random.  The catalogue holds each
//! group's file paths and playback volume; decoding and playing the files
//! is the host's business.

use vstd::prelude::*;

use crate::assets::paths::push_two_digits;
use crate::assets::paths::two_digits;
use crate::constants::FIREWOOD_THROW_VOLUME;
use crate::constants::GIRL1_VOLUME;
use crate::constants::GIRL2_VOLUME;
use crate::constants::GUITAR_VOLUME;
use crate::constants::MAN_VOLUME;
use crate::constants::OWL_VOLUME;

verus! {

const FIREWOOD_COUNT: usize = 4;

const OWL_COUNT: usize = 4;

const GUITAR_COUNT: usize = 3;

const MAN1_COUNT: usize = 3;

const GIRL1_COUNT: usize = 1;

const GIRL2_COUNT: usize = 1;

/// One playable sound file: its path and its volume in thousandths.
pub struct SoundCue {
    pub path: String,
    pub volume: u32,
}

/// The path of the sound numbered `index` in a group: the group's directory
/// prefix, a two-digit index, and the `.ogg` ending.
pub open spec fn cue_path(prefix: Seq<char>, index: int) -> Seq<char> {
    prefix + two_digits(index) + ".ogg"@
}

/// A complete group: `count` cues, numbered in order, all at one volume.
pub open spec fn group_wf(g: Seq<SoundCue>, count: int, prefix: Seq<char>, volume: int) -> bool {
    &&& g.len() == count
    &&& forall|i: int|
        0 <= i < g.len() ==> (#[trigger] g[i]).path@ == cue_path(prefix, i) && g[i].volume
            == volume
}

/// The click sounds of the scene, one numbered group per clickable object.
pub struct Sounds {
    pub firewood: Vec<SoundCue>,
    pub owl: Vec<SoundCue>,
    pub guitar: Vec<SoundCue>,
    pub man1: Vec<SoundCue>,
    pub girl1: Vec<SoundCue>,
    pub girl2: Vec<SoundCue>,
}

impl Sounds {
    /// The full catalogue: every group complete, numbered from zero, at its
    /// object's volume.
    pub open spec fn wf(&self) -> bool {
        &&& group_wf(self.firewood@, 4, "/audio/firewood/"@, FIREWOOD_THROW_VOLUME as int)
        &&& group_wf(self.owl@, 4, "/audio/owl/"@, OWL_VOLUME as int)
        &&& group_wf(self.guitar@, 3, "/audio/guitar/"@, GUITAR_VOLUME as int)
        &&& group_wf(self.man1@, 3, "/audio/man/"@, MAN_VOLUME as int)
        &&& group_wf(self.girl1@, 1, "/audio/girl1/"@, GIRL1_VOLUME as int)
        &&& group_wf(self.girl2@, 1, "/audio/girl2/"@, GIRL2_VOLUME as int)
    }

    /// No group is empty, so a random pick is always possible.
    pub open spec fn has_cues(&self) -> bool {
        &&& self.firewood@.len() > 0
        &&& self.owl@.len() > 0
        &&& self.guitar@.len() > 0
        &&& self.man1@.len() > 0
        &&& self.girl1@.len() > 0
        &&& self.girl2@.len() > 0
    }

    /// Build the catalogue of every click sound the scene plays.
    pub fn load() -> (s: Sounds)
        ensures
            s.wf(),
            s.has_cues(),
    {
        Sounds {
            firewood: load_group("/audio/firewood/", FIREWOOD_COUNT, FIREWOOD_THROW_VOLUME),
            owl: load_group("/audio/owl/", OWL_COUNT, OWL_VOLUME),
            guitar: load_group("/audio/guitar/", GUITAR_COUNT, GUITAR_VOLUME),
            man1: load_group("/audio/man/", MAN1_COUNT, MAN_VOLUME),
            girl1: load_group("/audio/girl1/", GIRL1_COUNT, GIRL1_VOLUME),
            girl2: load_group("/audio/girl2/", GIRL2_COUNT, GIRL2_VOLUME),
        }
    }
}

/// Build one numbered group of sound cues.
fn load_group(prefix: &str, count: usize, volume: u32) -> (g: Vec<SoundCue>)
    requires
        count < 100,
    ensures
        group_wf(g@, count as int, prefix@, volume as int),
{
    let mut g: Vec<SoundCue> = Vec::new();
    let mut i: usize = 0;
    while i < count
        invariant
            count < 100,
            g@.len() == i,
            0 <= i <= count,
            forall|j: int|
                0 <= j < i ==> (#[trigger] g@[j]).path@ == cue_path(prefix@, j) && g@[j].volume
                    == volume,
        decreases count - i,
    {
        let mut path = String::from_str(prefix);
        push_two_digits(&mut path, i);
        path.append(".ogg");
        assert(path@ =~= cue_path(prefix@, i as int));
        g.push(SoundCue { path, volume });
        i = i + 1;
    }
    g
}

/// Relies on rand::random_range: a uniform draw from the half-open range
/// `0..count` lies strictly below `count`; the range is non-empty, so the
/// call does not panic.
#[verifier::external_body]
fn random_below(count: usize) -> (r: usize)
    requires
        count > 0,
    ensures
        r < count,
{
    rand::random_range(0..count)
}

/// Pick which cue of a group to play, uniformly at random.  The caller
/// plays the cue at the returned position.
pub fn play_random(sounds: &Vec<SoundCue>) -> (index: usize)
    requires
        sounds@.len() > 0,
    ensures
        index < sounds@.len(),
{
    random_below(sounds.len())
}

} // verus!
