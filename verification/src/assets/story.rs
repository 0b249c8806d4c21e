//! The numbered story fragments: one caption image and one narration track
//! apiece.

use vstd::prelude::*;

use crate::assets::paths::four_digits;
use crate::assets::paths::push_four_digits;

verus! {

pub const FRAGMENTS_NUMBER: usize = 42;

/// The caption image path of fragment `index`.
pub open spec fn story_image_path(index: int) -> Seq<char> {
    "/story/text/text_"@ + four_digits(index) + ".png"@
}

/// The narration audio path of fragment `index`.
pub open spec fn story_audio_path(index: int) -> Seq<char> {
    "/story/audio/audio_"@ + four_digits(index) + ".ogg"@
}

/// The story, fragment by fragment: each entry pairs a caption image path
/// with a narration audio path.
pub struct StoryFragments {
    pub fragments: Vec<(String, String)>,
}

impl StoryFragments {
    /// The whole story: all fragments present and numbered in order.
    pub open spec fn wf(&self) -> bool {
        &&& self.fragments@.len() == FRAGMENTS_NUMBER
        &&& forall|i: int|
            0 <= i < self.fragments@.len() ==> (#[trigger] self.fragments@[i]).0@
                == story_image_path(i) && self.fragments@[i].1@ == story_audio_path(i)
    }

    /// List the paths of every story fragment, in playing order.
    pub fn load() -> (s: StoryFragments)
        ensures
            s.wf(),
    {
        let mut fragments: Vec<(String, String)> = Vec::new();
        let mut i: usize = 0;
        while i < FRAGMENTS_NUMBER
            invariant
                fragments@.len() == i,
                0 <= i <= FRAGMENTS_NUMBER,
                forall|j: int|
                    0 <= j < i ==> (#[trigger] fragments@[j]).0@ == story_image_path(j)
                        && fragments@[j].1@ == story_audio_path(j),
            decreases FRAGMENTS_NUMBER - i,
        {
            let mut image = String::from_str("/story/text/text_");
            push_four_digits(&mut image, i);
            image.append(".png");
            assert(image@ =~= story_image_path(i as int));

            let mut audio = String::from_str("/story/audio/audio_");
            push_four_digits(&mut audio, i);
            audio.append(".ogg");
            assert(audio@ =~= story_audio_path(i as int));

            fragments.push((image, audio));
            i = i + 1;
        }
        StoryFragments { fragments }
    }
}

} // verus!
