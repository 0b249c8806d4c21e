//! The numbered caption images on their own, without narration.

use vstd::prelude::*;

use crate::assets::paths::four_digits;
use crate::assets::paths::push_four_digits;

verus! {

pub const FRAGMENTS_NUMBER: usize = 42;

/// The path of caption image `index`.
pub open spec fn text_path(index: int) -> Seq<char> {
    "/text/text_"@ + four_digits(index) + ".png"@
}

/// The caption images, numbered in order.
pub struct TextFragments {
    pub fragments: Vec<String>,
}

impl TextFragments {
    /// All caption images present and numbered in order.
    pub open spec fn wf(&self) -> bool {
        &&& self.fragments@.len() == FRAGMENTS_NUMBER
        &&& forall|i: int|
            0 <= i < self.fragments@.len() ==> (#[trigger] self.fragments@[i])@ == text_path(i)
    }

    /// List the paths of every caption image, in order.
    pub fn load() -> (s: TextFragments)
        ensures
            s.wf(),
    {
        let mut fragments: Vec<String> = Vec::new();
        let mut i: usize = 0;
        while i < FRAGMENTS_NUMBER
            invariant
                fragments@.len() == i,
                0 <= i <= FRAGMENTS_NUMBER,
                forall|j: int| 0 <= j < i ==> (#[trigger] fragments@[j])@ == text_path(j),
            decreases FRAGMENTS_NUMBER - i,
        {
            let mut image = String::from_str("/text/text_");
            push_four_digits(&mut image, i);
            image.append(".png");
            assert(image@ =~= text_path(i as int));
            fragments.push(image);
            i = i + 1;
        }
        TextFragments { fragments }
    }
}

} // verus!
