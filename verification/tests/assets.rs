use ember_story::assets::sounds::Sounds;
use ember_story::assets::sounds::play_random;
use ember_story::assets::story::StoryFragments;
use ember_story::assets::text::TextFragments;

#[test]
fn sound_groups_are_numbered_and_levelled() {
    let sounds = Sounds::load();

    assert_eq!(sounds.firewood.len(), 4);
    assert_eq!(sounds.firewood[0].path, "/audio/firewood/00.ogg");
    assert_eq!(sounds.firewood[3].path, "/audio/firewood/03.ogg");
    assert_eq!(sounds.firewood[0].volume, 220);

    assert_eq!(sounds.owl.len(), 4);
    assert_eq!(sounds.owl[3].path, "/audio/owl/03.ogg");
    assert_eq!(sounds.owl[0].volume, 300);

    assert_eq!(sounds.guitar.len(), 3);
    assert_eq!(sounds.guitar[2].path, "/audio/guitar/02.ogg");
    assert_eq!(sounds.guitar[0].volume, 550);

    assert_eq!(sounds.man1.len(), 3);
    assert_eq!(sounds.man1[1].path, "/audio/man/01.ogg");
    assert_eq!(sounds.man1[0].volume, 280);

    assert_eq!(sounds.girl1.len(), 1);
    assert_eq!(sounds.girl1[0].path, "/audio/girl1/00.ogg");
    assert_eq!(sounds.girl1[0].volume, 360);

    assert_eq!(sounds.girl2.len(), 1);
    assert_eq!(sounds.girl2[0].path, "/audio/girl2/00.ogg");
    assert_eq!(sounds.girl2[0].volume, 360);
}

#[test]
fn story_fragments_pair_captions_with_narration() {
    let story = StoryFragments::load();
    assert_eq!(story.fragments.len(), 42);
    assert_eq!(story.fragments[0].0, "/story/text/text_0000.png");
    assert_eq!(story.fragments[0].1, "/story/audio/audio_0000.ogg");
    assert_eq!(story.fragments[41].0, "/story/text/text_0041.png");
    assert_eq!(story.fragments[41].1, "/story/audio/audio_0041.ogg");
    assert_eq!(story.fragments[7].1, "/story/audio/audio_0007.ogg");
}

#[test]
fn caption_images_are_numbered() {
    let text = TextFragments::load();
    assert_eq!(text.fragments.len(), 42);
    assert_eq!(text.fragments[0], "/text/text_0000.png");
    assert_eq!(text.fragments[7], "/text/text_0007.png");
    assert_eq!(text.fragments[41], "/text/text_0041.png");
}

#[test]
fn play_random_stays_in_the_group() {
    let sounds = Sounds::load();
    // One cue leaves no choice.
    assert_eq!(play_random(&sounds.girl1), 0);
    // Four cues: every draw lands inside the group.
    for _ in 0..200 {
        assert!(play_random(&sounds.firewood) < 4);
    }
}
