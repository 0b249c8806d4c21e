use ember_story::assets::sounds::Sounds;
use ember_story::assets::story::StoryFragments;
use ember_story::resources::AnimationId;
use ember_story::resources::Animations;
use ember_story::resources::AnimationsDto;
use ember_story::resources::Resources;
use ember_story::state::DrawPlan;
use ember_story::state::MainState;
use ember_story::state::Scene;
use ember_story::state::SoundGroup;

fn resources() -> Resources {
    Resources {
        static_animations: Animations::load(AnimationsDto { animations: vec![] })
            .expect("an empty animation list is sound"),
        story: StoryFragments::load(),
        sounds: Sounds::load(),
    }
}

fn fresh_game() -> MainState {
    let mut state = MainState::new(resources());
    // A click on the menu starts the game.
    let sound = state.mouse_button_up(0, 0);
    assert!(sound.is_none());
    state
}

#[test]
fn new_session_starts_on_the_menu() {
    let state = MainState::new(resources());
    assert_eq!(state.scene, Scene::Menu);
    assert_eq!(state.fire_intensity, 0);
    assert_eq!(state.story_id, 0);
    assert!(!state.story_in_progress);
    assert_eq!(state.delayed_start_after, 3000);
}

#[test]
fn menu_click_begins_a_game() {
    let state = fresh_game();
    assert_eq!(state.scene, Scene::Game);
    assert_eq!(state.fire_intensity, 600);
    assert_eq!(state.fire_drop_off, -30);
    assert_eq!(state.wood_increase, 200);
    assert_eq!(state.delayed_start_after, 3000);
    assert_eq!(
        state.resources.static_animations.animation_id,
        AnimationId::BurnMedium
    );
}

#[test]
fn burn_level_decays_to_low() {
    // From 0.60 at 0.03/s, ten seconds leave 0.30, which classifies low.
    let mut state = fresh_game();
    let started = state.update_logic(10_000, false);
    assert!(started.is_none());
    assert_eq!(state.fire_intensity, 300);
    assert_eq!(
        state.resources.static_animations.animation_id,
        AnimationId::BurnLow
    );
    assert_eq!(state.scene, Scene::Game);
    // The opening delay ran out meanwhile.
    assert_eq!(state.delayed_start_after, -7000);
}

#[test]
fn fire_out_loses_the_game() {
    let mut state = fresh_game();
    // 600 thousandths at 30 per second: gone within 21 seconds.
    let started = state.update_logic(21_000, false);
    assert!(started.is_none());
    assert_eq!(state.fire_intensity, -30);
    assert_eq!(state.scene, Scene::EndScreenFail);
}

#[test]
fn story_advances_fragment_by_fragment() {
    let mut state = fresh_game();
    // Let the opening delay pass; add wood so the fire survives.
    state.add_wood();
    assert!(state.update_logic(4_000, false).is_none());
    assert!(state.delayed_start_after < 0);

    // The next tick starts fragment 0.
    assert_eq!(state.update_logic(0, false), Some(0));
    assert!(state.story_in_progress);
    assert_eq!(state.story_id, 0);

    // While it plays nothing moves.
    assert_eq!(state.update_logic(0, true), None);
    assert!(state.story_in_progress);

    // When it ends the story moves on.
    assert_eq!(state.update_logic(0, false), None);
    assert!(!state.story_in_progress);
    assert_eq!(state.story_id, 1);
    assert_eq!(state.scene, Scene::Game);

    // And the next tick starts fragment 1.
    assert_eq!(state.update_logic(0, false), Some(1));
}

#[test]
fn finishing_the_story_wins() {
    let mut state = fresh_game();
    state.delayed_start_after = -1;
    state.story_id = 41;
    state.story_in_progress = true;
    assert_eq!(state.update_logic(0, false), None);
    assert_eq!(state.story_id, 42);
    assert_eq!(state.scene, Scene::EndScreenSuccess);
}

#[test]
fn add_wood_feeds_the_fire() {
    let mut state = fresh_game();
    state.add_wood();
    assert_eq!(state.fire_intensity, 800);
}

#[test]
fn clicking_the_fire_throws_wood_on() {
    let mut state = fresh_game();
    let sound = state
        .mouse_button_up(600_000, 670_000)
        .expect("the fire was hit");
    assert_eq!(sound.group, SoundGroup::Firewood);
    assert!(sound.index < 4);
    assert_eq!(state.fire_intensity, 800);
}

#[test]
fn clicking_an_owl_hoots_without_feeding_the_fire() {
    let mut state = fresh_game();
    let sound = state
        .mouse_button_up(100_000, 270_000)
        .expect("the owl was hit");
    assert_eq!(sound.group, SoundGroup::Owl);
    assert!(sound.index < 4);
    assert_eq!(state.fire_intensity, 600);
}

#[test]
fn clicking_the_characters_answers_in_kind() {
    let mut state = fresh_game();
    let man1 = state.mouse_button_up(400_000, 500_000).expect("man one");
    assert_eq!(man1.group, SoundGroup::Man1);
    let guitar = state.mouse_button_up(950_000, 600_000).expect("man two");
    assert_eq!(guitar.group, SoundGroup::Guitar);
    let girl1 = state.mouse_button_up(200_000, 600_000).expect("girl one");
    assert_eq!(girl1.group, SoundGroup::Girl1);
    assert_eq!(girl1.index, 0);
    let girl2 = state.mouse_button_up(800_000, 500_000).expect("girl two");
    assert_eq!(girl2.group, SoundGroup::Girl2);
    assert_eq!(girl2.index, 0);
}

#[test]
fn a_missed_click_does_nothing() {
    let mut state = fresh_game();
    assert!(state.mouse_button_up(0, 0).is_none());
    assert_eq!(state.fire_intensity, 600);
    assert_eq!(state.scene, Scene::Game);
}

#[test]
fn end_screens_return_to_the_menu() {
    let mut state = fresh_game();
    state.update_logic(30_000, false);
    assert_eq!(state.scene, Scene::EndScreenFail);
    assert!(state.mouse_button_up(640_000, 400_000).is_none());
    assert_eq!(state.scene, Scene::Menu);
    assert_eq!(state.delayed_start_after, 3000);
}

#[test]
fn escape_leaves_for_the_menu_then_quits() {
    let mut state = fresh_game();
    assert!(!state.key_down(true, false));
    assert_eq!(state.scene, Scene::Menu);
    assert!(state.key_down(true, false));
    // A held key repeating does nothing.
    assert!(!state.key_down(true, true));
    assert_eq!(state.scene, Scene::Menu);
    // Other keys do nothing.
    assert!(!state.key_down(false, false));
}

#[test]
fn draw_plan_follows_the_scene() {
    let mut state = MainState::new(resources());
    assert_eq!(state.draw_plan(), DrawPlan::Menu);

    state.mouse_button_up(0, 0);
    assert_eq!(
        state.draw_plan(),
        DrawPlan::Game { story_image: None, empty_text: false }
    );

    state.update_logic(4_000, false);
    assert_eq!(
        state.draw_plan(),
        DrawPlan::Game { story_image: None, empty_text: true }
    );

    state.update_logic(0, false);
    assert_eq!(
        state.draw_plan(),
        DrawPlan::Game { story_image: Some(0), empty_text: false }
    );
}
