use ember_story::frames::AnimationFrames;
use ember_story::frames::Grid;
use ember_story::resources::Animation;
use ember_story::resources::AnimationDto;
use ember_story::resources::AnimationId;
use ember_story::resources::Animations;
use ember_story::resources::AnimationsDto;
use ember_story::resources::ConfigError;

fn good_grid() -> Grid {
    Grid {
        texture_width: 1024,
        texture_height: 768,
        columns: 8,
        rows: 6,
        cell_size: (128, 128),
    }
}

fn good_table() -> AnimationFrames {
    AnimationFrames {
        input: vec![0, 500, 1000],
        output: vec![0, 1, 2],
    }
}

fn dto(grid: Grid, set: Vec<(AnimationId, AnimationFrames)>) -> AnimationDto {
    AnimationDto {
        texture: String::from("/fire.png"),
        sprites_grid: grid,
        animation_set: set,
        destination: (100_000, 200_000),
    }
}

#[test]
fn load_accepts_a_sound_configuration() {
    let a = Animation::load(dto(good_grid(), vec![(AnimationId::BurnLow, good_table())]))
        .expect("sound configuration");
    assert_eq!(a.texture, "/fire.png");
    assert_eq!(a.destination, (100_000, 200_000));
    assert!(!a.animated);
    assert_eq!(a.start_time, 0);
    // Until the first step the whole texture shows.
    assert_eq!((a.source.x, a.source.y, a.source.w, a.source.h), (0, 0, 1024, 768));
}

#[test]
fn load_rejects_a_bad_grid() {
    let mut grid = good_grid();
    grid.columns = 0;
    let r = Animation::load(dto(grid, vec![(AnimationId::BurnLow, good_table())]));
    assert_eq!(r.unwrap_err(), ConfigError::BadGrid);
}

#[test]
fn load_rejects_an_empty_table() {
    let t = AnimationFrames { input: vec![], output: vec![] };
    let r = Animation::load(dto(good_grid(), vec![(AnimationId::BurnLow, t)]));
    assert_eq!(r.unwrap_err(), ConfigError::EmptyTable);
}

#[test]
fn load_rejects_mismatched_lengths() {
    let t = AnimationFrames { input: vec![0, 500], output: vec![0] };
    let r = Animation::load(dto(good_grid(), vec![(AnimationId::BurnLow, t)]));
    assert_eq!(r.unwrap_err(), ConfigError::LengthMismatch);
}

#[test]
fn load_rejects_unsorted_offsets() {
    let t = AnimationFrames { input: vec![0, 500, 500], output: vec![0, 1, 2] };
    let r = Animation::load(dto(good_grid(), vec![(AnimationId::BurnLow, t)]));
    assert_eq!(r.unwrap_err(), ConfigError::NotIncreasing);
}

#[test]
fn load_rejects_a_zero_period() {
    let t = AnimationFrames { input: vec![0], output: vec![0] };
    let r = Animation::load(dto(good_grid(), vec![(AnimationId::BurnLow, t)]));
    assert_eq!(r.unwrap_err(), ConfigError::ZeroPeriod);
}

#[test]
fn load_rejects_a_frame_outside_the_grid() {
    let t = AnimationFrames { input: vec![0, 500], output: vec![0, 48] };
    let r = Animation::load(dto(good_grid(), vec![(AnimationId::BurnLow, t)]));
    assert_eq!(r.unwrap_err(), ConfigError::FrameOutOfRange);
}

#[test]
fn load_rejects_a_duplicated_stage() {
    let r = Animation::load(dto(
        good_grid(),
        vec![
            (AnimationId::BurnLow, good_table()),
            (AnimationId::BurnLow, good_table()),
        ],
    ));
    assert_eq!(r.unwrap_err(), ConfigError::DuplicateAnimation);
}

#[test]
fn animations_load_reports_the_first_fault() {
    let mut bad_grid = good_grid();
    bad_grid.rows = 0;
    let r = Animations::load(AnimationsDto {
        animations: vec![
            dto(good_grid(), vec![(AnimationId::BurnLow, good_table())]),
            dto(bad_grid, vec![(AnimationId::BurnLow, good_table())]),
        ],
    });
    assert_eq!(r.unwrap_err(), ConfigError::BadGrid);
}

#[test]
fn animations_load_starts_low() {
    let a = Animations::load(AnimationsDto {
        animations: vec![dto(good_grid(), vec![(AnimationId::BurnMedium, good_table())])],
    })
    .expect("sound configuration");
    assert_eq!(a.animation_id, AnimationId::BurnLow);
    assert_eq!(a.animations.len(), 1);
}

#[test]
fn draw_shows_nothing_until_animated() {
    let mut a = Animation::load(dto(
        good_grid(),
        vec![(AnimationId::BurnLow, good_table())],
    ))
    .expect("sound configuration");
    assert!(a.draw().is_none());

    a.animate(1000, AnimationId::BurnLow);
    let (source, dest) = a.draw().expect("playing animations draw");
    assert_eq!((source.x, source.y, source.w, source.h), (0, 0, 128, 128));
    assert_eq!(dest, (100_000, 200_000));

    a.reset();
    assert!(a.draw().is_none());
}

#[test]
fn animations_draw_lists_every_sprite() {
    let mut all = Animations::load(AnimationsDto {
        animations: vec![
            dto(good_grid(), vec![(AnimationId::BurnLow, good_table())]),
            dto(good_grid(), vec![(AnimationId::BurnMedium, good_table())]),
        ],
    })
    .expect("sound configuration");

    assert_eq!(all.draw(), vec![None, None]);

    // Stepping at the low stage starts only the animation that has a low
    // table.
    all.animate(1000);
    let drawn = all.draw();
    assert!(drawn[0].is_some());
    assert!(drawn[1].is_none());

    all.reset();
    assert_eq!(all.draw(), vec![None, None]);
}

#[test]
fn animate_starts_then_follows_the_clock() {
    let mut a = Animation::load(dto(
        good_grid(),
        vec![(AnimationId::BurnLow, good_table())],
    ))
    .expect("sound configuration");

    // The first step starts the clock and shows the table's first frame.
    a.animate(5000, AnimationId::BurnLow);
    assert!(a.animated);
    assert_eq!(a.start_time, 5000);
    assert_eq!((a.source.x, a.source.y), (0, 0));

    // 700 ms in, the second frame (frame index 1) shows: cell (1, 0).
    a.animate(5700, AnimationId::BurnLow);
    assert_eq!(a.start_time, 5000);
    assert_eq!((a.source.x, a.source.y), (128, 0));

    // A stage without a table changes nothing.
    let before = (a.source.x, a.source.y);
    a.animate(9999, AnimationId::BurnHigh);
    assert_eq!((a.source.x, a.source.y), before);

    // After a reset the next step restarts the clock.
    a.reset();
    assert!(!a.animated);
    a.animate(20_000, AnimationId::BurnLow);
    assert!(a.animated);
    assert_eq!(a.start_time, 20_000);
}
