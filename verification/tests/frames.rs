use ember_story::frames::AnimationFrames;
use ember_story::frames::Grid;
use ember_story::frames::frame_source_rect;
use ember_story::frames::select_frame;

fn table(input: Vec<u64>, output: Vec<u32>) -> AnimationFrames {
    AnimationFrames { input, output }
}

#[test]
fn select_frame_scenario() {
    // 1.3 s into a table with offsets at 0, 0.5 and 1.0 s reduces to 0.3 s,
    // which selects the first frame.
    let t = table(vec![0, 500, 1000], vec![0, 1, 2]);
    assert_eq!(select_frame(&t, 1300), 0);
}

#[test]
fn select_frame_at_zero_returns_first_frame() {
    let t = table(vec![0, 500, 1000], vec![7, 1, 2]);
    assert_eq!(select_frame(&t, 0), 7);
}

#[test]
fn select_frame_is_periodic() {
    let t = table(vec![0, 500, 1000], vec![0, 1, 2]);
    for elapsed in 1..=2000u64 {
        assert_eq!(select_frame(&t, elapsed), select_frame(&t, elapsed + 1000));
    }
}

#[test]
fn select_frame_midway() {
    let t = table(vec![0, 500, 1000], vec![0, 1, 2]);
    assert_eq!(select_frame(&t, 700), 1);
    // An offset qualifies only strictly below the elapsed time.
    assert_eq!(select_frame(&t, 500), 0);
    assert_eq!(select_frame(&t, 501), 1);
    // A multiple of the period reduces to the period itself, not to zero.
    assert_eq!(select_frame(&t, 1000), 1);
    assert_eq!(select_frame(&t, 2000), 1);
}

#[test]
fn select_frame_single_entry() {
    let t = table(vec![800], vec![5]);
    assert_eq!(select_frame(&t, 0), 5);
    assert_eq!(select_frame(&t, 799), 5);
    assert_eq!(select_frame(&t, 800), 5);
    assert_eq!(select_frame(&t, 12345), 5);
}

#[test]
fn frame_rect_walks_the_grid() {
    let grid = Grid {
        texture_width: 1024,
        texture_height: 768,
        columns: 8,
        rows: 6,
        cell_size: (128, 128),
    };
    let rect = frame_source_rect(&grid, 10);
    assert_eq!(rect.x, 256);
    assert_eq!(rect.y, 128);
    assert_eq!(rect.w, 128);
    assert_eq!(rect.h, 128);

    let first = frame_source_rect(&grid, 0);
    assert_eq!((first.x, first.y), (0, 0));

    let last = frame_source_rect(&grid, 47);
    assert_eq!((last.x, last.y), (896, 640));
}
