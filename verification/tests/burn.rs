use ember_story::burn::classify;
use ember_story::resources::AnimationId;

fn rank(id: AnimationId) -> u32 {
    match id {
        AnimationId::BurnLow => 0,
        AnimationId::BurnMedium => 1,
        AnimationId::BurnHigh => 2,
    }
}

#[test]
fn classify_endpoints() {
    assert_eq!(classify(0), AnimationId::BurnLow);
    assert_eq!(classify(990), AnimationId::BurnHigh);
}

#[test]
fn classify_is_monotonic() {
    let mut previous = classify(-100);
    let mut level: i64 = -99;
    while level <= 1100 {
        let current = classify(level);
        assert!(rank(previous) <= rank(current));
        previous = current;
        level += 1;
    }
}

#[test]
fn classify_cutoffs_are_strict() {
    // A level exactly at a cutoff falls into the stage above it.
    assert_eq!(classify(329), AnimationId::BurnLow);
    assert_eq!(classify(330), AnimationId::BurnMedium);
    assert_eq!(classify(659), AnimationId::BurnMedium);
    assert_eq!(classify(660), AnimationId::BurnHigh);
}

#[test]
fn classify_is_total() {
    assert_eq!(classify(-1), AnimationId::BurnLow);
    assert_eq!(classify(i64::MIN), AnimationId::BurnLow);
    assert_eq!(classify(i64::MAX), AnimationId::BurnHigh);
}
