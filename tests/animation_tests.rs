use blazen::animation::{idle1, idle_for, AnimationState, NextAnimation};
use blazen::linalg::{Matrix, ONE};
use blazen::transform::{apply, Rotate, Scale, Transformation, Translate};
use blazen::util::Duration;

fn card_motion(now: u32) -> AnimationState {
    AnimationState::new(
        &[
            Transformation::Rotate(Rotate::new(0, 270 * ONE)),
            Transformation::Translate(Translate::new([0, 0], [100 * ONE, 100 * ONE])),
        ],
        Duration::from_frames(180),
        None,
        now,
    )
    .unwrap()
}

#[test]
fn card_rotation_and_translation_at_midpoint() {
    let a = card_motion(0);
    let m = a.update(90).unwrap();
    // 135 degrees: sin is 24300 / 34425 (about 0.7059, the sine being 0.7071).
    let s = 24300 * ONE / 34425;
    let c = -s;
    let expected = Matrix {
        m00: c,
        m01: -s,
        m02: 0,
        m10: s,
        m11: c,
        m12: 0,
        m20: 50 * ONE,
        m21: 50 * ONE,
        m22: ONE,
    };
    assert_eq!(m, expected);
}

#[test]
fn update_matches_fold_at_fraction() {
    let ops = [
        Transformation::Scale(Scale::new([ONE, ONE], [2 * ONE, 3 * ONE])),
        Transformation::Translate(Translate::new([0, 0], [40 * ONE, -20 * ONE])),
    ];
    let a = AnimationState::new(&ops, Duration::from_frames(40), None, 100).unwrap();
    for k in 0..=40u32 {
        let t = (k as i64 * ONE) / 40;
        assert_eq!(a.update(100 + k), apply(&ops, t));
    }
    // Past the end the matrix stays at progress 1.
    assert_eq!(a.update(1000), apply(&ops, ONE));
    // Before the start it is at progress 0.
    assert_eq!(a.update(50), apply(&ops, 0));
}

#[test]
fn progress_and_finished() {
    let a = card_motion(10);
    assert_eq!(a.progress(10), 0);
    assert_eq!(a.progress(100), ONE / 2);
    assert_eq!(a.progress(190), ONE);
    assert!(!a.finished(189));
    assert!(a.finished(190));
}

#[test]
fn zero_duration_snaps_to_end() {
    let ops = [Transformation::Translate(Translate::new([0, 0], [ONE, ONE]))];
    let a = AnimationState::new(&ops, Duration::from_frames(0), None, 5).unwrap();
    assert_eq!(a.progress(5), ONE);
    assert!(a.finished(5));
}

#[test]
fn too_many_transformations_is_refused() {
    let op = Transformation::Rotate(Rotate::new(0, ONE));
    assert!(AnimationState::new(&[op, op, op, op], Duration::from_frames(1), None, 0).is_some());
    assert!(AnimationState::new(&[op, op, op, op, op], Duration::from_frames(1), None, 0).is_none());
}

#[test]
fn chained_next_is_fresh_each_time() {
    let a = idle1(0);
    assert_eq!(a.next, Some(NextAnimation::Idle2));
    assert!(a.finished(60));
    let b = a.get_next(75).unwrap();
    let c = a.get_next(75).unwrap();
    assert_eq!(b.start, 75);
    assert_eq!(c.start, 75);
    assert_eq!(b.progress(75), 0);
    assert_eq!(c.progress(75), 0);
    assert_eq!(b.next, Some(NextAnimation::Idle3));
    assert_eq!(b.update(80), c.update(80));
    assert_eq!(b.update(75), NextAnimation::Idle2.build(75).update(75));
    let none = card_motion(0);
    assert!(none.get_next(500).is_none());
}

#[test]
fn idle_rotation_at_start() {
    let a = idle1(0);
    // Rotate 5 degrees then translate by (-1, 1).
    let m = a.update(0).unwrap();
    assert_eq!(m.m20, -ONE);
    assert_eq!(m.m21, ONE);
    assert_eq!(m.m22, ONE);
}

#[test]
fn random_idle_picks_by_remainder() {
    assert_eq!(idle_for(0), NextAnimation::Idle1);
    assert_eq!(idle_for(5), NextAnimation::Idle2);
    assert_eq!(idle_for(10), NextAnimation::Idle3);
    assert_eq!(idle_for(u32::MAX), NextAnimation::Idle4);
}
