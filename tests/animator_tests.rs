use blazen::animator::{AnimationManager, Animator, Spin, Transformation};
use blazen::card::CardView;
use blazen::gfx::{DrawIndex, Framebuffer};
use blazen::linalg::ONE;
use blazen::raster::{Texture, TextureColors, CARD_UV0, CARD_UV1};

#[test]
fn animator_rotates_and_completes() {
    let mut a = Animator::new(Transformation::Rotation { start: 0, end: 90 * ONE }, 10);
    let mut s = Spin { rotation: -1 };
    a.update(&mut s, 5);
    assert_eq!(s.rotation, 45 * ONE);
    assert!(!a.is_complete());
    a.update(&mut s, 5);
    assert_eq!(s.rotation, 90 * ONE);
    assert!(a.is_complete());
    // A complete animator leaves the target alone.
    s.rotation = 7;
    a.update(&mut s, 5);
    assert_eq!(s.rotation, 7);
    assert_eq!(a.elapsed, 10);
    let mut z = Animator::new(Transformation::Rotation { start: ONE, end: 2 * ONE }, 0);
    z.update(&mut s, 0);
    assert_eq!(s.rotation, 2 * ONE);
    assert!(z.is_complete());
}

#[test]
fn manager_drops_finished_animations() {
    let mut m = AnimationManager::new();
    for d in [3u32, 10, 1, 7] {
        assert!(m.add(Animator::new(Transformation::Rotation { start: 0, end: ONE }, d)).is_ok());
    }
    let mut s = Spin { rotation: -1 };
    // The 1-frame animation is handed the target last and ends there.
    m.update(&mut s, 3);
    assert_eq!(s.rotation, ONE);
    // The 7-frame and 10-frame ones remain, 3 frames in; the 10-frame one goes last.
    m.update(&mut s, 0);
    assert_eq!(s.rotation, 3 * ONE / 10);
    for _ in 0..7 {
        m.update(&mut s, 1);
    }
    assert_eq!(s.rotation, ONE);
    // With every animation gone the target keeps its rotation.
    s.rotation = 5;
    m.update(&mut s, 1);
    assert_eq!(s.rotation, 5);
}

#[test]
fn manager_capacity_is_surfaced() {
    let mut m = AnimationManager::new();
    for _ in 0..8 {
        assert!(m.add(Animator::new(Transformation::Rotation { start: 0, end: ONE }, 5)).is_ok());
    }
    let extra = Animator::new(Transformation::Rotation { start: 0, end: 2 * ONE }, 5);
    assert_eq!(m.add(extra), Err(extra));
}

#[test]
fn card_view_draws_two_halves() {
    let colors = TextureColors::OneBpp([DrawIndex::Third, DrawIndex::Second]);
    let view = CardView::new(
        [Texture { uv: CARD_UV0, colors }, Texture { uv: CARD_UV1, colors }],
        [[10, 10], [40, 10], [40, 50], [10, 50]],
    );
    let texels = vec![0u8; 600];
    let mut fb = Framebuffer::new();
    view.render(&texels, &mut fb);
    assert_eq!(fb.color_at(12, 12), Some(2));
    assert_eq!(fb.color_at(38, 48), Some(2));
    assert_eq!(fb.color_at(5, 5), Some(0));
}
