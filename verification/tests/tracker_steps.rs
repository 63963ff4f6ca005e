use sonolil::tracker::{
    default_traits, tracker_step, update_tracker_step, RotationStep, ScaleStep, TrackerStep,
    TransformGap, TranslationStep, DEFAULT_SNAP_FRAMES,
};
use sonolil::tracker_traits::TrackerTraits;

fn all_far() -> TransformGap {
    TransformGap { translation: true, scale: true, rotation: true }
}

fn all_close() -> TransformGap {
    TransformGap { translation: false, scale: false, rotation: false }
}

#[test]
fn snapping_copies_followed_parts_and_counts_down() {
    let step = tracker_step(default_traits(), 2, all_far(), None);
    assert_eq!(
        step,
        TrackerStep {
            translation: TranslationStep::SetToTarget,
            rotation: RotationStep::SetToTarget,
            scale: ScaleStep::Keep,
            snap: 1,
        }
    );
    let step = tracker_step(default_traits(), step.snap, all_far(), Some(true));
    assert_eq!(step.snap, 0);
    assert_eq!(step.translation, TranslationStep::SetToTarget);
}

#[test]
fn snapping_skips_close_parts() {
    let gap = TransformGap { translation: false, scale: true, rotation: true };
    let step = tracker_step(TrackerTraits(7), 1, gap, None);
    assert_eq!(step.translation, TranslationStep::Keep);
    assert_eq!(step.rotation, RotationStep::SetToTarget);
    assert_eq!(step.scale, ScaleStep::SetToTarget);
    assert_eq!(step.snap, 0);
}

#[test]
fn settled_tracker_leaves_everything() {
    let step = tracker_step(TrackerTraits(7), 0, all_close(), None);
    assert_eq!(
        step,
        TrackerStep {
            translation: TranslationStep::Keep,
            rotation: RotationStep::Keep,
            scale: ScaleStep::Keep,
            snap: 0,
        }
    );
}

#[test]
fn easing_without_orbiter() {
    let step = tracker_step(TrackerTraits(7), 0, all_far(), None);
    assert_eq!(step.translation, TranslationStep::Lerp);
    assert_eq!(step.rotation, RotationStep::Slerp);
    assert_eq!(step.scale, ScaleStep::Lerp);
    assert_eq!(step.snap, 0);
}

#[test]
fn easing_with_orbiter() {
    let step = tracker_step(default_traits(), 0, all_far(), Some(true));
    assert_eq!(step.translation, TranslationStep::ArcAroundFocal);
    assert_eq!(step.rotation, RotationStep::LookAtFocal);
    assert_eq!(step.scale, ScaleStep::Keep);
    let step = tracker_step(default_traits(), 0, all_far(), Some(false));
    assert_eq!(step.rotation, RotationStep::Keep);
}

#[test]
fn unmoved_parts_are_copied_while_easing() {
    // Only the rotation moves; the translation is then copied from the target.
    let gap = TransformGap { translation: false, scale: false, rotation: true };
    let step = tracker_step(default_traits(), 0, gap, None);
    assert_eq!(step.translation, TranslationStep::SetToTarget);
    assert_eq!(step.rotation, RotationStep::Slerp);
    assert_eq!(step.scale, ScaleStep::Keep);
    // Only the translation moves; the rotation is copied from the target.
    let gap = TransformGap { translation: true, scale: false, rotation: false };
    let step = tracker_step(TrackerTraits::translate(), 0, gap, None);
    assert_eq!(step.translation, TranslationStep::Lerp);
    assert_eq!(step.rotation, RotationStep::SetToTarget);
}

#[test]
fn unfollowed_scale_is_never_eased() {
    let step = tracker_step(default_traits(), 0, all_far(), None);
    assert_eq!(step.scale, ScaleStep::Keep);
    let step = tracker_step(default_traits(), 3, all_far(), None);
    assert_eq!(step.scale, ScaleStep::Keep);
}

#[test]
fn empty_traits_skip_the_tracker() {
    assert_eq!(update_tracker_step(TrackerTraits::none(), 2, all_far(), None), None);
    assert_eq!(
        update_tracker_step(default_traits(), 2, all_far(), None),
        Some(tracker_step(default_traits(), 2, all_far(), None))
    );
}

#[test]
fn snap_runs_out_after_its_frames() {
    let mut snap = DEFAULT_SNAP_FRAMES;
    let mut copied = 0;
    for _ in 0..5 {
        let step = tracker_step(default_traits(), snap, all_far(), None);
        if step.translation == TranslationStep::SetToTarget {
            copied += 1;
        }
        snap = step.snap;
    }
    assert_eq!(copied, 2);
    assert_eq!(snap, 0);
}

#[test]
fn default_traits_follow_translation_and_rotation() {
    let t = default_traits();
    assert_eq!(t, TrackerTraits(3));
    assert!(t.contains(TrackerTraits::translate()));
    assert!(t.contains(TrackerTraits::rotate()));
    assert!(!t.intersects(TrackerTraits::scale()));
}
