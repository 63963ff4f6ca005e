//! What a tracker does to its transform in one frame.
//!
//! A tracker follows a cached target transform. For a few frames after it is
//! told to (its snap counter) it copies the target outright; afterwards it
//! eases towards it. The arithmetic of the easing is done by the caller; this
//! module decides, for each part of the transform, what happens to it.
use vstd::prelude::*;
use crate::flags::{bits_contain, bits_intersect};
use crate::tracker_traits::{TrackerTraits, TRANSLATE_BITS, ROTATE_BITS, SCALE_BITS};

verus! {

/// Frames a new tracker copies its target outright before it starts easing.
pub const DEFAULT_SNAP_FRAMES: u32 = 2;

/// Which parts of the transform stand far from the target: translation and
/// scale farther than a centimetre, rotation more than a tenth of a degree.
#[derive(Clone, Copy, Debug, PartialEq, Eq, Structural)]
pub struct TransformGap {
    pub translation: bool,
    pub scale: bool,
    pub rotation: bool,
}

/// What happens to the translation in one frame.
#[derive(Clone, Copy, Debug, PartialEq, Eq, Structural)]
pub enum TranslationStep {
    /// Left as it is.
    Keep,
    /// Copied from the target.
    SetToTarget,
    /// Eased in a straight line towards the target.
    Lerp,
    /// Eased along an arc round the orbiter's focal point, towards the
    /// orbiter's direction and radius.
    ArcAroundFocal,
}

/// What happens to the rotation in one frame.
#[derive(Clone, Copy, Debug, PartialEq, Eq, Structural)]
pub enum RotationStep {
    /// Left as it is.
    Keep,
    /// Copied from the target.
    SetToTarget,
    /// Eased (spherically) towards the target.
    Slerp,
    /// Turned to face the orbiter's focal point.
    LookAtFocal,
}

/// What happens to the scale in one frame.
#[derive(Clone, Copy, Debug, PartialEq, Eq, Structural)]
pub enum ScaleStep {
    /// Left as it is.
    Keep,
    /// Copied from the target.
    SetToTarget,
    /// Eased towards the target.
    Lerp,
}

/// The decision for one frame, and the snap counter after it.
#[derive(Clone, Copy, Debug, PartialEq, Eq, Structural)]
pub struct TrackerStep {
    pub translation: TranslationStep,
    pub rotation: RotationStep,
    pub scale: ScaleStep,
    pub snap: u32,
}

/// The tracker follows this part (`flag` is in `traits`) and the part stands
/// far from the target.
pub open spec fn moves(traits: u32, flag: u32, far: bool) -> bool {
    bits_contain(traits, flag) && far
}

/// The decision that `tracker_step` makes, stated over the flag bits.
pub open spec fn tracker_step_spec(
    traits: u32,
    snap: u32,
    gap: TransformGap,
    orbiter_look_at: Option<bool>,
) -> TrackerStep {
    let t = moves(traits, TRANSLATE_BITS, gap.translation);
    let s = moves(traits, SCALE_BITS, gap.scale);
    let r = moves(traits, ROTATE_BITS, gap.rotation);
    if snap > 0 {
        TrackerStep {
            translation: if t { TranslationStep::SetToTarget } else { TranslationStep::Keep },
            rotation: if r { RotationStep::SetToTarget } else { RotationStep::Keep },
            scale: if s { ScaleStep::SetToTarget } else { ScaleStep::Keep },
            snap: (snap - 1) as u32,
        }
    } else if !t && !s && !r {
        TrackerStep {
            translation: TranslationStep::Keep,
            rotation: RotationStep::Keep,
            scale: ScaleStep::Keep,
            snap: 0,
        }
    } else {
        TrackerStep {
            translation: if !t {
                TranslationStep::SetToTarget
            } else if orbiter_look_at is Some {
                TranslationStep::ArcAroundFocal
            } else {
                TranslationStep::Lerp
            },
            rotation: if !r {
                RotationStep::SetToTarget
            } else {
                match orbiter_look_at {
                    Some(true) => RotationStep::LookAtFocal,
                    Some(false) => RotationStep::Keep,
                    None => RotationStep::Slerp,
                }
            },
            scale: if s { ScaleStep::Lerp } else { ScaleStep::Keep },
            snap: 0,
        }
    }
}

/// Decides one frame of a tracker.
///
/// `traits` and `snap` are the tracker's; `gap` says which parts stand far
/// from the target; `orbiter_look_at` is `Some(look_at)` where the entity also
/// orbits a focal point, `None` where it does not.
///
/// While the snap counter is positive, each followed part that stands far is
/// copied from the target, and the counter drops by one. Afterwards, with no
/// followed part far, nothing moves. Otherwise the scale eases if it moves;
/// the translation eases (along an arc when orbiting) if it moves and is
/// copied from the target if not; the rotation slerps (or, when orbiting,
/// faces the focal point if the orbiter looks at it) if it moves and is
/// copied from the target if not.
pub fn tracker_step(
    traits: TrackerTraits,
    snap: u32,
    gap: TransformGap,
    orbiter_look_at: Option<bool>,
) -> (step: TrackerStep)
    ensures
        step == tracker_step_spec(traits@, snap, gap, orbiter_look_at),
        // Snap frames: a part is copied from the target exactly when it is
        // followed and far; otherwise it is kept. The orbiter plays no part.
        snap > 0 ==> (step.translation == TranslationStep::SetToTarget <==> (bits_contain(traits@, TRANSLATE_BITS) && gap.translation)),
        snap > 0 && !(bits_contain(traits@, TRANSLATE_BITS) && gap.translation) ==> step.translation == TranslationStep::Keep,
        snap > 0 ==> (step.rotation == RotationStep::SetToTarget <==> (bits_contain(traits@, ROTATE_BITS) && gap.rotation)),
        snap > 0 && !(bits_contain(traits@, ROTATE_BITS) && gap.rotation) ==> step.rotation == RotationStep::Keep,
        snap > 0 ==> (step.scale == ScaleStep::SetToTarget <==> (bits_contain(traits@, SCALE_BITS) && gap.scale)),
        snap > 0 && !(bits_contain(traits@, SCALE_BITS) && gap.scale) ==> step.scale == ScaleStep::Keep,
        snap > 0 ==> step.snap == snap - 1,
        // With the counter spent and nothing followed and far, all rests.
        snap == 0 && !(bits_contain(traits@, TRANSLATE_BITS) && gap.translation) && !(bits_contain(traits@, ROTATE_BITS) && gap.rotation) && !(bits_contain(traits@, SCALE_BITS) && gap.scale) ==> step.translation == TranslationStep::Keep
            && step.rotation == RotationStep::Keep && step.scale == ScaleStep::Keep,
        snap == 0 ==> step.snap == 0,
        // Easing frames (counter spent, some part followed and far).
        snap == 0 && (bits_contain(traits@, TRANSLATE_BITS) && gap.translation) && orbiter_look_at is Some ==> step.translation
            == TranslationStep::ArcAroundFocal,
        snap == 0 && (bits_contain(traits@, TRANSLATE_BITS) && gap.translation) && orbiter_look_at is None ==> step.translation == TranslationStep::Lerp,
        snap == 0 && !(bits_contain(traits@, TRANSLATE_BITS) && gap.translation) && ((bits_contain(traits@, ROTATE_BITS) && gap.rotation) || (bits_contain(traits@, SCALE_BITS) && gap.scale)) ==> step.translation == TranslationStep::SetToTarget,
        snap == 0 && (bits_contain(traits@, ROTATE_BITS) && gap.rotation) && orbiter_look_at == Some(true) ==> step.rotation
            == RotationStep::LookAtFocal,
        snap == 0 && (bits_contain(traits@, ROTATE_BITS) && gap.rotation) && orbiter_look_at == Some(false) ==> step.rotation == RotationStep::Keep,
        snap == 0 && (bits_contain(traits@, ROTATE_BITS) && gap.rotation) && orbiter_look_at is None ==> step.rotation == RotationStep::Slerp,
        snap == 0 && !(bits_contain(traits@, ROTATE_BITS) && gap.rotation) && ((bits_contain(traits@, TRANSLATE_BITS) && gap.translation) || (bits_contain(traits@, SCALE_BITS) && gap.scale)) ==> step.rotation == RotationStep::SetToTarget,
        snap == 0 && (bits_contain(traits@, SCALE_BITS) && gap.scale) ==> step.scale == ScaleStep::Lerp,
        snap == 0 && !(bits_contain(traits@, SCALE_BITS) && gap.scale) ==> step.scale == ScaleStep::Keep,
{
    let t = traits.contains(TrackerTraits::translate()) && gap.translation;
    let s = traits.contains(TrackerTraits::scale()) && gap.scale;
    let r = traits.contains(TrackerTraits::rotate()) && gap.rotation;

    if snap > 0 {
        return TrackerStep {
            translation: if t { TranslationStep::SetToTarget } else { TranslationStep::Keep },
            rotation: if r { RotationStep::SetToTarget } else { RotationStep::Keep },
            scale: if s { ScaleStep::SetToTarget } else { ScaleStep::Keep },
            snap: snap - 1,
        };
    }
    if !t && !s && !r {
        return TrackerStep {
            translation: TranslationStep::Keep,
            rotation: RotationStep::Keep,
            scale: ScaleStep::Keep,
            snap: 0,
        };
    }
    let scale = if s { ScaleStep::Lerp } else { ScaleStep::Keep };
    let translation = if !t {
        TranslationStep::SetToTarget
    } else {
        match orbiter_look_at {
            Some(_) => TranslationStep::ArcAroundFocal,
            None => TranslationStep::Lerp,
        }
    };
    let rotation = if !r {
        RotationStep::SetToTarget
    } else {
        match orbiter_look_at {
            Some(true) => RotationStep::LookAtFocal,
            Some(false) => RotationStep::Keep,
            None => RotationStep::Slerp,
        }
    };
    TrackerStep { translation, rotation, scale, snap: 0 }
}

/// Decides one frame of a tracker as the update system does: a tracker that
/// follows nothing (empty flag set) is skipped, `None`; any other gets
/// `tracker_step`.
pub fn update_tracker_step(
    traits: TrackerTraits,
    snap: u32,
    gap: TransformGap,
    orbiter_look_at: Option<bool>,
) -> (step: Option<TrackerStep>)
    ensures
        traits@ == 0 ==> step is None,
        traits@ != 0 ==> step == Some(tracker_step_spec(traits@, snap, gap, orbiter_look_at)),
{
    if traits.0 == 0 {
        None
    } else {
        Some(tracker_step(traits, snap, gap, orbiter_look_at))
    }
}

/// The flags a new tracker follows: translation and rotation.
pub fn default_traits() -> (r: TrackerTraits)
    ensures
        r@ == TRANSLATE_BITS | ROTATE_BITS,
        bits_contain(r@, TRANSLATE_BITS),
        bits_contain(r@, ROTATE_BITS),
        !bits_intersect(r@, SCALE_BITS),
{
    proof {
        crate::flags::lemma_single_bits(TRANSLATE_BITS, ROTATE_BITS);
    }
    TrackerTraits(TRANSLATE_BITS | ROTATE_BITS)
}

/// The per-part laws of a tracker frame, over all inputs.
///
/// During snap frames a part is copied from the target exactly when it is
/// followed and stands far, and is kept otherwise, whatever the orbiter; the
/// counter drops by one. Once the counter is spent: a followed, far
/// translation arcs round the focal point whenever the entity orbits (whatever
/// its look_at) and moves in a straight line only when it does not; a
/// followed, far rotation turns to the focal point, stays, or slerps as the
/// orbiter looks at it, does not, or is absent; a followed, far scale eases
/// whatever the orbiter; a part not followed or close is copied from the
/// target (scale: kept) while another part eases, and everything rests when
/// none does.
pub proof fn lemma_tracker_step_parts(
    traits: TrackerTraits,
    snap: u32,
    gap: TransformGap,
    orbiter_look_at: Option<bool>,
)
    ensures
        // Snap frames: a part is copied from the target exactly when it is
        // followed and far; otherwise it is kept. The orbiter plays no part.
        snap > 0 ==> (tracker_step_spec(traits@, snap, gap, orbiter_look_at).translation == TranslationStep::SetToTarget <==> (bits_contain(traits@, TRANSLATE_BITS) && gap.translation)),
        snap > 0 && !(bits_contain(traits@, TRANSLATE_BITS) && gap.translation) ==> tracker_step_spec(traits@, snap, gap, orbiter_look_at).translation == TranslationStep::Keep,
        snap > 0 ==> (tracker_step_spec(traits@, snap, gap, orbiter_look_at).rotation == RotationStep::SetToTarget <==> (bits_contain(traits@, ROTATE_BITS) && gap.rotation)),
        snap > 0 && !(bits_contain(traits@, ROTATE_BITS) && gap.rotation) ==> tracker_step_spec(traits@, snap, gap, orbiter_look_at).rotation == RotationStep::Keep,
        snap > 0 ==> (tracker_step_spec(traits@, snap, gap, orbiter_look_at).scale == ScaleStep::SetToTarget <==> (bits_contain(traits@, SCALE_BITS) && gap.scale)),
        snap > 0 && !(bits_contain(traits@, SCALE_BITS) && gap.scale) ==> tracker_step_spec(traits@, snap, gap, orbiter_look_at).scale == ScaleStep::Keep,
        snap > 0 ==> tracker_step_spec(traits@, snap, gap, orbiter_look_at).snap == snap - 1,
        // With the counter spent and nothing followed and far, all rests.
        snap == 0 && !(bits_contain(traits@, TRANSLATE_BITS) && gap.translation) && !(bits_contain(traits@, ROTATE_BITS) && gap.rotation) && !(bits_contain(traits@, SCALE_BITS) && gap.scale) ==> tracker_step_spec(traits@, snap, gap, orbiter_look_at).translation == TranslationStep::Keep
            && tracker_step_spec(traits@, snap, gap, orbiter_look_at).rotation == RotationStep::Keep && tracker_step_spec(traits@, snap, gap, orbiter_look_at).scale == ScaleStep::Keep,
        snap == 0 ==> tracker_step_spec(traits@, snap, gap, orbiter_look_at).snap == 0,
        // Easing frames (counter spent, some part followed and far).
        snap == 0 && (bits_contain(traits@, TRANSLATE_BITS) && gap.translation) && orbiter_look_at is Some ==> tracker_step_spec(traits@, snap, gap, orbiter_look_at).translation
            == TranslationStep::ArcAroundFocal,
        snap == 0 && (bits_contain(traits@, TRANSLATE_BITS) && gap.translation) && orbiter_look_at is None ==> tracker_step_spec(traits@, snap, gap, orbiter_look_at).translation == TranslationStep::Lerp,
        snap == 0 && !(bits_contain(traits@, TRANSLATE_BITS) && gap.translation) && ((bits_contain(traits@, ROTATE_BITS) && gap.rotation) || (bits_contain(traits@, SCALE_BITS) && gap.scale)) ==> tracker_step_spec(traits@, snap, gap, orbiter_look_at).translation == TranslationStep::SetToTarget,
        snap == 0 && (bits_contain(traits@, ROTATE_BITS) && gap.rotation) && orbiter_look_at == Some(true) ==> tracker_step_spec(traits@, snap, gap, orbiter_look_at).rotation
            == RotationStep::LookAtFocal,
        snap == 0 && (bits_contain(traits@, ROTATE_BITS) && gap.rotation) && orbiter_look_at == Some(false) ==> tracker_step_spec(traits@, snap, gap, orbiter_look_at).rotation == RotationStep::Keep,
        snap == 0 && (bits_contain(traits@, ROTATE_BITS) && gap.rotation) && orbiter_look_at is None ==> tracker_step_spec(traits@, snap, gap, orbiter_look_at).rotation == RotationStep::Slerp,
        snap == 0 && !(bits_contain(traits@, ROTATE_BITS) && gap.rotation) && ((bits_contain(traits@, TRANSLATE_BITS) && gap.translation) || (bits_contain(traits@, SCALE_BITS) && gap.scale)) ==> tracker_step_spec(traits@, snap, gap, orbiter_look_at).rotation == RotationStep::SetToTarget,
        snap == 0 && (bits_contain(traits@, SCALE_BITS) && gap.scale) ==> tracker_step_spec(traits@, snap, gap, orbiter_look_at).scale == ScaleStep::Lerp,
        snap == 0 && !(bits_contain(traits@, SCALE_BITS) && gap.scale) ==> tracker_step_spec(traits@, snap, gap, orbiter_look_at).scale == ScaleStep::Keep,
{
}

/// A step eases (or turns) some part, rather than only keeping or copying it.
pub open spec fn step_eases(step: TrackerStep) -> bool {
    ||| step.translation == TranslationStep::Lerp
    ||| step.translation == TranslationStep::ArcAroundFocal
    ||| step.rotation == RotationStep::Slerp
    ||| step.rotation == RotationStep::LookAtFocal
    ||| step.scale == ScaleStep::Lerp
}

/// While the snap counter is positive, a step only copies parts from the
/// target (never eases one), and the counter drops by exactly one; at zero it
/// stays at zero.
pub proof fn lemma_snap_frames_copy(
    traits: u32,
    snap: u32,
    gap: TransformGap,
    orbiter_look_at: Option<bool>,
)
    ensures
        snap > 0 ==> !step_eases(tracker_step_spec(traits, snap, gap, orbiter_look_at)),
        snap > 0 ==> tracker_step_spec(traits, snap, gap, orbiter_look_at).snap == snap - 1,
        snap == 0 ==> tracker_step_spec(traits, snap, gap, orbiter_look_at).snap == 0,
{
}

/// A part that the tracker does not follow is never eased: its step is to keep
/// it or to copy it from the target.
pub proof fn lemma_unfollowed_parts_not_eased(
    traits: u32,
    snap: u32,
    gap: TransformGap,
    orbiter_look_at: Option<bool>,
)
    ensures
        !bits_contain(traits, TRANSLATE_BITS) ==> {
            let t = tracker_step_spec(traits, snap, gap, orbiter_look_at).translation;
            t == TranslationStep::Keep || t == TranslationStep::SetToTarget
        },
        !bits_contain(traits, ROTATE_BITS) ==> {
            let r = tracker_step_spec(traits, snap, gap, orbiter_look_at).rotation;
            r == RotationStep::Keep || r == RotationStep::SetToTarget
        },
        !bits_contain(traits, SCALE_BITS) ==> tracker_step_spec(
            traits,
            snap,
            gap,
            orbiter_look_at,
        ).scale == ScaleStep::Keep,
{
}

/// A part that stands close to its target is never eased either.
pub proof fn lemma_close_parts_not_eased(
    traits: u32,
    snap: u32,
    gap: TransformGap,
    orbiter_look_at: Option<bool>,
)
    ensures
        !gap.translation ==> {
            let t = tracker_step_spec(traits, snap, gap, orbiter_look_at).translation;
            t == TranslationStep::Keep || t == TranslationStep::SetToTarget
        },
        !gap.rotation ==> {
            let r = tracker_step_spec(traits, snap, gap, orbiter_look_at).rotation;
            r == RotationStep::Keep || r == RotationStep::SetToTarget
        },
        !gap.scale ==> tracker_step_spec(traits, snap, gap, orbiter_look_at).scale
            == ScaleStep::Keep,
{
}

/// Once the snap counter is spent, a tracker whose followed parts all stand
/// close to the target leaves the whole transform as it is.
pub proof fn lemma_settled_tracker_rests(
    traits: u32,
    gap: TransformGap,
    orbiter_look_at: Option<bool>,
)
    requires
        !moves(traits, TRANSLATE_BITS, gap.translation),
        !moves(traits, SCALE_BITS, gap.scale),
        !moves(traits, ROTATE_BITS, gap.rotation),
    ensures
        tracker_step_spec(traits, 0, gap, orbiter_look_at) == (TrackerStep {
            translation: TranslationStep::Keep,
            rotation: RotationStep::Keep,
            scale: ScaleStep::Keep,
            snap: 0,
        }),
{
}

/// The snap counter after a run of frames, one gap per frame.
pub open spec fn snap_after(
    traits: u32,
    snap: u32,
    gaps: Seq<TransformGap>,
    orbiter_look_at: Option<bool>,
) -> u32
    decreases gaps.len(),
{
    if gaps.len() == 0 {
        snap
    } else {
        snap_after(
            traits,
            tracker_step_spec(traits, snap, gaps[0], orbiter_look_at).snap,
            gaps.drop_first(),
            orbiter_look_at,
        )
    }
}

/// Over any run of frames, the snap counter drops by one per frame until it
/// reaches zero: after `n` frames it is `snap - n`, or zero once `n` reaches
/// `snap`. So a tracker copies its target for at most `snap` frames.
pub proof fn lemma_snap_runs_out(
    traits: u32,
    snap: u32,
    gaps: Seq<TransformGap>,
    orbiter_look_at: Option<bool>,
)
    ensures
        snap_after(traits, snap, gaps, orbiter_look_at) == if gaps.len() >= snap {
            0
        } else {
            (snap - gaps.len()) as u32
        },
    decreases gaps.len(),
{
    if gaps.len() > 0 {
        lemma_snap_runs_out(
            traits,
            tracker_step_spec(traits, snap, gaps[0], orbiter_look_at).snap,
            gaps.drop_first(),
            orbiter_look_at,
        );
    }
}

} // verus!
