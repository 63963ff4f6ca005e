//! Movement systems: their ordering sets, and the orbit update's writes.
use vstd::prelude::*;

verus! {

/// Systems that copy transforms from related entities (orbit focal points,
/// tracking targets) run in this set.
#[derive(Clone, Copy, Debug, Hash, PartialEq, Eq, Structural)]
pub struct CopyFromRelationSet;

/// Systems that move orbiters and trackers run in this set.
#[derive(Clone, Copy, Debug, Hash, PartialEq, Eq, Structural)]
pub struct UpdateMovementSet;

/// Where an orbiter's new position and rotation are written.
#[derive(Clone, Copy, Debug, PartialEq, Eq, Structural)]
pub enum OrbitTarget {
    /// Into the tracker's target transform, which the tracker then eases to.
    Tracker,
    /// Straight into the entity's transform.
    Transform,
}

/// The writes of one orbit update.
#[derive(Clone, Copy, Debug, PartialEq, Eq, Structural)]
pub struct OrbitWrite {
    pub target: OrbitTarget,
    /// Write the orbit position.
    pub translation: bool,
    /// Write the orbit rotation.
    pub rotation: bool,
}

/// An orbiter writes into its tracker where it has one, else into its own
/// transform; it writes the position only where it changed, and the rotation
/// only where it looks at its focal point and the rotation changed.
pub fn orbit_write(
    has_tracker: bool,
    look_at: bool,
    translation_differs: bool,
    rotation_differs: bool,
) -> (w: OrbitWrite)
    ensures
        w.target == (if has_tracker { OrbitTarget::Tracker } else { OrbitTarget::Transform }),
        w.translation == translation_differs,
        w.rotation == (look_at && rotation_differs),
{
    OrbitWrite {
        target: if has_tracker { OrbitTarget::Tracker } else { OrbitTarget::Transform },
        translation: translation_differs,
        rotation: look_at && rotation_differs,
    }
}

} // verus!
