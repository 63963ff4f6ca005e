//! The camera plugin's decisions: plugin setup, projection blend mode, the
//! Blender-style input controls, and the per-camera mouse bookkeeping.
use vstd::prelude::*;

verus! {

/// The camera setups that the plugin can build.
#[derive(Clone, Copy, Debug, PartialEq, Eq, Structural)]
pub enum CameraPluginTemplate {
    /// A camera driven like Blender's viewport: orbit, pan and zoom.
    Blender,
}

/// What building the camera plugin adds to an app.
#[derive(Clone, Copy, Debug, PartialEq, Eq, Structural)]
pub struct CameraPlan {
    /// The movement plugin, which the cameras rely on.
    pub add_movement: bool,
    /// The Blender camera: its spawn system and its input system.
    pub blender_template: bool,
}

/// The movement plugin is added only where the app lacks it; the template
/// picks the camera systems.
pub fn camera_plan(movement_added: bool, template: CameraPluginTemplate) -> (plan: CameraPlan)
    ensures
        plan.add_movement == !movement_added,
        plan.blender_template == (template == CameraPluginTemplate::Blender),
{
    CameraPlan {
        add_movement: !movement_added,
        blender_template: match template {
            CameraPluginTemplate::Blender => true,
        },
    }
}

/// How a blended projection is drawn.
#[derive(Clone, Copy, Debug, PartialEq, Eq, Structural)]
pub enum BlendMode {
    /// A plain perspective projection.
    Perspective,
    /// A plain orthographic projection.
    Orthographic,
    /// A mix of the two, weighted by the blend factor.
    Blended,
}

/// Classifies a blend factor from its two threshold tests: at most 0.001 is
/// perspective, else at least 0.999 is orthographic, else blended. The
/// perspective test wins where both hold.
pub fn blend_mode(within_perspective: bool, within_orthographic: bool) -> (mode: BlendMode)
    ensures
        within_perspective ==> mode == BlendMode::Perspective,
        !within_perspective && within_orthographic ==> mode == BlendMode::Orthographic,
        !within_perspective && !within_orthographic ==> mode == BlendMode::Blended,
{
    if within_perspective {
        BlendMode::Perspective
    } else if within_orthographic {
        BlendMode::Orthographic
    } else {
        BlendMode::Blended
    }
}

/// Frames the tracker copies its target outright after a pan, so that the
/// camera follows the panned focal point without easing.
pub const PAN_SNAP_FRAMES: u32 = 2;

/// What the Blender camera does with one frame of input.
#[derive(Clone, Copy, Debug, PartialEq, Eq, Structural)]
pub enum BlenderCameraAction {
    /// The camera's window is unknown: the camera is left alone.
    Skip,
    /// Move the focal point with the mouse, and snap the tracker for `snap`
    /// frames.
    Pan { snap: u32 },
    /// Zoom the orbit by `step` scroll steps, and sync the projection's zoom to
    /// the new radius.
    Zoom { step: i32 },
    /// Orbit round the focal point with the mouse.
    Orbit,
    /// No control is in use.
    Idle,
}

/// Decides the Blender camera's action from its input: the middle button
/// pans; else a whole scroll step zooms; else left Alt with the left button
/// orbits. Without a known window nothing happens.
pub fn blender_camera_action(
    window_known: bool,
    middle_pressed: bool,
    scroll_step: i32,
    alt_pressed: bool,
    left_pressed: bool,
) -> (action: BlenderCameraAction)
    ensures
        action == if !window_known {
            BlenderCameraAction::Skip
        } else if middle_pressed {
            BlenderCameraAction::Pan { snap: PAN_SNAP_FRAMES }
        } else if scroll_step != 0 {
            BlenderCameraAction::Zoom { step: scroll_step }
        } else if alt_pressed && left_pressed {
            BlenderCameraAction::Orbit
        } else {
            BlenderCameraAction::Idle
        },
{
    if !window_known {
        return BlenderCameraAction::Skip;
    }
    let swing = alt_pressed && left_pressed;
    if middle_pressed {
        BlenderCameraAction::Pan { snap: PAN_SNAP_FRAMES }
    } else if scroll_step != 0 {
        BlenderCameraAction::Zoom { step: scroll_step }
    } else if swing {
        BlenderCameraAction::Orbit
    } else {
        BlenderCameraAction::Idle
    }
}

/// The (previous, latest) cursor positions after one tick: `window_cursor` is
/// `Some(cursor)` where the camera's window was found, `None` where not.
pub open spec fn after_tick<P>(
    positions: (Option<P>, Option<P>),
    window_cursor: Option<Option<P>>,
) -> (Option<P>, Option<P>) {
    match window_cursor {
        Some(cursor) => (positions.1, cursor),
        None => positions,
    }
}

/// The mouse movement's end points for given (previous, latest) positions.
pub open spec fn delta_endpoints<P>(positions: (Option<P>, Option<P>)) -> Option<(P, P)> {
    match positions {
        (Some(last), Some(curr)) => Some((last, curr)),
        _ => None,
    }
}

/// Two ticks that see the cursor at `a` and then at `b` make the movement
/// run from `a` to `b`, whatever came before; a tick that sees the window but
/// not the cursor leaves no movement; a tick that misses the window changes
/// nothing.
pub proof fn lemma_ticks_track_the_cursor<P>(
    positions: (Option<P>, Option<P>),
    a: P,
    b: P,
    window_cursor: Option<Option<P>>,
)
    ensures
        delta_endpoints(after_tick(after_tick(positions, Some(Some(a))), Some(Some(b)))) == Some(
            (a, b),
        ),
        delta_endpoints(after_tick(positions, Some(None))) is None,
        after_tick(positions, None) == positions,
{
}

/// A camera's view of the mouse: the cursor positions of the last two ticks
/// (`P`) and the window (`W`) the camera renders to.
pub struct CameraMouseInfo<P, W> {
    last: Option<P>,
    curr: Option<P>,
    pub window: Option<W>,
}

impl<P: Copy, W> CameraMouseInfo<P, W> {
    /// The cursor position of the tick before the latest.
    pub closed spec fn last_position(&self) -> Option<P> {
        self.last
    }

    /// The cursor position of the latest tick.
    pub closed spec fn current_position(&self) -> Option<P> {
        self.curr
    }

    /// The window the camera renders to.
    pub closed spec fn bound_window(&self) -> Option<W> {
        self.window
    }

    /// No positions, no window.
    pub fn new() -> (r: Self)
        ensures
            r.last_position() is None,
            r.current_position() is None,
            r.bound_window() is None,
    {
        CameraMouseInfo { last: None, curr: None, window: None }
    }

    /// Binds the camera to a window, keeping the positions.
    pub fn attach_window(&mut self, window: W)
        ensures
            final(self).bound_window() == Some(window),
            final(self).last_position() == old(self).last_position(),
            final(self).current_position() == old(self).current_position(),
    {
        self.window = Some(window);
    }

    /// One tick: `window_cursor` is `Some(cursor)` where the camera's window
    /// was found (the cursor being `None` outside the window), `None` where
    /// it was not. Where found, the latest position becomes the previous one
    /// and the cursor the latest; where not, nothing changes.
    pub fn update_tick(&mut self, window_cursor: Option<Option<P>>)
        ensures
            final(self).bound_window() == old(self).bound_window(),
            (final(self).last_position(), final(self).current_position()) == after_tick(
                (old(self).last_position(), old(self).current_position()),
                window_cursor,
            ),
    {
        if let Some(cursor) = window_cursor {
            self.last = self.curr;
            self.curr = cursor;
        }
    }

    /// The two positions whose difference is the mouse's movement: previous
    /// and latest, where both are known. Where either is not, the movement is
    /// zero and this is `None`.
    pub fn move_delta_endpoints(&self) -> (r: Option<(P, P)>)
        ensures
            r == delta_endpoints((self.last_position(), self.current_position())),
    {
        match (self.last, self.curr) {
            (Some(last), Some(curr)) => Some((last, curr)),
            _ => None,
        }
    }
}

impl<P: Copy, W> Default for CameraMouseInfo<P, W> {
    fn default() -> (r: Self)
        ensures
            r.last_position() is None,
            r.current_position() is None,
            r.bound_window() is None,
    {
        Self::new()
    }
}

/// Render order of the debug camera, above the other cameras.
pub const DEBUG_CAMERA_ORDER: isize = 32;

/// Render layer reserved to the debug camera.
pub const DEBUG_RENDER_LAYER: usize = 32;

/// What to insert on the debug camera entity `E`.
#[derive(Debug, PartialEq, Eq)]
pub struct DebugCameraSetup<E> {
    pub entity: E,
    /// The camera's render order.
    pub order: isize,
    /// The single render layer the camera sees.
    pub layer: usize,
}

/// Sets up the debug camera: where exactly one debug camera exists
/// (`debug_cam` is `Some`), it gets render order 32 and render layer 32;
/// otherwise nothing is done.
pub fn init<E>(debug_cam: Option<E>) -> (r: Option<DebugCameraSetup<E>>)
    ensures
        debug_cam is None <==> r is None,
        debug_cam matches Some(e) ==> r == Some(
            DebugCameraSetup { entity: e, order: DEBUG_CAMERA_ORDER, layer: DEBUG_RENDER_LAYER },
        ),
{
    match debug_cam {
        Some(e) => Some(
            DebugCameraSetup { entity: e, order: DEBUG_CAMERA_ORDER, layer: DEBUG_RENDER_LAYER },
        ),
        None => None,
    }
}

/// Visits every camera with its projection, and changes nothing: the spawn
/// pass has no work to do yet.
pub fn spawn_camera<C, R>(cameras: &[(C, R)]) {
    let mut i: usize = 0;
    while i < cameras.len()
        invariant
            i <= cameras.len(),
        decreases cameras.len() - i,
    {
        i = i + 1;
    }
}

} // verus!
