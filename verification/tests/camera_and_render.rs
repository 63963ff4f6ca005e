use sonolil::camera::{
    blend_mode, blender_camera_action, camera_plan, init, spawn_camera, BlendMode,
    BlenderCameraAction, CameraMouseInfo, CameraPluginTemplate, DebugCameraSetup,
    PAN_SNAP_FRAMES,
};
use sonolil::movement::{orbit_write, OrbitTarget};
use sonolil::render::{
    editor_plan, quick_new_extent, resize_and_reallocate_pixels, rgba8_pixel_buffer,
    resized_extent, viewport_actions, ImageExtent,
};

#[test]
fn camera_plan_adds_movement_once() {
    let p = camera_plan(false, CameraPluginTemplate::Blender);
    assert!(p.add_movement && p.blender_template);
    let p = camera_plan(true, CameraPluginTemplate::Blender);
    assert!(!p.add_movement && p.blender_template);
}

#[test]
fn blend_mode_thresholds() {
    assert_eq!(blend_mode(true, false), BlendMode::Perspective);
    assert_eq!(blend_mode(true, true), BlendMode::Perspective);
    assert_eq!(blend_mode(false, true), BlendMode::Orthographic);
    assert_eq!(blend_mode(false, false), BlendMode::Blended);
}

#[test]
fn blender_camera_controls() {
    assert_eq!(blender_camera_action(false, true, 3, true, true), BlenderCameraAction::Skip);
    assert_eq!(
        blender_camera_action(true, true, 3, true, true),
        BlenderCameraAction::Pan { snap: 2 }
    );
    assert_eq!(PAN_SNAP_FRAMES, 2);
    assert_eq!(
        blender_camera_action(true, false, -1, true, true),
        BlenderCameraAction::Zoom { step: -1 }
    );
    assert_eq!(blender_camera_action(true, false, 0, true, true), BlenderCameraAction::Orbit);
    assert_eq!(blender_camera_action(true, false, 0, true, false), BlenderCameraAction::Idle);
    assert_eq!(blender_camera_action(true, false, 0, false, true), BlenderCameraAction::Idle);
}

#[test]
fn mouse_info_tracks_two_ticks() {
    let mut info: CameraMouseInfo<(i32, i32), u64> = CameraMouseInfo::new();
    assert_eq!(info.move_delta_endpoints(), None);
    info.attach_window(9);
    assert_eq!(info.window, Some(9));
    info.update_tick(Some(Some((1, 2))));
    assert_eq!(info.move_delta_endpoints(), None);
    info.update_tick(Some(Some((4, 6))));
    assert_eq!(info.move_delta_endpoints(), Some(((1, 2), (4, 6))));
    // The window is not found: nothing changes.
    info.update_tick(None);
    assert_eq!(info.move_delta_endpoints(), Some(((1, 2), (4, 6))));
    // The cursor left the window: no movement.
    info.update_tick(Some(None));
    assert_eq!(info.move_delta_endpoints(), None);
    info.update_tick(Some(Some((0, 0))));
    assert_eq!(info.move_delta_endpoints(), None);
    info.update_tick(Some(Some((3, 0))));
    assert_eq!(info.move_delta_endpoints(), Some(((0, 0), (3, 0))));
    assert_eq!(info.window, Some(9));
}

#[test]
fn mouse_info_default_is_empty() {
    let info: CameraMouseInfo<u8, u8> = Default::default();
    assert_eq!(info.window, None);
    assert_eq!(info.move_delta_endpoints(), None);
}

#[test]
fn debug_camera_setup() {
    assert_eq!(init::<u32>(None), None);
    assert_eq!(init(Some(5u32)), Some(DebugCameraSetup { entity: 5, order: 32, layer: 32 }));
}

#[test]
fn spawn_camera_changes_nothing() {
    let cams = vec![(1u8, 2u8), (3, 4)];
    spawn_camera(&cams);
    assert_eq!(cams, vec![(1, 2), (3, 4)]);
    spawn_camera::<u8, u8>(&[]);
}

#[test]
fn orbit_writes() {
    let w = orbit_write(true, true, true, true);
    assert_eq!(w.target, OrbitTarget::Tracker);
    assert!(w.translation && w.rotation);
    let w = orbit_write(false, false, false, true);
    assert_eq!(w.target, OrbitTarget::Transform);
    assert!(!w.translation && !w.rotation);
}

#[test]
fn image_sizes() {
    assert_eq!(
        quick_new_extent(),
        ImageExtent { width: 1920, height: 1080, depth_or_array_layers: 1 }
    );
    assert_eq!(resized_extent(3, 5), ImageExtent { width: 3, height: 5, depth_or_array_layers: 1 });
}

#[test]
fn pixel_buffer_has_four_zero_bytes_per_pixel() {
    let data = rgba8_pixel_buffer(3, 5);
    assert_eq!(data.len(), 60);
    assert!(data.iter().all(|b| *b == 0));
    assert!(rgba8_pixel_buffer(0, 100).is_empty());
    let (extent, data) = resize_and_reallocate_pixels(640, 480);
    assert_eq!(extent, ImageExtent { width: 640, height: 480, depth_or_array_layers: 1 });
    assert_eq!(data.len(), 640 * 480 * 4);
}

#[test]
fn viewport_and_editor_decisions() {
    let a = viewport_actions(true);
    assert!(a.register_texture && a.remove_marker);
    let a = viewport_actions(false);
    assert!(!a.register_texture && a.remove_marker);
    let p = editor_plan(false, true);
    assert!(p.add_egui && !p.add_render);
    let p = editor_plan(true, false);
    assert!(!p.add_egui && p.add_render);
}
