# sonolil

Camera and movement helpers for Bevy, with their decision logic verified in
Verus.

- `src/` is the verified library: the flag sets (`flags`, `tracker_traits`,
  `setup3d`), the tracker's per-frame decision (`tracker`), the orbit update's
  writes (`movement`), the camera plugin's decisions and mouse bookkeeping
  (`camera`), and image sizes and pixel buffers (`render`).
- `app/` holds the Bevy plugins, components and systems. They do the ECS work
  and the floating-point maths, and take each decision from the library.
- `tests/` exercises the library on concrete values.
