# asteroids

An Asteroids-like space shooter. The rules of the game form a library
verified with Verus; a Bevy application drives it.

- `src/` — the verified library: game states and their transitions, the
  menus and key bindings, the collision cache and damages, the fades of the
  lights and texts, the chances that things appear or fire, and the map of
  sectors that grows around the camera (each sector knows its neighbours, and
  the nine sectors around the camera are the ones shown).
- `tests/` — tests of the library on concrete values.
- `app/` — the Bevy application: windows, meshes, physics and collision
  geometry (all floating point), and the systems that hand the keys of each
  frame to the library and apply what it decides.
