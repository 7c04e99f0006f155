# murdertime_5000

A small VR arena game: the player flies a jetpack over a bowl-shaped terrain,
vikings walk towards the headset and attack, and the player fights back with
hammers and gatling guns.

- `src/` is the verified library (Verus): the collision layers of the physics
  world and the settings of the bodies put in it (`physics`), the layout of the
  terrain's sample grid (`terrain`), the status machine and animations of the
  units (`unit`), how weapons follow the controllers and when guns fire
  (`weapons`), what becomes of the projectiles on a tick (`projectile`), and
  the counts handed to the GPU with the cap on debug lines (`graphics`).
- `app/` is the game around it: the engine, the physics engine bindings, the
  floating-point simulation (movement, separation, jetpack, keyframe blending,
  terrain heights) and the per-frame systems, which ask the library for their
  decisions.
- `tests/` exercises the library on concrete values.
