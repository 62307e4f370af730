# vector-field

An interactive 2D vector-field sandbox: particles flow through curl noise,
vortices, dipoles, trigonometric flows or an N-body gravity field.

- `src/` is the verified core, written in Verus:
  - `settings.rs`: the selectable modes, their labels, the discrete
    settings and their defaults, and what choosing the gravity preset does;
  - `trail.rs`: the bounded trail of past positions each particle carries;
  - `pool.rs`: growing, shrinking and respawning the particle pool;
  - `sandbox.rs`: grabbing, placing, deleting and dragging gravity wells,
    one pointer frame at a time.
- `app/` is the program around it: the float field equations, the noise,
  colour palettes, drawing with macroquad and the egui control panel.
- `tests/` runs the core on concrete values.
