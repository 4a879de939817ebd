# processing_render

The core of a Processing-style 2D/3D renderer, written in Verus: the parts
that decide rather than draw. Every function in `src/` carries a contract
that Verus proves, except the small wrappers that call outside crates: the
five in `src/graphics.rs` over `bevy_camera`'s `RenderLayers`, the four in
`src/particles/buffer_map.rs` over `bevy_platform`'s `HashMap`, and the one
in `src/image.rs` that reads `wgpu_types`' copy-row alignment. Their
contracts are trusted, written from those crates' source.

- `src/graphics.rs`: render layers handed out to graphics targets.
- `src/compute.rs`: compute buffers (CPU copy, GPU synchronisation, range
  checks), shader property binding, pipeline layouts.
- `src/image.rs`: pixel formats, copy-row alignment, readback unpadding,
  region checks, sampler settings.
- `src/geometry/`: topologies, vertex attributes and layouts.
- `src/particles/`: particle systems and the plans of their GPU passes
  (emission into a ring, prefix sums, bitonic sort, reductions, compaction,
  spatial grids, connectivity, packing).
- `src/render/`: draw-state settings and blend modes, material keys and
  the per-frame batch planner with its draw indices, filter passes, the matrix and style
  stacks, the drawing state machine, shape building and tessellation plans,
  font-tag settings, point lattices.
- `src/shader_value.rs`, `src/material.rs`, `src/surface.rs`, `src/color.rs`,
  `src/noise.rs`: shader values and their bytes, material properties and
  backings, offscreen pixel storage and window placement, color and noise
  settings.

Floating-point work (colors, matrices, pixel conversion, curve control
points) and the conversions to the engine's and GPU API's types live in
`app/`, which uses the library; `app/frame.rs` runs a frame's commands
through the drawing state and the batch planner.
