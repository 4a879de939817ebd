//! The draw-command layer: settings and blend modes, material keys and
//! batch planning, the drawing state and its stacks, shape tessellation plans,
//! point lattices and filter passes.
pub mod command;
pub mod transform;
pub mod style;
pub mod shape;
pub mod text_settings;
pub mod state;
pub mod lattice;
pub mod material_key;
pub mod batch;
pub mod filter;
