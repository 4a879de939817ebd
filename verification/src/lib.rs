//! Verified core of a Processing-style renderer: the integer bookkeeping that
//! sits between a sketch API and a GPU backend (layer allocation, buffer
//! ranges, dispatch plans, pixel layouts, command decoding, the drawing state
//! and the planning of shapes).
pub mod graphics;
pub mod compute;
pub mod error;
pub mod arith;
pub mod entity;
pub mod particles;
pub mod bytes;
pub mod geometry;
pub mod image;
pub mod noise;
pub mod color;
pub mod render;
pub mod surface;
pub mod shader_value;
pub mod material;
