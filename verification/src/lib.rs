//! A terrain-sculpting brush engine.
//!
//! Given a contact point and a radius, the engine selects nearby terrain
//! vertices and rewrites their height or color according to a brush
//! descriptor, marking each touched vertex so that one stroke mutates it at
//! most once. Scalars are fixed-point values (see `fixed`); the host samples
//! procedural-noise layers for the noise brushes and hands the samples in.

pub mod editor;
pub mod fixed;
pub mod noises;
pub mod terrain_brushes;
pub mod vertex;
