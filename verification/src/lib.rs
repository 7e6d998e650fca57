//! Procedural scene descriptor and GPU synchronization layer for an SDF
//! ray-marching renderer: the data model for two procedural primitives and a
//! global settings block, named presets, a bit-exact uniform-buffer encoding
//! with its inverse, the per-frame synchronization step, and the orbit-camera
//! parameter state with range-clamped editing accessors.
//!
//! Every scalar render parameter is carried as the bit pattern of a 32-bit
//! IEEE 754 value, so the uniform-buffer contract — field order, scalar
//! widths, and the exact bits of every field — is stated and proved directly
//! over the data the shader consumes. Evaluating those scalars numerically
//! (the camera's trigonometry, color widget conversions) is left to callers.

pub mod bytes;
pub mod camera;
pub mod facade;
pub mod fbits;
pub mod layout;
pub mod primitive;
pub mod scene;
pub mod settings;
pub mod sync;
