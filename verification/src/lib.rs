//! Support library for a fullscreen-quad render pass.
//!
//! The pass samples an existing texture through a nearest-neighbor sampler
//! and draws it, unmodified, as a fullscreen quad into a target surface. What
//! this crate verifies is everything the pass decides: decoding a SPIR-V
//! shader binary, a stream of little-endian 32-bit words, into the word
//! vector the graphics device consumes; the fixed sampler, bind-group and
//! pipeline configuration; and the per-frame command sequence. The layer that
//! talks to the graphics driver translates those values one for one.

pub mod renderers;
pub mod spirv;
