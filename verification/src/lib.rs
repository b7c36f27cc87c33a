//! A declarative construction layer for vector graphics, keyframe animation,
//! and particle emission.
//!
//! The crate models three pure cores:
//!
//! - a path-construction algebra ([`path_builder::CGPathBuilder`]) that turns
//!   an ordered sequence of drawing commands plus an optional active affine
//!   transform into an immutable [`path::Path`] with a computable bounding
//!   box;
//! - an animation timeline ([`timeline::AnimationDescriptor`]) that turns a
//!   value range, easing curve, repeat policy, and phase offset into a
//!   deterministic per-time sample;
//! - a particle emission model ([`emitter::EmitterConfig`]) that turns
//!   continuous emission parameters into a deterministic particle population
//!   description.
//!
//! All quantities are fixed-point integers in thousandths of their unit
//! (milli-units for coordinates, milliseconds for times, milliradians for
//! angles), so every function is an exact integer computation with a proved
//! contract. The host compositor that consumes paths, timelines, and
//! emission descriptors converts to its own floating-point types at the
//! boundary.

pub mod easing;
pub mod emitter;
pub mod fixed;
pub mod geom;
pub mod path;
pub mod path_builder;
pub mod timeline;
