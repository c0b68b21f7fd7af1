//! Exact interpolation primitives.
//!
//! This crate evaluates the classic keyframe blending operations — discrete
//! step, linear interpolation, quadratic and cubic Bezier curves (plus the
//! mirrored cubic variant), and cubic Hermite splines with Catmull-Rom style
//! tangents — over exact rational scalars and over vectors of such scalars.
//!
//! Every operation is specified against a mathematical model of rational
//! numbers ([`rat::Rat`]), and the endpoint and selection laws of the
//! operations are proved in [`laws`].

pub mod curve;
pub mod laws;
pub mod rat;
pub mod scalar;
pub mod vector;
