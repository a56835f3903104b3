//! Stroke-font text tessellation for GPU line rendering.
//!
//! A fixed table of uppercase stroke glyphs is laid out, character by
//! character, into a flat list of line-segment endpoints. Every consecutive
//! pair of points is one segment, so a single line-primitive draw call
//! renders all text. All geometry is computed in exact integer coordinates;
//! the surrounding (unverified) GPU code converts them to floats on upload.

pub mod error;
pub mod geometry;
pub mod glyphs;
pub mod layout;
