//! The OpenGL enumerants the pipeline uses, by their registry values.

use vstd::prelude::*;

verus! {

/// Shader stage: vertex.
pub const VERTEX_SHADER: u32 = 0x8B31;

/// Shader stage: fragment.
pub const FRAGMENT_SHADER: u32 = 0x8B30;

/// Buffer binding point for vertex attributes.
pub const ARRAY_BUFFER: u32 = 0x8892;

/// Buffer usage hint: written once, drawn many times.
pub const STATIC_DRAW: u32 = 0x88E4;

/// Component type: 32-bit float.
pub const FLOAT: u32 = 0x1406;

/// Component type: unsigned byte.
pub const UNSIGNED_BYTE: u32 = 0x1401;

/// Texture target: two-dimensional.
pub const TEXTURE_2D: u32 = 0x0DE1;

/// Texture parameter: wrap mode along S.
pub const TEXTURE_WRAP_S: u32 = 0x2802;

/// Texture parameter: wrap mode along T.
pub const TEXTURE_WRAP_T: u32 = 0x2803;

/// Texture parameter: minification filter.
pub const TEXTURE_MIN_FILTER: u32 = 0x2801;

/// Texture parameter: magnification filter.
pub const TEXTURE_MAG_FILTER: u32 = 0x2800;

/// Wrap mode: clamp coordinates to the edge texels.
pub const CLAMP_TO_EDGE: u32 = 0x812F;

/// Filter: linear interpolation.
pub const LINEAR: u32 = 0x2601;

/// Pixel format: red, green, blue, alpha.
pub const RGBA: u32 = 0x1908;

/// The first texture unit.
pub const TEXTURE0: u32 = 0x84C0;

/// Clear mask bit of the colour buffer.
pub const COLOR_BUFFER_BIT: u32 = 0x4000;

/// Primitive mode: each three vertices make one triangle.
pub const TRIANGLES: u32 = 0x0004;

} // verus!
