//! Integer and decision core of a small cuboid-scene ray tracer: the hashes
//! behind procedural textures and the starfield, texel lookup in RGBA8
//! bitmaps, the face tie-break of the ray/cuboid test, the recursion budget of
//! the shader, the layout of the output pixel buffer, and the diorama scene
//! (cuboid layout, material catalog and lighting) in integer units.
pub mod hash;
pub mod texture;
pub mod face;
pub mod shading;
pub mod frame;
pub mod catalog;
pub mod layout;

