//! Integer data laid out for the shaders' uniform blocks.

use vstd::prelude::*;
use crate::swapchain::Extent;

verus! {

/// Four unsigned components, in the order a shader reads them.
#[derive(Clone, Copy, Debug, PartialEq, Eq, Structural)]
pub struct UVec4 {
    pub x: u32,
    pub y: u32,
    pub z: u32,
    pub w: u32,
}

/// The integer part of the data that every shader invocation reads: the
/// window's size in pixels, padded to four components.
#[derive(Clone, Copy, Debug, PartialEq, Eq, Structural)]
pub struct GlobalUniformData {
    pub window_size: UVec4,
}

/// Calls `cgmath::Vector2::extend`, which keeps the two components of the
/// vector and appends the one given: the three come back in this order.
#[verifier::external_body]
fn extend_pair(x: u32, y: u32, z: u32) -> (v: (u32, u32, u32))
    ensures
        v == (x, y, z),
{
    let v = cgmath::Vector2::new(x, y).extend(z);
    (v.x, v.y, v.z)
}

/// Calls `cgmath::Vector3::extend`, which keeps the three components of the
/// vector and appends the one given: the four come back in this order.
#[verifier::external_body]
fn extend_triple(x: u32, y: u32, z: u32, w: u32) -> (v: UVec4)
    ensures
        v == (UVec4 { x, y, z, w }),
{
    let v = cgmath::Vector3::new(x, y, z).extend(w);
    UVec4 { x: v.x, y: v.y, z: v.z, w: v.w }
}

/// A width and a height as the first two of four components; the other two
/// are zero.
pub fn pad_dimensions(width: u32, height: u32) -> (v: UVec4)
    ensures
        v == (UVec4 { x: width, y: height, z: 0, w: 0 }),
{
    let (x, y, z) = extend_pair(width, height, 0);
    extend_triple(x, y, z, 0)
}

impl GlobalUniformData {
    /// The global uniform data for a window of size `window_size`.
    pub fn new(window_size: Extent) -> (data: GlobalUniformData)
        ensures
            data.window_size == (UVec4 { x: window_size.width, y: window_size.height, z: 0, w: 0 }),
    {
        GlobalUniformData { window_size: pad_dimensions(window_size.width, window_size.height) }
    }
}

} // verus!
