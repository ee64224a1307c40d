//! What is asked of the graphics device, and what is uploaded to it.

use crate::mesh::Mesh;
use crate::pipeline::VERTEX_STRIDE;
use vstd::prelude::*;

verus! {

/// Which kind of adapter is preferred.
#[derive(Clone, Copy, Debug, PartialEq, Eq, Structural)]
pub enum PowerPreference {
    LowPower,
    HighPerformance,
}

/// The request for an adapter and a logical device on it.
#[derive(Clone, Copy, Debug, PartialEq, Eq, Structural)]
pub struct DeviceRequest {
    pub power_preference: PowerPreference,
    pub anisotropic_filtering: bool,
}

/// What a buffer is bound as.
#[derive(Clone, Copy, Debug, PartialEq, Eq, Structural)]
pub enum BufferUsage {
    Vertex,
    Index,
}

/// One buffer to create and fill: its usage, the number of elements and the
/// bytes they take.
#[derive(Clone, Copy, Debug, PartialEq, Eq, Structural)]
pub struct BufferUpload {
    pub usage: BufferUsage,
    pub count: usize,
    pub bytes: u64,
}

/// Bytes in one 16-bit index.
pub const INDEX_BYTES: u64 = 2;

/// Bytes of one element of a buffer of the given usage.
pub open spec fn element_bytes(usage: BufferUsage) -> int {
    match usage {
        BufferUsage::Vertex => VERTEX_STRIDE as int,
        BufferUsage::Index => INDEX_BYTES as int,
    }
}

/// The upload of `count` elements as a buffer of the given usage: the whole
/// input, never a part of it.
pub open spec fn upload_of(usage: BufferUsage, count: nat) -> BufferUpload {
    BufferUpload { usage, count: count as usize, bytes: (count * element_bytes(usage)) as u64 }
}

impl DeviceRequest {
    /// A request with the given preference and no optional feature.
    pub fn new(power_preference: PowerPreference) -> (r: DeviceRequest)
        ensures
            r == (DeviceRequest { power_preference, anisotropic_filtering: false }),
    {
        DeviceRequest { power_preference, anisotropic_filtering: false }
    }
}

/// The vertex buffer of `mesh`: every record, 32 bytes each.
pub fn vertex_upload(mesh: &Mesh) -> (u: BufferUpload)
    ensures
        u == upload_of(BufferUsage::Vertex, mesh.vertex_seq().len()),
        u.count == mesh.vertex_seq().len(),
        u.bytes == 32 * mesh.vertex_seq().len(),
{
    let vertices = mesh.vertices();
    let count: usize = vertices.len();
    let wide: u64 = count as u64;
    BufferUpload { usage: BufferUsage::Vertex, count, bytes: wide * 32 }
}

/// The index buffer of `mesh`: every index, 2 bytes each.
pub fn index_upload(mesh: &Mesh) -> (u: BufferUpload)
    ensures
        u == upload_of(BufferUsage::Index, mesh.index_seq().len()),
        u.count == mesh.index_seq().len(),
        u.bytes == 2 * mesh.index_seq().len(),
{
    let indices = mesh.indices();
    let count: usize = indices.len();
    let wide: u64 = count as u64;
    BufferUpload { usage: BufferUsage::Index, count, bytes: wide * 2 }
}

} // verus!
