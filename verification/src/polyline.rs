//! The polyline asset and what the GPU gets of it.

use crate::host::{point_bytes, point_bytes_of};
use bevy::math::{Mat4, Vec3};
use vstd::prelude::*;

verus! {

/// The usage bit of a buffer that a render pass binds as a vertex buffer.
pub const BUFFER_USAGE_VERTEX: u32 = 0x20;

/// An ordered sequence of 3D points, joined by segments.
#[derive(Debug, Clone)]
pub struct Polyline {
    pub vertices: Vec<Vec3>,
}

/// The per-entity uniform: the entity's model matrix.
#[derive(Clone, Copy)]
pub struct PolylineUniform {
    pub transform: Mat4,
}

/// The GPU representation of a [`Polyline`]. `B` is the host's device buffer.
#[derive(Debug, Clone)]
pub struct GpuPolyline<B> {
    /// The points, 12 bytes each, in order.
    pub vertex_buffer: B,
    /// The number of points at preparation.
    pub vertex_count: u32,
}

/// What the device is asked for to hold a polyline: a buffer with these
/// contents, bound as a vertex buffer.
#[derive(Debug, PartialEq, Eq)]
pub struct VertexBufferDescriptor<'a> {
    pub label: &'static str,
    /// The buffer's usage, as usage bits.
    pub usage: u32,
    pub contents: &'a [u8],
}

/// Why a polyline was not prepared.
#[derive(Debug, Clone)]
pub enum PrepareAssetError {
    /// The device gave no buffer. The polyline comes back, to be prepared on a
    /// later frame.
    RetryNextUpdate(Polyline),
}

impl Default for Polyline {
    fn default() -> (polyline: Polyline)
        ensures
            polyline.vertices@.len() == 0,
    {
        Polyline { vertices: Vec::new() }
    }
}

impl Polyline {
    /// A copy of the polyline for the render world: the same points in the same order.
    pub fn extract_asset(&self) -> (extracted: Polyline)
        ensures
            extracted.vertices@ == self.vertices@,
    {
        let mut vertices: Vec<Vec3> = Vec::new();
        let mut i: usize = 0;
        while i < self.vertices.len()
            invariant
                i <= self.vertices.len(),
                vertices@ == self.vertices@.subrange(0, i as int),
            decreases self.vertices.len() - i,
        {
            vertices.push(self.vertices[i]);
            i = i + 1;
        }
        Polyline { vertices }
    }

    /// The contents of the vertex buffer: the points as tightly packed records
    /// of 12 bytes.
    pub fn vertex_buffer_data(&self) -> (bytes: &[u8])
        ensures
            bytes@ == point_bytes_of(self.vertices@),
            bytes@.len() == 12 * self.vertices@.len(),
    {
        point_bytes(self.vertices.as_slice())
    }

    /// What the device is asked for: a vertex buffer that holds the points.
    pub fn vertex_buffer_descriptor(&self) -> (descriptor: VertexBufferDescriptor<'_>)
        ensures
            descriptor.label@ == "Polyline Vertex Buffer"@,
            descriptor.usage == BUFFER_USAGE_VERTEX,
            descriptor.contents@ == point_bytes_of(self.vertices@),
            descriptor.contents@.len() == 12 * self.vertices@.len(),
    {
        VertexBufferDescriptor {
            label: "Polyline Vertex Buffer",
            usage: BUFFER_USAGE_VERTEX,
            contents: self.vertex_buffer_data(),
        }
    }

    /// The number of points, as the GPU representation holds it. The count has
    /// 32 bits, as the instance range of a draw has: a polyline of more points
    /// cannot be prepared.
    pub fn vertex_count(&self) -> (count: u32)
        requires
            self.vertices@.len() <= u32::MAX,
        ensures
            count == self.vertices@.len(),
    {
        let len: usize = self.vertices.len();
        len as u32
    }

    /// Finishes the preparation with what the device returned for
    /// `vertex_buffer_descriptor`. With a buffer the result is the GPU
    /// representation that holds it, with the number of points; without one
    /// the polyline comes back unchanged in the error.
    pub fn prepare_asset<B>(polyline: Polyline, vertex_buffer: Option<B>) -> (prepared: Result<
        GpuPolyline<B>,
        PrepareAssetError,
    >)
        requires
            polyline.vertices@.len() <= u32::MAX,
        ensures
            match vertex_buffer {
                Some(buffer) => prepared == Ok::<GpuPolyline<B>, PrepareAssetError>(
                    GpuPolyline {
                        vertex_buffer: buffer,
                        vertex_count: polyline.vertices@.len() as u32,
                    },
                ),
                None => prepared == Err::<GpuPolyline<B>, PrepareAssetError>(
                    PrepareAssetError::RetryNextUpdate(polyline),
                ),
            },
    {
        match vertex_buffer {
            Some(buffer) => {
                let vertex_count = polyline.vertex_count();
                Ok(GpuPolyline { vertex_buffer: buffer, vertex_count })
            },
            None => Err(PrepareAssetError::RetryNextUpdate(polyline)),
        }
    }
}

/// Preparation is a function of the points: two polylines of the same points
/// get the same buffer contents and the same count.
pub proof fn lemma_equal_points_equal_preparation(
    a: Polyline,
    b: Polyline,
    bytes_a: Seq<u8>,
    bytes_b: Seq<u8>,
)
    requires
        a.vertices@ == b.vertices@,
        bytes_a == point_bytes_of(a.vertices@),
        bytes_b == point_bytes_of(b.vertices@),
    ensures
        bytes_a == bytes_b,
        a.vertices@.len() as u32 == b.vertices@.len() as u32,
{
}

} // verus!
