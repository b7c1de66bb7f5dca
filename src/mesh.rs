//! Draw calls issued for a mesh, alone or instanced.
use crate::instance_buffer::{InstanceBuffer, InstanceBufferView};
use crate::pipeline::{INSTANCE_BUFFER_BIND_SLOT, VERTEX_BUFFER_BIND_SLOT};
use vstd::prelude::*;

verus! {

/// What a draw records into a render pass: the buffers it binds and the
/// vertex and instance ranges, both starting at zero.
#[derive(Debug, Copy, Clone, PartialEq, Eq, Structural)]
pub struct DrawCall {
    pub vertex_buffer_slot: u32,
    pub binds_index_buffer: bool,
    pub instance_buffer_slot: Option<u32>,
    pub vertex_count: u32,
    pub instance_count: u32,
}

pub struct MeshView {
    pub vertex_count: u32,
    pub indexed: bool,
}

/// A single, non-instanced draw of every vertex.
pub open spec fn single_draw(m: MeshView) -> DrawCall {
    DrawCall {
        vertex_buffer_slot: VERTEX_BUFFER_BIND_SLOT,
        binds_index_buffer: m.indexed,
        instance_buffer_slot: None,
        vertex_count: m.vertex_count,
        instance_count: 1,
    }
}

/// An instanced draw covering the live records of an instance buffer.
pub open spec fn instanced_draw<I>(m: MeshView, b: InstanceBufferView<I>) -> DrawCall {
    DrawCall {
        vertex_buffer_slot: VERTEX_BUFFER_BIND_SLOT,
        binds_index_buffer: m.indexed,
        instance_buffer_slot: Some(INSTANCE_BUFFER_BIND_SLOT),
        vertex_count: m.vertex_count,
        instance_count: b.live as u32,
    }
}

/// A vertex buffer of known length and, maybe, an index buffer.
pub struct Mesh {
    vertex_count: u32,
    indexed: bool,
}

impl View for Mesh {
    type V = MeshView;

    closed spec fn view(&self) -> MeshView {
        MeshView { vertex_count: self.vertex_count, indexed: self.indexed }
    }
}

impl Mesh {
    /// A mesh over `vertices`, with an index buffer when `indices` is given.
    pub fn with_vertices<V>(vertices: &[V], indices: Option<&[u32]>) -> (r: Mesh)
        requires
            vertices@.len() <= u32::MAX,
        ensures
            r@.vertex_count == vertices@.len(),
            r@.indexed == indices.is_some(),
    {
        Self::new(vertices.len() as u32, indices.is_some())
    }

    pub fn new(vertex_count: u32, indexed: bool) -> (r: Mesh)
        ensures
            r@.vertex_count == vertex_count,
            r@.indexed == indexed,
    {
        Mesh { vertex_count, indexed }
    }

    pub fn draw(&self) -> (r: DrawCall)
        ensures
            r == single_draw(self@),
    {
        DrawCall {
            vertex_buffer_slot: VERTEX_BUFFER_BIND_SLOT,
            binds_index_buffer: self.indexed,
            instance_buffer_slot: None,
            vertex_count: self.vertex_count,
            instance_count: 1,
        }
    }

    pub fn draw_instanced<I: Copy>(&self, instance_buffer: &InstanceBuffer<I>) -> (r: DrawCall)
        requires
            instance_buffer.wf(),
        ensures
            r == instanced_draw(self@, instance_buffer@),
    {
        DrawCall {
            vertex_buffer_slot: VERTEX_BUFFER_BIND_SLOT,
            binds_index_buffer: self.indexed,
            instance_buffer_slot: Some(INSTANCE_BUFFER_BIND_SLOT),
            vertex_count: self.vertex_count,
            instance_count: instance_buffer.instance_count(),
        }
    }
}

/// Indices of a triangle list whose vertices are stored in drawing order:
/// `0, 1, 2, ...`, one per vertex.
pub fn sequential_indices(vertex_count: usize) -> (r: Vec<u32>)
    requires
        vertex_count <= u32::MAX,
    ensures
        r@.len() == vertex_count,
        forall|i: int| 0 <= i < vertex_count ==> r@[i] == i,
{
    let mut r: Vec<u32> = Vec::new();
    while r.len() < vertex_count
        invariant
            vertex_count <= u32::MAX,
            r@.len() <= vertex_count,
            forall|i: int| 0 <= i < r@.len() ==> r@[i] == i,
        decreases vertex_count - r@.len(),
    {
        let next = r.len() as u32;
        r.push(next);
    }
    r
}

/// After an update with no more records than the capacity, the next instanced
/// draw covers exactly those records, not the whole capacity.
pub proof fn lemma_update_then_draw<I>(m: MeshView, b: InstanceBufferView<I>, host: Seq<I>)
    requires
        b.records.len() <= u32::MAX,
        host.len() <= b.records.len(),
    ensures
        instanced_draw(m, crate::instance_buffer::updated(b, host)).instance_count == host.len(),
{
}

} // verus!
