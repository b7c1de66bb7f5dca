//! The fixed configuration a render pipeline is built from, and the slots
//! that buffers and bind groups are attached to.
use crate::layout::VertexBufferLayout;
use crate::uniform_buffer::UniformLayout;
use vstd::prelude::*;

verus! {

pub const VERTEX_BUFFER_BIND_SLOT: u32 = 0;

pub const INSTANCE_BUFFER_BIND_SLOT: u32 = 1;

pub const CAMERA_UNIFORM_BIND_GROUP: u32 = 0;

pub const LIGHT_UNIFORM_BIND_GROUP: u32 = 1;

/// How a fragment's depth is compared with the stored one.
#[derive(Debug, Copy, Clone, PartialEq, Eq, Structural)]
pub enum CompareFunction {
    Less,
    LessEqual,
}

#[derive(Debug, Copy, Clone, PartialEq, Eq, Structural)]
pub struct DepthState {
    pub write_enabled: bool,
    pub compare: CompareFunction,
}

/// Everything a pipeline is built from but the compiled program and the
/// color target's format.
pub struct PipelineConfig {
    /// The vertex buffer first, then the instance buffer if there is one.
    pub vertex_buffers: Vec<VertexBufferLayout>,
    /// One bind group per entry, in order.
    pub bind_groups: Vec<UniformLayout>,
    pub cull_back_faces: bool,
    pub depth: Option<DepthState>,
    pub vertex_entry: &'static str,
    pub fragment_entry: &'static str,
}

impl PipelineConfig {
    /// The depth state used whenever a depth buffer is attached: test with
    /// less-or-equal, write on pass.
    pub open spec fn depth_test() -> DepthState {
        DepthState { write_enabled: true, compare: CompareFunction::LessEqual }
    }

    pub fn new(
        vertex_layout: VertexBufferLayout,
        instance_layout: Option<VertexBufferLayout>,
        bind_groups: Vec<UniformLayout>,
        with_depth: bool,
    ) -> (r: PipelineConfig)
        ensures
            r.vertex_buffers@.len() == if instance_layout.is_some() {
                2int
            } else {
                1int
            },
            r.vertex_buffers@[0] == vertex_layout,
            instance_layout.is_some() ==> r.vertex_buffers@[1] == instance_layout.unwrap(),
            r.bind_groups@ == bind_groups@,
            r.cull_back_faces,
            r.depth == if with_depth {
                Some(Self::depth_test())
            } else {
                None
            },
            r.vertex_entry@ == "vs_main"@,
            r.fragment_entry@ == "fs_main"@,
    {
        let mut vertex_buffers: Vec<VertexBufferLayout> = Vec::new();
        vertex_buffers.push(vertex_layout);
        match instance_layout {
            Some(layout) => vertex_buffers.push(layout),
            None => {},
        }
        let depth = if with_depth {
            Some(DepthState { write_enabled: true, compare: CompareFunction::LessEqual })
        } else {
            None
        };
        PipelineConfig {
            vertex_buffers,
            bind_groups,
            cull_back_faces: true,
            depth,
            vertex_entry: "vs_main",
            fragment_entry: "fs_main",
        }
    }
}

} // verus!
