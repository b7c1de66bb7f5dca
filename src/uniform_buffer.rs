//! Host-side model of a single-element uniform buffer and its binding.
use vstd::prelude::*;

verus! {

/// The shader stages that may read a binding.
#[derive(Debug, Copy, Clone, PartialEq, Eq, Structural)]
pub struct ShaderVisibility {
    pub vertex: bool,
    pub fragment: bool,
}

/// The layout entry of a uniform buffer inside its bind group.
#[derive(Debug, Copy, Clone, PartialEq, Eq, Structural)]
pub struct UniformLayout {
    /// Binding index inside the group; a uniform buffer is alone in its group.
    pub binding: u32,
    pub visibility: ShaderVisibility,
}

pub struct UniformBufferView<T> {
    pub data: T,
    pub visibility: ShaderVisibility,
}

/// One value of `T`, overwritten whole on each update, and the stages that see it.
pub struct UniformBuffer<T> {
    data: T,
    visibility: ShaderVisibility,
}

impl<T> View for UniformBuffer<T> {
    type V = UniformBufferView<T>;

    closed spec fn view(&self) -> UniformBufferView<T> {
        UniformBufferView { data: self.data, visibility: self.visibility }
    }
}

impl<T> UniformBuffer<T> {
    pub fn for_vertex(data: T) -> (r: Self)
        ensures
            r@.data == data,
            r@.visibility == (ShaderVisibility { vertex: true, fragment: false }),
    {
        Self::new(data, true, false)
    }

    pub fn for_fragment(data: T) -> (r: Self)
        ensures
            r@.data == data,
            r@.visibility == (ShaderVisibility { vertex: false, fragment: true }),
    {
        Self::new(data, false, true)
    }

    pub fn for_vertex_and_fragment(data: T) -> (r: Self)
        ensures
            r@.data == data,
            r@.visibility == (ShaderVisibility { vertex: true, fragment: true }),
    {
        Self::new(data, true, true)
    }

    pub fn new(data: T, vertex: bool, fragment: bool) -> (r: Self)
        ensures
            r@.data == data,
            r@.visibility == (ShaderVisibility { vertex, fragment }),
    {
        UniformBuffer { data, visibility: ShaderVisibility { vertex, fragment } }
    }

    /// The layout entry that pipelines are built against.
    pub fn get_binding(&self) -> (r: UniformLayout)
        ensures
            r == (UniformLayout { binding: 0, visibility: self@.visibility }),
    {
        UniformLayout { binding: 0, visibility: self.visibility }
    }

    /// The value to write to the GPU buffer.
    pub fn data(&self) -> (r: &T)
        ensures
            *r == self@.data,
    {
        &self.data
    }

    /// Replaces the whole contents.
    pub fn update(&mut self, data: T)
        ensures
            final(self)@.data == data,
            final(self)@.visibility == old(self)@.visibility,
    {
        self.data = data;
    }
}

} // verus!
