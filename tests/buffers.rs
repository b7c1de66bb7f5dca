use sphynx::instance_buffer::InstanceBuffer;
use sphynx::mesh::{sequential_indices, Mesh};
use sphynx::pipeline::{INSTANCE_BUFFER_BIND_SLOT, VERTEX_BUFFER_BIND_SLOT};
use sphynx::uniform_buffer::{ShaderVisibility, UniformBuffer};

#[test]
fn instanced_draw_counts_live_records_not_capacity() {
    let mut buffer = InstanceBuffer::new(vec![0u64; 100]);
    assert_eq!(buffer.capacity(), 100);
    assert_eq!(buffer.instance_count(), 100);

    buffer.update(&[7, 8]);
    assert_eq!(buffer.capacity(), 100);
    assert_eq!(buffer.instance_count(), 2);
    assert_eq!(buffer.contents().len(), 100);
    assert_eq!(&buffer.contents()[..3], &[7, 8, 0]);

    let mesh = Mesh::new(36, false);
    let call = mesh.draw_instanced(&buffer);
    assert_eq!(call.instance_count, 2);
    assert_eq!(call.vertex_count, 36);
    assert_eq!(call.vertex_buffer_slot, VERTEX_BUFFER_BIND_SLOT);
    assert_eq!(call.instance_buffer_slot, Some(INSTANCE_BUFFER_BIND_SLOT));
}

#[test]
fn update_with_empty_list_draws_nothing() {
    let mut buffer = InstanceBuffer::new(vec![1u32, 2, 3]);
    buffer.update(&[]);
    assert_eq!(buffer.instance_count(), 0);
    assert_eq!(buffer.contents(), &[1, 2, 3]);
}

#[test]
fn update_beyond_capacity_is_cut() {
    let mut buffer = InstanceBuffer::new(vec![0u8; 3]);
    buffer.update(&[1, 2, 3, 4, 5]);
    assert_eq!(buffer.instance_count(), 3);
    assert_eq!(buffer.contents(), &[1, 2, 3]);
}

#[test]
fn full_capacity_update() {
    let mut buffer = InstanceBuffer::new(vec![0i32; 4]);
    buffer.update(&[9, 9, 9, 9]);
    assert_eq!(buffer.instance_count(), 4);
    buffer.update(&[5]);
    assert_eq!(buffer.contents(), &[5, 9, 9, 9]);
    assert_eq!(buffer.instance_count(), 1);
}

#[test]
fn single_draw_of_indexed_mesh() {
    let vertices = [[0.0f32; 3]; 6];
    let indices = [0u32, 1, 2, 3, 4, 5];
    let mesh = Mesh::with_vertices(&vertices, Some(&indices));
    let call = mesh.draw();
    assert_eq!(call.vertex_count, 6);
    assert_eq!(call.instance_count, 1);
    assert!(call.binds_index_buffer);
    assert_eq!(call.instance_buffer_slot, None);

    let plain = Mesh::with_vertices(&vertices, None);
    assert!(!plain.draw().binds_index_buffer);
}

#[test]
fn triangle_list_indices() {
    assert_eq!(sequential_indices(0), Vec::<u32>::new());
    assert_eq!(sequential_indices(6), vec![0, 1, 2, 3, 4, 5]);
}

#[test]
fn uniform_visibility_and_update() {
    let v = UniformBuffer::for_vertex(1u8);
    assert_eq!(v.get_binding().visibility, ShaderVisibility { vertex: true, fragment: false });
    let f = UniformBuffer::for_fragment(2u8);
    assert_eq!(f.get_binding().visibility, ShaderVisibility { vertex: false, fragment: true });
    let mut both = UniformBuffer::for_vertex_and_fragment([1u32, 2]);
    assert_eq!(both.get_binding().binding, 0);
    assert_eq!(both.get_binding().visibility, ShaderVisibility { vertex: true, fragment: true });
    both.update([3, 4]);
    assert_eq!(*both.data(), [3, 4]);
    assert_eq!(both.get_binding().visibility, ShaderVisibility { vertex: true, fragment: true });
    let none = UniformBuffer::new(0u8, false, false);
    assert_eq!(none.get_binding().visibility, ShaderVisibility { vertex: false, fragment: false });
}
