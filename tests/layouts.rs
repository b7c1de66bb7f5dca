use sphynx::layout::{
    model_instance_layout, packed_layout, pcn_vertex_layout, vertex_attr_array, VertexAttribute,
    VertexFormat, VertexStepMode,
};
use sphynx::pipeline::{CompareFunction, DepthState, PipelineConfig};
use sphynx::uniform_buffer::UniformBuffer;

fn attr(format: VertexFormat, offset: u64, shader_location: u32) -> VertexAttribute {
    VertexAttribute { format, offset, shader_location }
}

#[test]
fn format_sizes() {
    assert_eq!(VertexFormat::Float32.size(), 4);
    assert_eq!(VertexFormat::Float32x2.size(), 8);
    assert_eq!(VertexFormat::Float32x3.size(), 12);
    assert_eq!(VertexFormat::Float32x4.size(), 16);
}

#[test]
fn attributes_are_packed_in_order() {
    let attrs = vertex_attr_array(&[(3, VertexFormat::Float32x2), (0, VertexFormat::Float32), (1, VertexFormat::Float32x4)]);
    assert_eq!(
        attrs,
        vec![attr(VertexFormat::Float32x2, 0, 3), attr(VertexFormat::Float32, 8, 0), attr(VertexFormat::Float32x4, 12, 1)]
    );
    let layout = packed_layout(VertexStepMode::Vertex, &[]);
    assert_eq!(layout.array_stride, 0);
    assert!(layout.attributes.is_empty());
}

#[test]
fn vertex_layout() {
    let layout = pcn_vertex_layout();
    assert_eq!(layout.array_stride, 36);
    assert_eq!(layout.step_mode, VertexStepMode::Vertex);
    assert_eq!(
        layout.attributes,
        vec![
            attr(VertexFormat::Float32x3, 0, 0),
            attr(VertexFormat::Float32x3, 12, 1),
            attr(VertexFormat::Float32x3, 24, 2),
        ]
    );
}

#[test]
fn instance_layout() {
    let layout = model_instance_layout();
    assert_eq!(layout.array_stride, 100);
    assert_eq!(layout.step_mode, VertexStepMode::Instance);
    let offsets: Vec<u64> = layout.attributes.iter().map(|a| a.offset).collect();
    assert_eq!(offsets, vec![0, 16, 32, 48, 64, 76, 88]);
    let locations: Vec<u32> = layout.attributes.iter().map(|a| a.shader_location).collect();
    assert_eq!(locations, vec![5, 6, 7, 8, 9, 10, 11]);
}

#[test]
fn pipeline_with_instances_and_depth() {
    let camera = UniformBuffer::for_vertex_and_fragment(0u8);
    let light = UniformBuffer::for_fragment(0u8);
    let config = PipelineConfig::new(
        pcn_vertex_layout(),
        Some(model_instance_layout()),
        vec![camera.get_binding(), light.get_binding()],
        true,
    );
    assert_eq!(config.vertex_buffers.len(), 2);
    assert_eq!(config.vertex_buffers[0].array_stride, 36);
    assert_eq!(config.vertex_buffers[1].step_mode, VertexStepMode::Instance);
    assert_eq!(config.bind_groups.len(), 2);
    assert!(config.cull_back_faces);
    assert_eq!(config.depth, Some(DepthState { write_enabled: true, compare: CompareFunction::LessEqual }));
    assert_eq!(config.vertex_entry, "vs_main");
    assert_eq!(config.fragment_entry, "fs_main");
}

#[test]
fn pipeline_without_instances_or_depth() {
    let config = PipelineConfig::new(pcn_vertex_layout(), None, vec![], false);
    assert_eq!(config.vertex_buffers.len(), 1);
    assert_eq!(config.depth, None);
}
