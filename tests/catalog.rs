use fstop::catalog::{
    binding_layout, pack_layout, vertex_layout, VertexAttribute, VertexField, BindingEntry, BindingType, Layouts, ResourceKind, SamplerKind,
    ShaderStage, StepMode, VertexFormat, VertexKind,
};

#[test]
fn camera_layout_is_one_uniform() {
    let l = binding_layout(ResourceKind::Camera);
    assert_eq!(l.kind, ResourceKind::Camera);
    assert_eq!(
        l.entries,
        vec![BindingEntry { binding: 0, visibility: ShaderStage::Vertex, ty: BindingType::UniformBuffer }]
    );
}

#[test]
fn material_layout_is_sampler_texture_uniform() {
    let l = binding_layout(ResourceKind::Material);
    let tys: Vec<BindingType> = l.entries.iter().map(|e| e.ty).collect();
    assert_eq!(
        tys,
        vec![
            BindingType::Sampler(SamplerKind::Filtering),
            BindingType::ColorTexture,
            BindingType::UniformBuffer
        ]
    );
    let bindings: Vec<u32> = l.entries.iter().map(|e| e.binding).collect();
    assert_eq!(bindings, vec![0, 1, 2]);
}

#[test]
fn framebuffer_layout_is_sampler_color_depth() {
    let l = binding_layout(ResourceKind::Framebuffer);
    let tys: Vec<BindingType> = l.entries.iter().map(|e| e.ty).collect();
    assert_eq!(
        tys,
        vec![
            BindingType::Sampler(SamplerKind::NonFiltering),
            BindingType::ColorTexture,
            BindingType::DepthTexture
        ]
    );
}

#[test]
fn vertex_strides_and_steps() {
    assert_eq!(vertex_layout(VertexKind::PositionOnly).stride, 12);
    assert_eq!(vertex_layout(VertexKind::PositionUV).stride, 20);
    assert_eq!(vertex_layout(VertexKind::PositionNormalUV).stride, 32);
    let inst = vertex_layout(VertexKind::PerInstanceTransform);
    assert_eq!(inst.stride, 64);
    assert_eq!(inst.step, StepMode::Instance);
    assert_eq!(vertex_layout(VertexKind::PositionUV).step, StepMode::Vertex);
}

#[test]
fn instance_transform_is_four_columns() {
    let inst = vertex_layout(VertexKind::PerInstanceTransform);
    let offsets: Vec<u64> = inst.attributes.iter().map(|a| a.offset).collect();
    let locations: Vec<u32> = inst.attributes.iter().map(|a| a.location).collect();
    assert_eq!(offsets, vec![0, 16, 32, 48]);
    assert_eq!(locations, vec![5, 6, 7, 8]);
    assert!(inst.attributes.iter().all(|a| a.format == VertexFormat::Float32x4));
}

#[test]
fn attributes_are_packed() {
    for kind in [
        VertexKind::PositionNormalUV,
        VertexKind::PositionUV,
        VertexKind::PositionOnly,
        VertexKind::PerInstanceTransform,
    ] {
        let l = vertex_layout(kind);
        let mut offset = 0u64;
        for a in &l.attributes {
            assert_eq!(a.offset, offset);
            offset += a.format.size();
        }
        assert_eq!(offset, l.stride);
    }
}

#[test]
fn format_sizes() {
    assert_eq!(VertexFormat::Float32x2.size(), 8);
    assert_eq!(VertexFormat::Float32x3.size(), 12);
    assert_eq!(VertexFormat::Float32x4.size(), 16);
}

#[test]
fn catalog_matches_tables() {
    let layouts = Layouts::new();
    for kind in [ResourceKind::Camera, ResourceKind::Material, ResourceKind::Framebuffer] {
        assert_eq!(layouts.layout_for(kind).entries, binding_layout(kind).entries);
        assert_eq!(layouts.layout_for(kind).kind, kind);
    }
    for kind in [VertexKind::PositionNormalUV, VertexKind::PositionUV, VertexKind::PositionOnly] {
        let l = layouts.vertex_layout_for(kind);
        assert_eq!(l.kind, kind);
        assert_eq!(l.attributes, vertex_layout(kind).attributes);
    }
}

#[test]
fn pack_layout_adds_up_offsets() {
    let fields = vec![
        VertexField { format: VertexFormat::Float32x2, location: 3 },
        VertexField { format: VertexFormat::Float32x4, location: 1 },
        VertexField { format: VertexFormat::Float32x3, location: 7 },
    ];
    let l = pack_layout(VertexKind::PositionUV, StepMode::Instance, &fields);
    assert_eq!(l.stride, 36);
    assert_eq!(l.step, StepMode::Instance);
    assert_eq!(
        l.attributes,
        vec![
            VertexAttribute { offset: 0, location: 3, format: VertexFormat::Float32x2 },
            VertexAttribute { offset: 8, location: 1, format: VertexFormat::Float32x4 },
            VertexAttribute { offset: 24, location: 7, format: VertexFormat::Float32x3 },
        ]
    );
}
