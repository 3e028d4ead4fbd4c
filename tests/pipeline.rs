use fstop::catalog::{Layouts, ResourceKind, StepMode, VertexFormat, VertexKind};
use fstop::pipeline::{
    depth_stencil_state, BindSlot, CompareFunction, DepthState, PipelineError, PipelineSpec,
    VertexSlot,
};

fn build(
    depth: bool,
    resources: Vec<ResourceKind>,
    kinds: Vec<VertexKind>,
) -> Result<PipelineSpec, PipelineError> {
    PipelineSpec::build(&Layouts::new(), depth, resources, kinds, "test".to_string())
}

#[test]
fn camera_position_only_pipeline() {
    let p = build(false, vec![ResourceKind::Camera], vec![VertexKind::PositionOnly]).unwrap();
    assert_eq!(p.bind_slots(), vec![BindSlot { index: 0, kind: ResourceKind::Camera }]);
    assert_eq!(p.vertex_buffers().len(), 1);
    let v = &p.vertex_buffers()[0];
    assert_eq!(v.stride, 12);
    assert_eq!(v.attributes.len(), 1);
    assert_eq!(v.attributes[0].format, VertexFormat::Float32x3);
    assert_eq!(p.depth(), None);
    assert_eq!(p.label(), "test");
}

#[test]
fn no_vertex_layouts_is_rejected() {
    let r = build(true, vec![ResourceKind::Camera], vec![]);
    assert_eq!(r.err(), Some(PipelineError::NoVertexLayouts));
}

#[test]
fn binding_sets_follow_input_order() {
    let order = vec![ResourceKind::Material, ResourceKind::Framebuffer, ResourceKind::Camera];
    let p = build(true, order.clone(), vec![VertexKind::PositionUV]).unwrap();
    let slots = p.bind_slots();
    for (i, kind) in order.iter().enumerate() {
        assert_eq!(slots[i], BindSlot { index: i, kind: *kind });
    }
    let reversed: Vec<ResourceKind> = order.iter().rev().cloned().collect();
    let q = build(true, reversed, vec![VertexKind::PositionUV]).unwrap();
    assert_eq!(q.bind_slots()[0].kind, ResourceKind::Camera);
    assert_eq!(q.resources(), &vec![ResourceKind::Camera, ResourceKind::Framebuffer, ResourceKind::Material]);
}

#[test]
fn vertex_slots_follow_input_order() {
    let kinds = vec![VertexKind::PerInstanceTransform, VertexKind::PositionNormalUV];
    let p = build(true, vec![], kinds.clone()).unwrap();
    assert_eq!(
        p.vertex_slots(),
        vec![
            VertexSlot { slot: 0, kind: VertexKind::PerInstanceTransform },
            VertexSlot { slot: 1, kind: VertexKind::PositionNormalUV }
        ]
    );
    assert_eq!(p.vertex_buffers()[0].step, StepMode::Instance);
    assert_eq!(p.vertex_buffers()[0].stride, 64);
    assert_eq!(p.vertex_buffers()[1].stride, 32);
    assert_eq!(p.vertex_layouts(), &kinds);
}

#[test]
fn depth_test_is_less_with_writes() {
    let p = build(true, vec![ResourceKind::Camera], vec![VertexKind::PositionOnly]).unwrap();
    assert_eq!(
        p.depth(),
        Some(DepthState { compare: CompareFunction::Less, write_enabled: true })
    );
}

#[test]
fn depth_stencil_state_keeps_its_arguments() {
    assert_eq!(
        depth_stencil_state(false, CompareFunction::GreaterEqual),
        DepthState { compare: CompareFunction::GreaterEqual, write_enabled: false }
    );
}
