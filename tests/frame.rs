use fstop::draw::{
    encode_draw, BindingSource, Command, DrawError, DrawItem, PipelineRole, VertexSource,
};
use fstop::catalog::{ResourceKind, VertexKind};
use fstop::frame::{
    offscreen_extent, recovery_for, ColorLoad, FrameScene, PassTarget, Recovery, Renderer,
    SurfaceStatus,
};
use fstop::framebuffer::Extent;
use fstop::pipeline::{CompareFunction, DepthState};

fn quad() -> DrawItem {
    DrawItem { mesh: 9, element_count: 6, material: None, instances: None, instance_count: 1 }
}

fn cube() -> DrawItem {
    DrawItem { mesh: 1, element_count: 36, material: Some(2), instances: Some(3), instance_count: 4 }
}

#[test]
fn renderer_pipelines_serve_their_roles() {
    let r = Renderer::new(Extent { width: 800, height: 600 }, 4);
    let pixel = r.pipeline(PipelineRole::Pixel);
    assert_eq!(pixel.resources(), &vec![ResourceKind::Camera, ResourceKind::Material]);
    assert_eq!(
        pixel.vertex_layouts(),
        &vec![VertexKind::PositionNormalUV, VertexKind::PerInstanceTransform]
    );
    let depth = Some(DepthState { compare: CompareFunction::Less, write_enabled: true });
    assert_eq!(pixel.depth(), depth);
    let floor = r.pipeline(PipelineRole::Floor);
    assert_eq!(floor.resources(), &vec![ResourceKind::Camera]);
    assert_eq!(floor.depth(), depth);
    let fin = r.pipeline(PipelineRole::Final);
    assert_eq!(fin.resources(), &vec![ResourceKind::Framebuffer]);
    assert_eq!(fin.vertex_layouts(), &vec![VertexKind::PositionUV]);
    assert_eq!(fin.depth(), None);
}

#[test]
fn renderer_framebuffer_is_offscreen_size_and_bound() {
    let r = Renderer::new(Extent { width: 800, height: 600 }, 4);
    assert_eq!(r.framebuffer().color_target().size, Extent { width: 200, height: 150 });
    assert!(r.framebuffer().binding().is_some());
    assert_eq!(r.surface(), Extent { width: 800, height: 600 });
}

#[test]
fn offscreen_extent_divides() {
    assert_eq!(offscreen_extent(Extent { width: 1000, height: 750 }, 1), Extent { width: 1000, height: 750 });
    assert_eq!(offscreen_extent(Extent { width: 1001, height: 750 }, 4), Extent { width: 250, height: 187 });
}

#[test]
fn frame_has_offscreen_then_composite_pass() {
    let r = Renderer::new(Extent { width: 640, height: 480 }, 1);
    let floor = DrawItem { mesh: 5, element_count: 6, material: None, instances: None, instance_count: 1 };
    let scene = FrameScene { pixel_draws: vec![cube()], floor_draws: vec![floor], screen_quad: quad() };
    let passes = r.render(&scene).unwrap();
    assert_eq!(passes.len(), 2);
    assert_eq!(passes[0].target, PassTarget::Offscreen);
    assert_eq!(passes[0].color_load, ColorLoad::ClearBackground);
    assert!(passes[0].clear_depth);
    assert_eq!(
        passes[0].commands,
        vec![
            Command::SetPipeline(PipelineRole::Pixel),
            Command::SetBindGroup { index: 0, binding: BindingSource::Camera },
            Command::SetBindGroup { index: 1, binding: BindingSource::Material(2) },
            Command::SetVertexBuffer { slot: 0, buffer: VertexSource::Mesh(1) },
            Command::SetVertexBuffer { slot: 1, buffer: VertexSource::Instances(3) },
            Command::SetIndexBuffer { mesh: 1 },
            Command::DrawIndexed { element_count: 36, instance_count: 4 },
            Command::SetPipeline(PipelineRole::Floor),
            Command::SetBindGroup { index: 0, binding: BindingSource::Camera },
            Command::SetVertexBuffer { slot: 0, buffer: VertexSource::Mesh(5) },
            Command::SetIndexBuffer { mesh: 5 },
            Command::DrawIndexed { element_count: 6, instance_count: 1 },
        ]
    );
    assert_eq!(passes[1].target, PassTarget::Surface);
    assert_eq!(passes[1].color_load, ColorLoad::Load);
    assert!(!passes[1].clear_depth);
    assert_eq!(
        passes[1].commands,
        vec![
            Command::SetPipeline(PipelineRole::Final),
            Command::SetBindGroup { index: 0, binding: BindingSource::Framebuffer },
            Command::SetVertexBuffer { slot: 0, buffer: VertexSource::Mesh(9) },
            Command::SetIndexBuffer { mesh: 9 },
            Command::DrawIndexed { element_count: 6, instance_count: 1 },
        ]
    );
}

#[test]
fn empty_scene_still_composites() {
    let r = Renderer::new(Extent { width: 10, height: 10 }, 1);
    let scene = FrameScene { pixel_draws: vec![], floor_draws: vec![], screen_quad: quad() };
    let passes = r.render(&scene).unwrap();
    assert!(passes[0].commands.is_empty());
    assert_eq!(passes[1].commands.len(), 5);
}

#[test]
fn pixel_draw_without_material_fails() {
    let r = Renderer::new(Extent { width: 10, height: 10 }, 1);
    let bad = DrawItem { material: None, instances: None, ..cube() };
    let scene = FrameScene { pixel_draws: vec![cube(), bad], floor_draws: vec![], screen_quad: quad() };
    assert_eq!(r.render(&scene).err(), Some(DrawError::MissingMaterial));
}

#[test]
fn pixel_draw_without_instances_fails() {
    let r = Renderer::new(Extent { width: 10, height: 10 }, 1);
    let bad = DrawItem { instances: None, ..cube() };
    let scene = FrameScene { pixel_draws: vec![bad], floor_draws: vec![], screen_quad: quad() };
    assert_eq!(r.render(&scene).err(), Some(DrawError::MissingInstances));
}

#[test]
fn failed_encode_appends_nothing() {
    let r = Renderer::new(Extent { width: 10, height: 10 }, 1);
    let mut out = vec![Command::SetIndexBuffer { mesh: 0 }];
    let res = encode_draw(PipelineRole::Pixel, r.pipeline(PipelineRole::Pixel), &quad(), &mut out);
    assert_eq!(res, Err(DrawError::MissingMaterial));
    assert_eq!(out, vec![Command::SetIndexBuffer { mesh: 0 }]);
}

#[test]
fn resize_ignores_zero_size() {
    let mut r = Renderer::new(Extent { width: 800, height: 600 }, 2);
    let before = r.framebuffer().binding();
    assert_eq!(r.resize(Extent { width: 0, height: 600 }), None);
    assert_eq!(r.resize(Extent { width: 800, height: 0 }), None);
    assert_eq!(r.surface(), Extent { width: 800, height: 600 });
    assert_eq!(r.framebuffer().binding(), before);
}

#[test]
fn resize_recreates_framebuffer() {
    let mut r = Renderer::new(Extent { width: 800, height: 600 }, 2);
    let old_color = r.framebuffer().color_target().id;
    let retired = r.resize(Extent { width: 400, height: 300 }).unwrap();
    assert_eq!(retired.color, old_color);
    assert_eq!(r.surface(), Extent { width: 400, height: 300 });
    assert_eq!(r.framebuffer().color_target().size, Extent { width: 200, height: 150 });
    let b = r.framebuffer().binding().unwrap();
    assert_eq!(b.color, r.framebuffer().color_target().id);
    assert_ne!(b.color, old_color);
}

#[test]
fn surface_errors_are_dispatched() {
    assert_eq!(recovery_for(SurfaceStatus::Timeout), Recovery::Reconfigure);
    assert_eq!(recovery_for(SurfaceStatus::Outdated), Recovery::Reconfigure);
    assert_eq!(recovery_for(SurfaceStatus::Lost), Recovery::ResizeToCurrent);
    assert_eq!(recovery_for(SurfaceStatus::OutOfMemory), Recovery::Exit);
}
