//! One frame: an offscreen pass into the framebuffer, then a composite pass
//! that samples it onto the surface.

use vstd::prelude::*;
use crate::catalog::{Layouts, ResourceKind, VertexKind};
use crate::draw::{
    Command,
    DrawError,
    DrawItem,
    PipelineRole,
    draw_commands,
    draw_error,
    encode_draw,
    encode_draws,
    items_commands,
    items_error,
};
use crate::framebuffer::{Extent, FilterMode, Framebuffer, Retired, binding_of, targets_of};
use crate::pipeline::{PipelineSpec, depth_mode};

verus! {

/// The texture a pass draws into.
#[derive(Clone, Copy, PartialEq, Eq, Structural, Debug)]
pub enum PassTarget {
    /// The framebuffer's color and depth targets.
    Offscreen,
    /// The surface image being presented.
    Surface,
}

/// How a pass starts its color target.
#[derive(Clone, Copy, PartialEq, Eq, Structural, Debug)]
pub enum ColorLoad {
    /// Cleared to the background color, with alpha 0.
    ClearBackground,
    /// Kept as it is.
    Load,
}

/// One render pass: its target, how it starts, and its commands.
pub struct Pass {
    pub target: PassTarget,
    pub color_load: ColorLoad,
    /// Whether the pass has a depth target, cleared to the far plane (1.0).
    pub clear_depth: bool,
    pub commands: Vec<Command>,
}

/// What a frame draws.
pub struct FrameScene {
    /// Instanced geometry, drawn with the pixel pipeline.
    pub pixel_draws: Vec<DrawItem>,
    /// Further geometry, drawn with the floor pipeline.
    pub floor_draws: Vec<DrawItem>,
    /// The full-screen quad of the composite pass.
    pub screen_quad: DrawItem,
}

/// What the surface reported instead of an image.
#[derive(Clone, Copy, PartialEq, Eq, Structural, Debug)]
pub enum SurfaceStatus {
    Timeout,
    Outdated,
    Lost,
    OutOfMemory,
}

/// What the render loop does about it.
#[derive(Clone, Copy, PartialEq, Eq, Structural, Debug)]
pub enum Recovery {
    /// Reconfigure the surface and try again next frame.
    Reconfigure,
    /// Resize to the window's current size, which recreates the surface and framebuffer.
    ResizeToCurrent,
    /// Report the condition and leave the render loop.
    Exit,
}

pub open spec fn recovery_spec(status: SurfaceStatus) -> Recovery {
    match status {
        SurfaceStatus::Timeout | SurfaceStatus::Outdated => Recovery::Reconfigure,
        SurfaceStatus::Lost => Recovery::ResizeToCurrent,
        SurfaceStatus::OutOfMemory => Recovery::Exit,
    }
}

/// Outdated or timed-out surfaces are transient, a lost one needs a resize,
/// running out of memory is fatal.
pub fn recovery_for(status: SurfaceStatus) -> (r: Recovery)
    ensures
        r == recovery_spec(status),
{
    match status {
        SurfaceStatus::Timeout | SurfaceStatus::Outdated => Recovery::Reconfigure,
        SurfaceStatus::Lost => Recovery::ResizeToCurrent,
        SurfaceStatus::OutOfMemory => Recovery::Exit,
    }
}

/// The offscreen size: the surface size divided by the pixel size.
pub open spec fn offscreen_extent_spec(surface: Extent, pixel_size: u32) -> Extent {
    Extent { width: surface.width / pixel_size, height: surface.height / pixel_size }
}

pub fn offscreen_extent(surface: Extent, pixel_size: u32) -> (r: Extent)
    requires
        pixel_size > 0,
    ensures
        r == offscreen_extent_spec(surface, pixel_size),
{
    Extent { width: surface.width / pixel_size, height: surface.height / pixel_size }
}

pub open spec fn role_resources(role: PipelineRole) -> Seq<ResourceKind> {
    match role {
        PipelineRole::Pixel => seq![ResourceKind::Camera, ResourceKind::Material],
        PipelineRole::Floor => seq![ResourceKind::Camera],
        PipelineRole::Final => seq![ResourceKind::Framebuffer],
    }
}

pub open spec fn role_vertex_kinds(role: PipelineRole) -> Seq<VertexKind> {
    match role {
        PipelineRole::Pixel => seq![VertexKind::PositionNormalUV, VertexKind::PerInstanceTransform],
        PipelineRole::Floor => seq![VertexKind::PositionNormalUV],
        PipelineRole::Final => seq![VertexKind::PositionUV],
    }
}

pub open spec fn role_depth_test(role: PipelineRole) -> bool {
    role != PipelineRole::Final
}

/// The pipeline has the resources, vertex streams and depth mode of its role.
pub open spec fn serves(p: PipelineSpec, role: PipelineRole) -> bool {
    &&& p.wf()
    &&& p.resources_view() == role_resources(role)
    &&& p.vertex_kinds_view() == role_vertex_kinds(role)
    &&& p.depth_view() == depth_mode(role_depth_test(role))
}

/// The first error of a frame: pixel draws, then floor draws, then the quad.
pub open spec fn frame_error(
    pixel: Seq<DrawItem>,
    floor: Seq<DrawItem>,
    quad: DrawItem,
) -> Option<DrawError> {
    match items_error(role_resources(PipelineRole::Pixel), role_vertex_kinds(PipelineRole::Pixel), pixel) {
        Some(e) => Some(e),
        None => match items_error(
            role_resources(PipelineRole::Floor),
            role_vertex_kinds(PipelineRole::Floor),
            floor,
        ) {
            Some(e) => Some(e),
            None => draw_error(
                role_resources(PipelineRole::Final),
                role_vertex_kinds(PipelineRole::Final),
                quad,
            ),
        },
    }
}

pub open spec fn role_commands(role: PipelineRole, items: Seq<DrawItem>) -> Seq<Command> {
    items_commands(role, role_resources(role), role_vertex_kinds(role), items)
}

/// Owns the pipelines and the framebuffer of the frame, and plans each frame.
pub struct Renderer {
    layouts: Layouts,
    pixel_pipeline: PipelineSpec,
    floor_pipeline: PipelineSpec,
    final_pipeline: PipelineSpec,
    framebuffer: Framebuffer,
    surface: Extent,
    pixel_size: u32,
}

impl Renderer {
    pub closed spec fn layouts_view(&self) -> Layouts {
        self.layouts
    }

    pub closed spec fn pipeline_view(&self, role: PipelineRole) -> PipelineSpec {
        match role {
            PipelineRole::Pixel => self.pixel_pipeline,
            PipelineRole::Floor => self.floor_pipeline,
            PipelineRole::Final => self.final_pipeline,
        }
    }

    pub closed spec fn framebuffer_view(&self) -> Framebuffer {
        self.framebuffer
    }

    pub closed spec fn surface_view(&self) -> Extent {
        self.surface
    }

    pub closed spec fn pixel_size_view(&self) -> u32 {
        self.pixel_size
    }

    /// Each pipeline serves its role; the framebuffer has the offscreen size
    /// of the surface and a binding set that samples its current targets.
    pub open spec fn wf(&self) -> bool {
        &&& self.layouts_view().wf()
        &&& self.pixel_size_view() > 0
        &&& forall|role: PipelineRole| #[trigger] serves(self.pipeline_view(role), role)
        &&& self.framebuffer_view().wf()
        &&& self.framebuffer_view().color_view().size == offscreen_extent_spec(
            self.surface_view(),
            self.pixel_size_view(),
        )
        &&& self.framebuffer_view().binding_view() == Some(
            binding_of(self.framebuffer_view().color_view(), self.framebuffer_view().depth_view()),
        )
    }

    fn make_pipeline(layouts: &Layouts, role: PipelineRole) -> (r: PipelineSpec)
        requires
            layouts.wf(),
        ensures
            serves(r, role),
    {
        let mut resources: Vec<ResourceKind> = Vec::new();
        let mut kinds: Vec<VertexKind> = Vec::new();
        let label;
        match role {
            PipelineRole::Pixel => {
                resources.push(ResourceKind::Camera);
                resources.push(ResourceKind::Material);
                kinds.push(VertexKind::PositionNormalUV);
                kinds.push(VertexKind::PerInstanceTransform);
                label = "pixel_pipeline_layout";
            },
            PipelineRole::Floor => {
                resources.push(ResourceKind::Camera);
                kinds.push(VertexKind::PositionNormalUV);
                label = "floor_pipeline_layout";
            },
            PipelineRole::Final => {
                resources.push(ResourceKind::Framebuffer);
                kinds.push(VertexKind::PositionUV);
                label = "final_pipeline_layout";
            },
        }
        assert(resources@ =~= role_resources(role));
        assert(kinds@ =~= role_vertex_kinds(role));
        let depth_test = match role {
            PipelineRole::Final => false,
            _ => true,
        };
        match PipelineSpec::build(layouts, depth_test, resources, kinds, label.to_owned()) {
            Ok(p) => p,
            Err(_) => vstd::pervasive::unreached(),
        }
    }

    /// The pixel, floor and final pipelines, and a framebuffer of the offscreen
    /// size of `surface`, filtered nearest, with its binding set built.
    pub fn new(surface: Extent, pixel_size: u32) -> (r: Renderer)
        requires
            pixel_size > 0,
        ensures
            r.wf(),
            r.surface_view() == surface,
            r.pixel_size_view() == pixel_size,
            r.framebuffer_view().color_view().filter == FilterMode::Nearest,
    {
        let layouts = Layouts::new();
        let pixel_pipeline = Renderer::make_pipeline(&layouts, PipelineRole::Pixel);
        let floor_pipeline = Renderer::make_pipeline(&layouts, PipelineRole::Floor);
        let final_pipeline = Renderer::make_pipeline(&layouts, PipelineRole::Final);
        let mut framebuffer = Framebuffer::new(
            offscreen_extent(surface, pixel_size),
            FilterMode::Nearest,
        );
        framebuffer.rebuild_binding();
        let r = Renderer {
            layouts,
            pixel_pipeline,
            floor_pipeline,
            final_pipeline,
            framebuffer,
            surface,
            pixel_size,
        };
        assert forall|role: PipelineRole| #[trigger] serves(r.pipeline_view(role), role) by {
            match role {
                PipelineRole::Pixel => {},
                PipelineRole::Floor => {},
                PipelineRole::Final => {},
            }
        }
        r
    }

    pub fn layouts(&self) -> (r: &Layouts)
        requires
            self.wf(),
        ensures
            r.wf(),
            *r == self.layouts_view(),
    {
        &self.layouts
    }

    pub fn pipeline(&self, role: PipelineRole) -> (r: &PipelineSpec)
        requires
            self.wf(),
        ensures
            serves(*r, role),
            *r == self.pipeline_view(role),
    {
        assert(serves(self.pipeline_view(role), role));
        match role {
            PipelineRole::Pixel => &self.pixel_pipeline,
            PipelineRole::Floor => &self.floor_pipeline,
            PipelineRole::Final => &self.final_pipeline,
        }
    }

    pub fn framebuffer(&self) -> (r: &Framebuffer)
        ensures
            *r == self.framebuffer_view(),
    {
        &self.framebuffer
    }

    pub fn surface(&self) -> (r: Extent)
        ensures
            r == self.surface_view(),
    {
        self.surface
    }

    /// Follows the surface to a new size. A size with a zero side is ignored.
    /// Otherwise the framebuffer is recreated at the new offscreen size and
    /// bound anew, and the textures it retires are handed back.
    pub fn resize(&mut self, size: Extent) -> (r: Option<Retired>)
        requires
            old(self).wf(),
        ensures
            final(self).wf(),
            final(self).pixel_size_view() == old(self).pixel_size_view(),
            forall|role: PipelineRole|
                #[trigger] final(self).pipeline_view(role) == old(self).pipeline_view(role),
            final(self).layouts_view() == old(self).layouts_view(),
            (size.width == 0 || size.height == 0) ==> {
                &&& r is None
                &&& final(self).surface_view() == old(self).surface_view()
                &&& final(self).framebuffer_view() == old(self).framebuffer_view()
            },
            (size.width > 0 && size.height > 0) ==> {
                let fb = final(self).framebuffer_view();
                &&& final(self).surface_view() == size
                &&& fb.generation_view() != old(self).framebuffer_view().generation_view()
                &&& (fb.color_view(), fb.depth_view()) == targets_of(
                    fb.generation_view(),
                    offscreen_extent_spec(size, old(self).pixel_size_view()),
                    old(self).framebuffer_view().color_view().filter,
                )
                &&& r == Some(
                    Retired {
                        color: old(self).framebuffer_view().color_view().id,
                        depth: old(self).framebuffer_view().depth_view().id,
                    },
                )
            },
    {
        if size.width == 0 || size.height == 0 {
            return None;
        }
        self.surface = size;
        let extent = offscreen_extent(size, self.pixel_size);
        let retired = self.framebuffer.resize(extent);
        assert forall|role: PipelineRole| #[trigger] serves(self.pipeline_view(role), role) by {
            assert(self.pipeline_view(role) == old(self).pipeline_view(role));
            assert(serves(old(self).pipeline_view(role), role));
        }
        Some(retired)
    }

    /// Plans one frame. The offscreen pass clears the framebuffer's color and
    /// depth, then draws the pixel draws and the floor draws; the composite
    /// pass keeps the surface's contents and draws the full-screen quad with
    /// the final pipeline. Fails with the first draw that its pipeline cannot
    /// draw.
    pub fn render(&self, scene: &FrameScene) -> (r: Result<Vec<Pass>, DrawError>)
        requires
            self.wf(),
        ensures
            match frame_error(scene.pixel_draws@, scene.floor_draws@, scene.screen_quad) {
                Some(e) => r == Err::<Vec<Pass>, DrawError>(e),
                None => r is Ok && {
                    let passes = r->Ok_0@;
                    &&& passes.len() == 2
                    &&& passes[0].target == PassTarget::Offscreen
                    &&& passes[0].color_load == ColorLoad::ClearBackground
                    &&& passes[0].clear_depth
                    &&& passes[0].commands@ == role_commands(
                        PipelineRole::Pixel,
                        scene.pixel_draws@,
                    ) + role_commands(PipelineRole::Floor, scene.floor_draws@)
                    &&& passes[1].target == PassTarget::Surface
                    &&& passes[1].color_load == ColorLoad::Load
                    &&& !passes[1].clear_depth
                    &&& passes[1].commands@ == draw_commands(
                        PipelineRole::Final,
                        role_resources(PipelineRole::Final),
                        role_vertex_kinds(PipelineRole::Final),
                        scene.screen_quad,
                    )
                },
            },
    {
        assert(serves(self.pipeline_view(PipelineRole::Pixel), PipelineRole::Pixel));
        assert(serves(self.pipeline_view(PipelineRole::Floor), PipelineRole::Floor));
        assert(serves(self.pipeline_view(PipelineRole::Final), PipelineRole::Final));
        let mut offscreen: Vec<Command> = Vec::new();
        match encode_draws(PipelineRole::Pixel, &self.pixel_pipeline, &scene.pixel_draws, &mut offscreen) {
            Ok(()) => {},
            Err(e) => {
                return Err(e);
            },
        }
        let ghost after_pixel = offscreen@;
        match encode_draws(PipelineRole::Floor, &self.floor_pipeline, &scene.floor_draws, &mut offscreen) {
            Ok(()) => {},
            Err(e) => {
                return Err(e);
            },
        }
        let mut composite: Vec<Command> = Vec::new();
        match encode_draw(PipelineRole::Final, &self.final_pipeline, &scene.screen_quad, &mut composite) {
            Ok(()) => {},
            Err(e) => {
                return Err(e);
            },
        }
        assert(composite@ =~= draw_commands(
            PipelineRole::Final,
            role_resources(PipelineRole::Final),
            role_vertex_kinds(PipelineRole::Final),
            scene.screen_quad,
        ));
        let mut passes: Vec<Pass> = Vec::new();
        passes.push(
            Pass {
                target: PassTarget::Offscreen,
                color_load: ColorLoad::ClearBackground,
                clear_depth: true,
                commands: offscreen,
            },
        );
        passes.push(
            Pass {
                target: PassTarget::Surface,
                color_load: ColorLoad::Load,
                clear_depth: false,
                commands: composite,
            },
        );
        Ok(passes)
    }
}

} // verus!
