//! The offscreen render target: a color texture, a depth texture, and the
//! binding set through which a later pass samples them.

use vstd::prelude::*;
use crate::catalog::{BindingType, ResourceKind, SamplerKind, binding_entries};

verus! {

/// How a texture is filtered when sampled.
#[derive(Clone, Copy, PartialEq, Eq, Structural, Debug)]
pub enum FilterMode {
    Nearest,
    Linear,
}

/// Which of the two targets a texture is.
#[derive(Clone, Copy, PartialEq, Eq, Structural, Debug)]
pub enum TargetRole {
    Color,
    Depth,
}

/// Names one allocation of one target. Each resize starts a new generation.
#[derive(Clone, Copy, PartialEq, Eq, Structural, Debug)]
pub struct TextureId {
    pub generation: u64,
    pub role: TargetRole,
}

/// A width and a height in texels.
#[derive(Clone, Copy, PartialEq, Eq, Structural, Debug)]
pub struct Extent {
    pub width: u32,
    pub height: u32,
}

/// One render target: which allocation it is, its size and its filtering.
#[derive(Clone, Copy, PartialEq, Eq, Structural, Debug)]
pub struct RenderTarget {
    pub id: TextureId,
    pub size: Extent,
    pub filter: FilterMode,
}

/// What one binding of a binding set refers to.
#[derive(Clone, Copy, PartialEq, Eq, Structural, Debug)]
pub enum BoundResource {
    Sampler(FilterMode),
    Texture(TextureId),
}

/// The framebuffer binding set: a sampler, the color target, the depth target.
#[derive(Clone, Copy, PartialEq, Eq, Structural, Debug)]
pub struct BindingSet {
    pub sampler: FilterMode,
    pub color: TextureId,
    pub depth: TextureId,
}

impl BindingSet {
    /// The resources in binding order.
    pub open spec fn entries(&self) -> Seq<BoundResource> {
        seq![
            BoundResource::Sampler(self.sampler),
            BoundResource::Texture(self.color),
            BoundResource::Texture(self.depth),
        ]
    }

    /// The textures it refers to.
    pub open spec fn textures(&self) -> Set<TextureId> {
        set![self.color, self.depth]
    }
}

/// A bound resource fits a binding of the given type.
pub open spec fn fits(res: BoundResource, ty: BindingType) -> bool {
    match res {
        BoundResource::Sampler(_) => ty is Sampler,
        BoundResource::Texture(id) => match id.role {
            TargetRole::Color => ty == BindingType::ColorTexture,
            TargetRole::Depth => ty == BindingType::DepthTexture,
        },
    }
}

/// The binding set that samples the given targets.
pub open spec fn binding_of(color: RenderTarget, depth: RenderTarget) -> BindingSet {
    BindingSet { sampler: color.filter, color: color.id, depth: depth.id }
}

/// The targets of a generation, at a size.
pub open spec fn targets_of(generation: u64, size: Extent, filter: FilterMode) -> (
    RenderTarget,
    RenderTarget,
) {
    (
        RenderTarget { id: TextureId { generation, role: TargetRole::Color }, size, filter },
        RenderTarget { id: TextureId { generation, role: TargetRole::Depth }, size, filter },
    )
}

/// The two textures a resize retires: the caller may free them once the new
/// binding set is in use.
#[derive(Clone, Copy, PartialEq, Eq, Structural, Debug)]
pub struct Retired {
    pub color: TextureId,
    pub depth: TextureId,
}

/// An offscreen color target and depth target of one size, and the binding
/// set that samples them once it has been built.
pub struct Framebuffer {
    generation: u64,
    color_target: RenderTarget,
    depth_target: RenderTarget,
    sampling_binding_set: Option<BindingSet>,
}

impl Framebuffer {
    pub closed spec fn generation_view(&self) -> u64 {
        self.generation
    }

    pub closed spec fn color_view(&self) -> RenderTarget {
        self.color_target
    }

    pub closed spec fn depth_view(&self) -> RenderTarget {
        self.depth_target
    }

    pub closed spec fn binding_view(&self) -> Option<BindingSet> {
        self.sampling_binding_set
    }

    /// Both targets belong to the current generation and share a size and a
    /// filter; a binding set, where there is one, samples exactly them.
    pub open spec fn wf(&self) -> bool {
        &&& (self.color_view(), self.depth_view()) == targets_of(
            self.generation_view(),
            self.color_view().size,
            self.color_view().filter,
        )
        &&& self.binding_view() is Some ==> self.binding_view()->Some_0 == binding_of(
            self.color_view(),
            self.depth_view(),
        )
    }

    /// Allocates both targets at `size`; no binding set yet.
    pub fn new(size: Extent, filter: FilterMode) -> (r: Framebuffer)
        ensures
            r.wf(),
            r.generation_view() == 0,
            (r.color_view(), r.depth_view()) == targets_of(0, size, filter),
            r.binding_view() is None,
    {
        Framebuffer {
            generation: 0,
            color_target: RenderTarget {
                id: TextureId { generation: 0, role: TargetRole::Color },
                size,
                filter,
            },
            depth_target: RenderTarget {
                id: TextureId { generation: 0, role: TargetRole::Depth },
                size,
                filter,
            },
            sampling_binding_set: None,
        }
    }

    pub fn color_target(&self) -> (r: RenderTarget)
        ensures
            r == self.color_view(),
    {
        self.color_target
    }

    pub fn depth_target(&self) -> (r: RenderTarget)
        ensures
            r == self.depth_view(),
    {
        self.depth_target
    }

    pub fn binding(&self) -> (r: Option<BindingSet>)
        ensures
            r == self.binding_view(),
    {
        self.sampling_binding_set
    }

    /// Builds the binding set of the current targets and keeps it, in place
    /// of any earlier one.
    pub fn rebuild_binding(&mut self) -> (r: BindingSet)
        requires
            old(self).wf(),
        ensures
            rebuilt(*old(self), *final(self), r),
    {
        let b = BindingSet {
            sampler: self.color_target.filter,
            color: self.color_target.id,
            depth: self.depth_target.id,
        };
        self.sampling_binding_set = Some(b);
        b
    }

    /// Allocates both targets anew at `size`, binds them, and hands back the
    /// earlier two, which no binding set of this framebuffer refers to any more.
    pub fn resize(&mut self, size: Extent) -> (r: Retired)
        requires
            old(self).wf(),
        ensures
            final(self).wf(),
            final(self).generation_view() != old(self).generation_view(),
            (final(self).color_view(), final(self).depth_view()) == targets_of(
                final(self).generation_view(),
                size,
                old(self).color_view().filter,
            ),
            final(self).binding_view() == Some(
                binding_of(final(self).color_view(), final(self).depth_view()),
            ),
            r == (Retired { color: old(self).color_view().id, depth: old(self).depth_view().id }),
            !final(self).binding_view()->Some_0.textures().contains(r.color),
            !final(self).binding_view()->Some_0.textures().contains(r.depth),
    {
        let retired = Retired { color: self.color_target.id, depth: self.depth_target.id };
        let generation = self.generation.wrapping_add(1);
        let filter = self.color_target.filter;
        self.generation = generation;
        self.color_target = RenderTarget {
            id: TextureId { generation, role: TargetRole::Color },
            size,
            filter,
        };
        self.depth_target = RenderTarget {
            id: TextureId { generation, role: TargetRole::Depth },
            size,
            filter,
        };
        self.sampling_binding_set = None;
        self.rebuild_binding();
        retired
    }
}

/// What a rebuild leaves: the same targets, and a binding set that samples them.
pub open spec fn rebuilt(before: Framebuffer, after: Framebuffer, r: BindingSet) -> bool {
    &&& after.wf()
    &&& after.generation_view() == before.generation_view()
    &&& after.color_view() == before.color_view()
    &&& after.depth_view() == before.depth_view()
    &&& r == binding_of(before.color_view(), before.depth_view())
    &&& after.binding_view() == Some(r)
}

/// Rebuilding the binding set twice, with the targets unchanged in between,
/// gives two binding sets that refer to the same resources.
pub proof fn lemma_rebuild_binding_idempotent(
    start: Framebuffer,
    once: Framebuffer,
    twice: Framebuffer,
    first: BindingSet,
    second: BindingSet,
)
    requires
        start.wf(),
        rebuilt(start, once, first),
        rebuilt(once, twice, second),
    ensures
        first.entries() == second.entries(),
        first.textures() == second.textures(),
        twice.binding_view() == once.binding_view(),
{
}

/// The framebuffer binding set fits the framebuffer binding layout, entry by entry.
pub proof fn lemma_binding_fits_layout(fb: Framebuffer)
    requires
        fb.wf(),
    ensures
        ({
            let b = binding_of(fb.color_view(), fb.depth_view());
            let layout = binding_entries(ResourceKind::Framebuffer);
            &&& b.entries().len() == layout.len()
            &&& forall|i: int| 0 <= i < layout.len() ==> fits(#[trigger] b.entries()[i], layout[i].ty)
        }),
{
    let b = binding_of(fb.color_view(), fb.depth_view());
    let layout = binding_entries(ResourceKind::Framebuffer);
    assert(fits(b.entries()[0], layout[0].ty));
    assert(layout[0].ty == BindingType::Sampler(SamplerKind::NonFiltering));
}

} // verus!
