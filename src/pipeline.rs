//! Pipelines described by the resources and vertex streams they read.

use vstd::prelude::*;
use crate::catalog::{Layouts, ResourceKind, VertexKind, VertexLayout, packed};

verus! {

/// The comparison a depth test makes.
#[derive(Clone, Copy, PartialEq, Eq, Structural, Debug)]
pub enum CompareFunction {
    Undefined,
    Never,
    Less,
    Equal,
    LessEqual,
    Greater,
    NotEqual,
    GreaterEqual,
    Always,
}

/// The depth state of a pipeline that tests depth.
#[derive(Clone, Copy, PartialEq, Eq, Structural, Debug)]
pub struct DepthState {
    pub compare: CompareFunction,
    pub write_enabled: bool,
}

pub fn depth_stencil_state(depth_write_enabled: bool, depth_compare: CompareFunction) -> (r:
    DepthState)
    ensures
        r == (DepthState { compare: depth_compare, write_enabled: depth_write_enabled }),
{
    DepthState { compare: depth_compare, write_enabled: depth_write_enabled }
}

/// The one depth mode there is: less-than, with writes.
pub open spec fn depth_mode(depth_test: bool) -> Option<DepthState> {
    if depth_test {
        Some(DepthState { compare: CompareFunction::Less, write_enabled: true })
    } else {
        None
    }
}

/// Why a pipeline cannot be built.
#[derive(Clone, Copy, PartialEq, Eq, Structural, Debug)]
pub enum PipelineError {
    /// No vertex stream was named, so there is no position stream to draw from.
    NoVertexLayouts,
}

/// The binding set that a draw binds at one set index.
#[derive(Clone, Copy, PartialEq, Eq, Structural, Debug)]
pub struct BindSlot {
    pub index: usize,
    pub kind: ResourceKind,
}

/// The vertex stream that a draw binds at one vertex-buffer slot.
#[derive(Clone, Copy, PartialEq, Eq, Structural, Debug)]
pub struct VertexSlot {
    pub slot: usize,
    pub kind: VertexKind,
}

/// Resource `i` binds at set index `i`.
pub open spec fn bind_slots_of(resources: Seq<ResourceKind>) -> Seq<BindSlot> {
    Seq::new(resources.len(), |i: int| BindSlot { index: i as usize, kind: resources[i] })
}

/// Vertex stream `i` binds at vertex-buffer slot `i`.
pub open spec fn vertex_slots_of(kinds: Seq<VertexKind>) -> Seq<VertexSlot> {
    Seq::new(kinds.len(), |i: int| VertexSlot { slot: i as usize, kind: kinds[i] })
}

/// A vertex-buffer slot holds the packed layout of its vertex kind.
pub open spec fn slot_holds(layout: VertexLayout, kind: VertexKind) -> bool {
    layout.matches(kind) && packed(layout.attributes@, layout.stride as nat)
}

/// A built pipeline: its label, depth state, and the resources and vertex
/// streams it reads, in binding order. It does not change once built.
pub struct PipelineSpec {
    label: String,
    depth: Option<DepthState>,
    resources: Vec<ResourceKind>,
    vertex_kinds: Vec<VertexKind>,
    vertex_buffers: Vec<VertexLayout>,
}

impl PipelineSpec {
    pub closed spec fn label_view(&self) -> Seq<char> {
        self.label@
    }

    pub closed spec fn depth_view(&self) -> Option<DepthState> {
        self.depth
    }

    /// The resource kinds; the one at index `i` occupies binding set `i`.
    pub closed spec fn resources_view(&self) -> Seq<ResourceKind> {
        self.resources@
    }

    /// The vertex kinds; the one at index `i` occupies vertex-buffer slot `i`.
    pub closed spec fn vertex_kinds_view(&self) -> Seq<VertexKind> {
        self.vertex_kinds@
    }

    /// The vertex layouts, one per vertex-buffer slot.
    pub closed spec fn vertex_buffers_view(&self) -> Seq<VertexLayout> {
        self.vertex_buffers@
    }

    /// At least one vertex stream, and slot `i` holds the layout of vertex kind `i`.
    pub open spec fn wf(&self) -> bool {
        &&& self.vertex_kinds_view().len() > 0
        &&& self.vertex_buffers_view().len() == self.vertex_kinds_view().len()
        &&& forall|i: int|
            0 <= i < self.vertex_kinds_view().len() ==> slot_holds(
                #[trigger] self.vertex_buffers_view()[i],
                self.vertex_kinds_view()[i],
            )
    }

    /// Resolves the resource kinds and vertex kinds against the catalog, in the
    /// order given. Fails when no vertex kind is given.
    pub fn build(
        layouts: &Layouts,
        depth_test: bool,
        resources: Vec<ResourceKind>,
        vertex_layouts: Vec<VertexKind>,
        label: String,
    ) -> (r: Result<PipelineSpec, PipelineError>)
        requires
            layouts.wf(),
        ensures
            match r {
                Ok(p) => {
                    &&& vertex_layouts@.len() > 0
                    &&& p.wf()
                    &&& p.resources_view() == resources@
                    &&& p.vertex_kinds_view() == vertex_layouts@
                    &&& p.depth_view() == depth_mode(depth_test)
                    &&& p.label_view() == label@
                },
                Err(e) => vertex_layouts@.len() == 0 && e == PipelineError::NoVertexLayouts,
            },
    {
        if vertex_layouts.len() == 0 {
            return Err(PipelineError::NoVertexLayouts);
        }
        let mut vertex_buffers: Vec<VertexLayout> = Vec::new();
        let mut i: usize = 0;
        while i < vertex_layouts.len()
            invariant
                layouts.wf(),
                i <= vertex_layouts@.len(),
                vertex_buffers@.len() == i,
                forall|j: int|
                    0 <= j < i ==> slot_holds(#[trigger] vertex_buffers@[j], vertex_layouts@[j]),
            decreases vertex_layouts@.len() - i,
        {
            let layout = layouts.vertex_layout_for(vertex_layouts[i]).duplicate();
            let ghost before = vertex_buffers@;
            vertex_buffers.push(layout);
            assert forall|j: int| 0 <= j <= i implies slot_holds(
                #[trigger] vertex_buffers@[j],
                vertex_layouts@[j],
            ) by {
                if j < i {
                    assert(vertex_buffers@[j] == before[j]);
                }
            }
            i = i + 1;
        }
        let depth = if depth_test {
            Some(depth_stencil_state(true, CompareFunction::Less))
        } else {
            None
        };
        Ok(PipelineSpec { label, depth, resources, vertex_kinds: vertex_layouts, vertex_buffers })
    }

    pub fn label(&self) -> (r: &String)
        ensures
            r@ == self.label_view(),
    {
        &self.label
    }

    pub fn depth(&self) -> (r: Option<DepthState>)
        ensures
            r == self.depth_view(),
    {
        self.depth
    }

    pub fn resources(&self) -> (r: &Vec<ResourceKind>)
        ensures
            r@ == self.resources_view(),
    {
        &self.resources
    }

    pub fn vertex_layouts(&self) -> (r: &Vec<VertexKind>)
        ensures
            r@ == self.vertex_kinds_view(),
    {
        &self.vertex_kinds
    }

    pub fn vertex_buffers(&self) -> (r: &Vec<VertexLayout>)
        ensures
            r@ == self.vertex_buffers_view(),
    {
        &self.vertex_buffers
    }

    /// The set index at which each resource binds, from the pipeline's own list.
    pub fn bind_slots(&self) -> (r: Vec<BindSlot>)
        ensures
            r@ == bind_slots_of(self.resources_view()),
    {
        let mut r: Vec<BindSlot> = Vec::new();
        let mut i: usize = 0;
        while i < self.resources.len()
            invariant
                i <= self.resources@.len(),
                r@ == bind_slots_of(self.resources@).subrange(0, i as int),
            decreases self.resources@.len() - i,
        {
            r.push(BindSlot { index: i, kind: self.resources[i] });
            i = i + 1;
            assert(r@ =~= bind_slots_of(self.resources@).subrange(0, i as int));
        }
        assert(r@ =~= bind_slots_of(self.resources@));
        r
    }

    /// The vertex-buffer slot of each vertex stream, from the pipeline's own list.
    pub fn vertex_slots(&self) -> (r: Vec<VertexSlot>)
        ensures
            r@ == vertex_slots_of(self.vertex_kinds_view()),
    {
        let mut r: Vec<VertexSlot> = Vec::new();
        let mut i: usize = 0;
        while i < self.vertex_kinds.len()
            invariant
                i <= self.vertex_kinds@.len(),
                r@ == vertex_slots_of(self.vertex_kinds@).subrange(0, i as int),
            decreases self.vertex_kinds@.len() - i,
        {
            r.push(VertexSlot { slot: i, kind: self.vertex_kinds[i] });
            i = i + 1;
            assert(r@ =~= vertex_slots_of(self.vertex_kinds@).subrange(0, i as int));
        }
        assert(r@ =~= vertex_slots_of(self.vertex_kinds@));
        r
    }
}

} // verus!
