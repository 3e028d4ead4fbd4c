//! Draw commands derived from a pipeline's own metadata.

use vstd::prelude::*;
use crate::catalog::{ResourceKind, VertexKind};
use crate::pipeline::{BindSlot, PipelineSpec, VertexSlot, bind_slots_of, slot_holds, vertex_slots_of};

verus! {

/// The pipelines of a frame.
#[derive(Clone, Copy, PartialEq, Eq, Structural, Debug)]
pub enum PipelineRole {
    /// Instanced, depth-tested geometry drawn into the offscreen target.
    Pixel,
    /// Non-instanced, depth-tested geometry drawn into the offscreen target.
    Floor,
    /// The full-screen quad that samples the offscreen target.
    Final,
}

/// What a binding-set index is bound to.
#[derive(Clone, Copy, PartialEq, Eq, Structural, Debug)]
pub enum BindingSource {
    Camera,
    Material(usize),
    Framebuffer,
}

/// What a vertex-buffer slot is bound to.
#[derive(Clone, Copy, PartialEq, Eq, Structural, Debug)]
pub enum VertexSource {
    Mesh(usize),
    Instances(usize),
}

/// One draw: a mesh, its material and instance set if any, and the counts.
#[derive(Clone, Copy, PartialEq, Eq, Structural, Debug)]
pub struct DrawItem {
    pub mesh: usize,
    pub element_count: u32,
    pub material: Option<usize>,
    pub instances: Option<usize>,
    pub instance_count: u32,
}

/// One command of a render pass.
#[derive(Clone, Copy, PartialEq, Eq, Structural, Debug)]
pub enum Command {
    SetPipeline(PipelineRole),
    SetBindGroup { index: usize, binding: BindingSource },
    SetVertexBuffer { slot: usize, buffer: VertexSource },
    SetIndexBuffer { mesh: usize },
    DrawIndexed { element_count: u32, instance_count: u32 },
}

/// Why a draw cannot be encoded with a pipeline.
#[derive(Clone, Copy, PartialEq, Eq, Structural, Debug)]
pub enum DrawError {
    /// The pipeline reads a material and the draw has none.
    MissingMaterial,
    /// The pipeline reads an instance stream and the draw has none.
    MissingInstances,
}

pub open spec fn reads_resource(resources: Seq<ResourceKind>, kind: ResourceKind) -> bool {
    exists|i: int| 0 <= i < resources.len() && resources[i] == kind
}

pub open spec fn reads_vertex(kinds: Seq<VertexKind>, kind: VertexKind) -> bool {
    exists|i: int| 0 <= i < kinds.len() && kinds[i] == kind
}

/// The error of a draw, if any: a missing material comes first.
pub open spec fn draw_error(
    resources: Seq<ResourceKind>,
    kinds: Seq<VertexKind>,
    item: DrawItem,
) -> Option<DrawError> {
    if reads_resource(resources, ResourceKind::Material) && item.material is None {
        Some(DrawError::MissingMaterial)
    } else if reads_vertex(kinds, VertexKind::PerInstanceTransform) && item.instances is None {
        Some(DrawError::MissingInstances)
    } else {
        None
    }
}

pub open spec fn binding_source(kind: ResourceKind, item: DrawItem) -> BindingSource {
    match kind {
        ResourceKind::Camera => BindingSource::Camera,
        ResourceKind::Material => BindingSource::Material(item.material->Some_0),
        ResourceKind::Framebuffer => BindingSource::Framebuffer,
    }
}

pub open spec fn vertex_source(kind: VertexKind, item: DrawItem) -> VertexSource {
    match kind {
        VertexKind::PerInstanceTransform => VertexSource::Instances(item.instances->Some_0),
        _ => VertexSource::Mesh(item.mesh),
    }
}

/// Resource `i` is bound at set index `i`.
pub open spec fn bind_commands(resources: Seq<ResourceKind>, item: DrawItem) -> Seq<Command> {
    Seq::new(
        resources.len(),
        |i: int| Command::SetBindGroup { index: i as usize, binding: binding_source(resources[i], item) },
    )
}

/// Vertex stream `i` is bound at vertex-buffer slot `i`.
pub open spec fn vertex_commands(kinds: Seq<VertexKind>, item: DrawItem) -> Seq<Command> {
    Seq::new(
        kinds.len(),
        |i: int| Command::SetVertexBuffer { slot: i as usize, buffer: vertex_source(kinds[i], item) },
    )
}

/// The commands of one draw: the pipeline, its binding sets and vertex streams
/// in the pipeline's own order, the index buffer, and the draw itself.
pub open spec fn draw_commands(
    role: PipelineRole,
    resources: Seq<ResourceKind>,
    kinds: Seq<VertexKind>,
    item: DrawItem,
) -> Seq<Command> {
    seq![Command::SetPipeline(role)] + bind_commands(resources, item) + vertex_commands(kinds, item)
        + seq![
        Command::SetIndexBuffer { mesh: item.mesh },
        Command::DrawIndexed { element_count: item.element_count, instance_count: item.instance_count },
    ]
}

/// The first error among draws, in order.
pub open spec fn items_error(
    resources: Seq<ResourceKind>,
    kinds: Seq<VertexKind>,
    items: Seq<DrawItem>,
) -> Option<DrawError>
    decreases items.len(),
{
    if items.len() == 0 {
        None
    } else {
        match items_error(resources, kinds, items.drop_last()) {
            Some(e) => Some(e),
            None => draw_error(resources, kinds, items.last()),
        }
    }
}

/// The commands of several draws, one after another.
pub open spec fn items_commands(
    role: PipelineRole,
    resources: Seq<ResourceKind>,
    kinds: Seq<VertexKind>,
    items: Seq<DrawItem>,
) -> Seq<Command>
    decreases items.len(),
{
    if items.len() == 0 {
        seq![]
    } else {
        items_commands(role, resources, kinds, items.drop_last()) + draw_commands(
            role,
            resources,
            kinds,
            items.last(),
        )
    }
}

fn needs_resource(resources: &Vec<ResourceKind>, kind: ResourceKind) -> (r: bool)
    ensures
        r == reads_resource(resources@, kind),
{
    let mut i: usize = 0;
    while i < resources.len()
        invariant
            i <= resources@.len(),
            forall|j: int| 0 <= j < i ==> resources@[j] != kind,
        decreases resources@.len() - i,
    {
        if resources[i] == kind {
            return true;
        }
        i = i + 1;
    }
    false
}

fn needs_vertex(kinds: &Vec<VertexKind>, kind: VertexKind) -> (r: bool)
    ensures
        r == reads_vertex(kinds@, kind),
{
    let mut i: usize = 0;
    while i < kinds.len()
        invariant
            i <= kinds@.len(),
            forall|j: int| 0 <= j < i ==> kinds@[j] != kind,
        decreases kinds@.len() - i,
    {
        if kinds[i] == kind {
            return true;
        }
        i = i + 1;
    }
    false
}

/// Appends the commands of one draw with `pipeline` to `out`, binding each
/// resource and vertex stream at the index the pipeline gives it. On error
/// nothing is appended.
pub fn encode_draw(
    role: PipelineRole,
    pipeline: &PipelineSpec,
    item: &DrawItem,
    out: &mut Vec<Command>,
) -> (r: Result<(), DrawError>)
    ensures
        match draw_error(pipeline.resources_view(), pipeline.vertex_kinds_view(), *item) {
            Some(e) => r == Err::<(), DrawError>(e) && final(out)@ == old(out)@,
            None => r is Ok && final(out)@ == old(out)@ + draw_commands(
                role,
                pipeline.resources_view(),
                pipeline.vertex_kinds_view(),
                *item,
            ),
        },
{
    let resources = pipeline.resources();
    let kinds = pipeline.vertex_layouts();
    if item.material.is_none() && needs_resource(resources, ResourceKind::Material) {
        return Err(DrawError::MissingMaterial);
    }
    if item.instances.is_none() && needs_vertex(kinds, VertexKind::PerInstanceTransform) {
        return Err(DrawError::MissingInstances);
    }
    let ghost start = out@;
    out.push(Command::SetPipeline(role));
    let mut i: usize = 0;
    while i < resources.len()
        invariant
            i <= resources@.len(),
            resources@ == pipeline.resources_view(),
            draw_error(pipeline.resources_view(), pipeline.vertex_kinds_view(), *item) is None,
            out@ == start + seq![Command::SetPipeline(role)] + bind_commands(
                resources@,
                *item,
            ).subrange(0, i as int),
        decreases resources@.len() - i,
    {
        let source = match resources[i] {
            ResourceKind::Camera => BindingSource::Camera,
            ResourceKind::Material => {
                assert(reads_resource(resources@, ResourceKind::Material));
                BindingSource::Material(item.material.unwrap())
            },
            ResourceKind::Framebuffer => BindingSource::Framebuffer,
        };
        out.push(Command::SetBindGroup { index: i, binding: source });
        i = i + 1;
        assert(bind_commands(resources@, *item).subrange(0, i as int) =~= bind_commands(
            resources@,
            *item,
        ).subrange(0, i - 1 as int).push(Command::SetBindGroup { index: (i - 1) as usize, binding: source }));
    }
    assert(bind_commands(resources@, *item).subrange(0, i as int) =~= bind_commands(
        resources@,
        *item,
    ));
    let ghost binds = out@;
    let mut j: usize = 0;
    while j < kinds.len()
        invariant
            j <= kinds@.len(),
            kinds@ == pipeline.vertex_kinds_view(),
            draw_error(pipeline.resources_view(), pipeline.vertex_kinds_view(), *item) is None,
            out@ == binds + vertex_commands(kinds@, *item).subrange(0, j as int),
        decreases kinds@.len() - j,
    {
        let source = match kinds[j] {
            VertexKind::PerInstanceTransform => {
                assert(reads_vertex(kinds@, VertexKind::PerInstanceTransform));
                VertexSource::Instances(item.instances.unwrap())
            },
            _ => VertexSource::Mesh(item.mesh),
        };
        out.push(Command::SetVertexBuffer { slot: j, buffer: source });
        j = j + 1;
        assert(vertex_commands(kinds@, *item).subrange(0, j as int) =~= vertex_commands(
            kinds@,
            *item,
        ).subrange(0, j - 1 as int).push(Command::SetVertexBuffer { slot: (j - 1) as usize, buffer: source }));
    }
    assert(vertex_commands(kinds@, *item).subrange(0, j as int) =~= vertex_commands(kinds@, *item));
    out.push(Command::SetIndexBuffer { mesh: item.mesh });
    out.push(
        Command::DrawIndexed { element_count: item.element_count, instance_count: item.instance_count },
    );
    assert(out@ =~= start + draw_commands(role, resources@, kinds@, *item));
    Ok(())
}

/// Appends the commands of each draw in turn. Stops at the first draw that
/// cannot be encoded, and then reports its error.
pub fn encode_draws(
    role: PipelineRole,
    pipeline: &PipelineSpec,
    items: &Vec<DrawItem>,
    out: &mut Vec<Command>,
) -> (r: Result<(), DrawError>)
    ensures
        match items_error(pipeline.resources_view(), pipeline.vertex_kinds_view(), items@) {
            Some(e) => r == Err::<(), DrawError>(e),
            None => r is Ok && final(out)@ == old(out)@ + items_commands(
                role,
                pipeline.resources_view(),
                pipeline.vertex_kinds_view(),
                items@,
            ),
        },
{
    let ghost res = pipeline.resources_view();
    let ghost kinds = pipeline.vertex_kinds_view();
    let ghost start = out@;
    let mut i: usize = 0;
    while i < items.len()
        invariant
            i <= items@.len(),
            res == pipeline.resources_view(),
            kinds == pipeline.vertex_kinds_view(),
            items_error(res, kinds, items@.subrange(0, i as int)) is None,
            out@ == start + items_commands(role, res, kinds, items@.subrange(0, i as int)),
        decreases items@.len() - i,
    {
        let ghost prefix = items@.subrange(0, i as int);
        let ghost next = items@.subrange(0, i + 1 as int);
        assert(next.drop_last() =~= prefix);
        assert(next.last() == items@[i as int]);
        match encode_draw(role, pipeline, &items[i], out) {
            Ok(()) => {},
            Err(e) => {
                proof {
                    lemma_items_error_extends(res, kinds, items@, i as int + 1);
                }
                return Err(e);
            },
        }
        i = i + 1;
        assert(out@ =~= start + items_commands(role, res, kinds, items@.subrange(0, i as int)));
    }
    assert(items@.subrange(0, i as int) =~= items@);
    Ok(())
}

/// Whatever resource kinds a pipeline is built from, the one at position `i`
/// binds at set index `i`: in the pipeline's bind slots, and in the commands
/// of every draw encoded with the pipeline, right after the pipeline is set.
pub proof fn lemma_binding_sets_follow_input_order(
    pipeline: PipelineSpec,
    resources: Seq<ResourceKind>,
    role: PipelineRole,
    item: DrawItem,
)
    requires
        pipeline.resources_view() == resources,
    ensures
        forall|i: int|
            0 <= i < resources.len() ==> {
                &&& #[trigger] bind_slots_of(pipeline.resources_view())[i] == (BindSlot {
                    index: i as usize,
                    kind: resources[i],
                })
                &&& draw_commands(role, pipeline.resources_view(), pipeline.vertex_kinds_view(), item)[i
                    + 1] == (Command::SetBindGroup {
                    index: i as usize,
                    binding: binding_source(resources[i], item),
                })
            },
{
}

/// Whatever vertex kinds a pipeline is built from, vertex-buffer slot `j` holds
/// the layout of the one at position `j`, and every draw encoded with the
/// pipeline binds that stream at slot `j`, after the binding sets.
pub proof fn lemma_vertex_slots_follow_input_order(
    pipeline: PipelineSpec,
    kinds: Seq<VertexKind>,
    role: PipelineRole,
    item: DrawItem,
)
    requires
        pipeline.wf(),
        pipeline.vertex_kinds_view() == kinds,
    ensures
        forall|j: int|
            0 <= j < kinds.len() ==> {
                &&& #[trigger] vertex_slots_of(pipeline.vertex_kinds_view())[j] == (VertexSlot {
                    slot: j as usize,
                    kind: kinds[j],
                })
                &&& slot_holds(pipeline.vertex_buffers_view()[j], kinds[j])
                &&& draw_commands(role, pipeline.resources_view(), pipeline.vertex_kinds_view(), item)[j
                    + 1 + pipeline.resources_view().len()] == (Command::SetVertexBuffer {
                    slot: j as usize,
                    buffer: vertex_source(kinds[j], item),
                })
            },
{
    assert forall|j: int| 0 <= j < kinds.len() implies slot_holds(
        pipeline.vertex_buffers_view()[j],
        kinds[j],
    ) by {
        assert(slot_holds(pipeline.vertex_buffers_view()[j], pipeline.vertex_kinds_view()[j]));
    }
}

/// An error in a prefix of the draws is the error of all of them.
proof fn lemma_items_error_extends(
    resources: Seq<ResourceKind>,
    kinds: Seq<VertexKind>,
    items: Seq<DrawItem>,
    n: int,
)
    requires
        0 <= n <= items.len(),
        items_error(resources, kinds, items.subrange(0, n)) is Some,
    ensures
        items_error(resources, kinds, items) == items_error(resources, kinds, items.subrange(0, n)),
    decreases items.len() - n,
{
    if n < items.len() {
        let next = items.subrange(0, n + 1);
        assert(next.drop_last() =~= items.subrange(0, n));
        lemma_items_error_extends(resources, kinds, items, n + 1);
    } else {
        assert(items.subrange(0, n) =~= items);
    }
}

} // verus!
