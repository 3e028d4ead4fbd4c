//! The fixed tables of binding layouts and vertex layouts.

use vstd::prelude::*;

verus! {

/// A kind of resource that a pipeline reads through one binding set.
#[derive(Clone, Copy, PartialEq, Eq, Structural, Debug)]
pub enum ResourceKind {
    Camera,
    Material,
    Framebuffer,
}

/// A kind of vertex stream that a pipeline reads from one vertex-buffer slot.
#[derive(Clone, Copy, PartialEq, Eq, Structural, Debug)]
pub enum VertexKind {
    PositionNormalUV,
    PositionUV,
    PositionOnly,
    PerInstanceTransform,
}

/// The shader stage that sees a binding.
#[derive(Clone, Copy, PartialEq, Eq, Structural, Debug)]
pub enum ShaderStage {
    Vertex,
    Fragment,
}

/// Whether a sampler filters between texels.
#[derive(Clone, Copy, PartialEq, Eq, Structural, Debug)]
pub enum SamplerKind {
    Filtering,
    NonFiltering,
}

/// What one binding of a binding layout holds.
#[derive(Clone, Copy, PartialEq, Eq, Structural, Debug)]
pub enum BindingType {
    UniformBuffer,
    Sampler(SamplerKind),
    ColorTexture,
    DepthTexture,
}

/// One binding of a binding layout.
#[derive(Clone, Copy, PartialEq, Eq, Structural, Debug)]
pub struct BindingEntry {
    pub binding: u32,
    pub visibility: ShaderStage,
    pub ty: BindingType,
}

/// The element format of one vertex attribute.
#[derive(Clone, Copy, PartialEq, Eq, Structural, Debug)]
pub enum VertexFormat {
    Float32x2,
    Float32x3,
    Float32x4,
}

/// Whether a vertex stream advances per vertex or per instance.
#[derive(Clone, Copy, PartialEq, Eq, Structural, Debug)]
pub enum StepMode {
    Vertex,
    Instance,
}

/// One attribute of a vertex stream.
#[derive(Clone, Copy, PartialEq, Eq, Structural, Debug)]
pub struct VertexAttribute {
    pub offset: u64,
    pub location: u32,
    pub format: VertexFormat,
}

/// The binding layout of one resource kind.
pub struct BindingLayout {
    pub kind: ResourceKind,
    pub entries: Vec<BindingEntry>,
}

/// The layout of one vertex stream.
pub struct VertexLayout {
    pub kind: VertexKind,
    pub stride: u64,
    pub step: StepMode,
    pub attributes: Vec<VertexAttribute>,
}

/// Bytes taken by one attribute of the given format.
pub open spec fn format_size(f: VertexFormat) -> nat {
    match f {
        VertexFormat::Float32x2 => 8,
        VertexFormat::Float32x3 => 12,
        VertexFormat::Float32x4 => 16,
    }
}

impl VertexFormat {
    pub fn size(&self) -> (r: u64)
        ensures
            r == format_size(*self),
    {
        match self {
            VertexFormat::Float32x2 => 8,
            VertexFormat::Float32x3 => 12,
            VertexFormat::Float32x4 => 16,
        }
    }
}

pub open spec fn entry(binding: u32, visibility: ShaderStage, ty: BindingType) -> BindingEntry {
    BindingEntry { binding, visibility, ty }
}

/// The bindings of each resource kind, in binding order:
/// camera = {uniform @0}; material = {sampler @0, texture @1, uniform @2};
/// framebuffer = {sampler @0, color texture @1, depth texture @2}.
pub open spec fn binding_entries(kind: ResourceKind) -> Seq<BindingEntry> {
    match kind {
        ResourceKind::Camera => seq![entry(0, ShaderStage::Vertex, BindingType::UniformBuffer)],
        ResourceKind::Material => seq![
            entry(0, ShaderStage::Fragment, BindingType::Sampler(SamplerKind::Filtering)),
            entry(1, ShaderStage::Fragment, BindingType::ColorTexture),
            entry(2, ShaderStage::Fragment, BindingType::UniformBuffer),
        ],
        ResourceKind::Framebuffer => seq![
            entry(0, ShaderStage::Fragment, BindingType::Sampler(SamplerKind::NonFiltering)),
            entry(1, ShaderStage::Fragment, BindingType::ColorTexture),
            entry(2, ShaderStage::Fragment, BindingType::DepthTexture),
        ],
    }
}

pub open spec fn attr(offset: u64, location: u32, format: VertexFormat) -> VertexAttribute {
    VertexAttribute { offset, location, format }
}

/// The attributes of each vertex kind, in memory order.
pub open spec fn vertex_attributes(kind: VertexKind) -> Seq<VertexAttribute> {
    match kind {
        VertexKind::PositionNormalUV => seq![
            attr(0, 0, VertexFormat::Float32x3),
            attr(12, 1, VertexFormat::Float32x2),
            attr(20, 2, VertexFormat::Float32x3),
        ],
        VertexKind::PositionUV => seq![
            attr(0, 0, VertexFormat::Float32x3),
            attr(12, 1, VertexFormat::Float32x2),
        ],
        VertexKind::PositionOnly => seq![attr(0, 0, VertexFormat::Float32x3)],
        VertexKind::PerInstanceTransform => seq![
            attr(0, 5, VertexFormat::Float32x4),
            attr(16, 6, VertexFormat::Float32x4),
            attr(32, 7, VertexFormat::Float32x4),
            attr(48, 8, VertexFormat::Float32x4),
        ],
    }
}

/// Bytes from one element of each vertex kind to the next.
pub open spec fn vertex_stride(kind: VertexKind) -> u64 {
    match kind {
        VertexKind::PositionNormalUV => 32,
        VertexKind::PositionUV => 20,
        VertexKind::PositionOnly => 12,
        VertexKind::PerInstanceTransform => 64,
    }
}

/// Only the transform stream advances per instance.
pub open spec fn vertex_step(kind: VertexKind) -> StepMode {
    match kind {
        VertexKind::PerInstanceTransform => StepMode::Instance,
        _ => StepMode::Vertex,
    }
}

/// Attributes lie back to back from offset 0, and the stride is their total size.
pub open spec fn packed(attrs: Seq<VertexAttribute>, stride: nat) -> bool {
    &&& attrs.len() > 0
    &&& attrs[0].offset == 0
    &&& forall|i: int|
        0 <= i < attrs.len() - 1 ==> #[trigger] attrs[i + 1].offset == attrs[i].offset
            + format_size(attrs[i].format)
    &&& stride == attrs.last().offset + format_size(attrs.last().format)
}

/// Binding numbers run 0, 1, 2, ... in entry order.
pub open spec fn numbered_in_order(entries: Seq<BindingEntry>) -> bool {
    forall|i: int| 0 <= i < entries.len() ==> #[trigger] entries[i].binding == i
}

impl BindingLayout {
    pub open spec fn matches(&self, kind: ResourceKind) -> bool {
        self.kind == kind && self.entries@ == binding_entries(kind)
    }
}

impl VertexLayout {
    pub open spec fn matches(&self, kind: VertexKind) -> bool {
        &&& self.kind == kind
        &&& self.stride == vertex_stride(kind)
        &&& self.step == vertex_step(kind)
        &&& self.attributes@ == vertex_attributes(kind)
    }
}

/// A uniform-buffer binding.
pub fn uniform_bindgroup_layout_entry(binding: u32, shader_stage: ShaderStage) -> (r: BindingEntry)
    ensures
        r == entry(binding, shader_stage, BindingType::UniformBuffer),
{
    BindingEntry { binding, visibility: shader_stage, ty: BindingType::UniformBuffer }
}

/// A sampler binding.
pub fn sampler_bindgroup_layout_entry(
    binding: u32,
    sampler: SamplerKind,
    shader_stage: ShaderStage,
) -> (r: BindingEntry)
    ensures
        r == entry(binding, shader_stage, BindingType::Sampler(sampler)),
{
    BindingEntry { binding, visibility: shader_stage, ty: BindingType::Sampler(sampler) }
}

/// A sampled two-dimensional color texture binding.
pub fn texture_bindgroup_layout_entry(binding: u32, shader_stage: ShaderStage) -> (r: BindingEntry)
    ensures
        r == entry(binding, shader_stage, BindingType::ColorTexture),
{
    BindingEntry { binding, visibility: shader_stage, ty: BindingType::ColorTexture }
}

/// A sampled depth texture binding.
pub fn depth_texture_bindgroup_layout_entry(binding: u32, shader_stage: ShaderStage) -> (r:
    BindingEntry)
    ensures
        r == entry(binding, shader_stage, BindingType::DepthTexture),
{
    BindingEntry { binding, visibility: shader_stage, ty: BindingType::DepthTexture }
}

/// The binding layout of a resource kind.
pub fn binding_layout(kind: ResourceKind) -> (r: BindingLayout)
    ensures
        r.matches(kind),
        numbered_in_order(r.entries@),
{
    let mut entries: Vec<BindingEntry> = Vec::new();
    match kind {
        ResourceKind::Camera => {
            entries.push(uniform_bindgroup_layout_entry(0, ShaderStage::Vertex));
        },
        ResourceKind::Material => {
            entries.push(
                sampler_bindgroup_layout_entry(0, SamplerKind::Filtering, ShaderStage::Fragment),
            );
            entries.push(texture_bindgroup_layout_entry(1, ShaderStage::Fragment));
            entries.push(uniform_bindgroup_layout_entry(2, ShaderStage::Fragment));
        },
        ResourceKind::Framebuffer => {
            entries.push(
                sampler_bindgroup_layout_entry(0, SamplerKind::NonFiltering, ShaderStage::Fragment),
            );
            entries.push(texture_bindgroup_layout_entry(1, ShaderStage::Fragment));
            entries.push(depth_texture_bindgroup_layout_entry(2, ShaderStage::Fragment));
        },
    }
    assert(entries@ =~= binding_entries(kind));
    BindingLayout { kind, entries }
}

/// One field of a vertex: its format and shader location.
#[derive(Clone, Copy, PartialEq, Eq, Structural, Debug)]
pub struct VertexField {
    pub format: VertexFormat,
    pub location: u32,
}

/// Offset of field `n`: the sizes of the fields before it, added up.
pub open spec fn field_offset(fields: Seq<VertexField>, n: int) -> nat
    decreases n,
{
    if n <= 0 {
        0
    } else {
        field_offset(fields, n - 1) + format_size(fields[n - 1].format)
    }
}

/// The attributes of fields laid back to back in the given order.
pub open spec fn packed_attributes(fields: Seq<VertexField>) -> Seq<VertexAttribute> {
    Seq::new(
        fields.len(),
        |i: int| attr(field_offset(fields, i) as u64, fields[i].location, fields[i].format),
    )
}

proof fn lemma_field_offset_bound(fields: Seq<VertexField>, n: int)
    requires
        0 <= n,
    ensures
        field_offset(fields, n) <= 16 * n,
    decreases n,
{
    if n > 0 {
        lemma_field_offset_bound(fields, n - 1);
    }
}

/// Lays the fields out back to back, in order, from offset 0; the stride is
/// their total size.
pub fn pack_layout(kind: VertexKind, step: StepMode, fields: &Vec<VertexField>) -> (r: VertexLayout)
    requires
        0 < fields@.len() <= 0x1000_0000,
    ensures
        r.kind == kind,
        r.step == step,
        r.attributes@ == packed_attributes(fields@),
        r.stride == field_offset(fields@, fields@.len() as int),
        packed(r.attributes@, r.stride as nat),
{
    let mut attributes: Vec<VertexAttribute> = Vec::new();
    let mut offset: u64 = 0;
    let mut i: usize = 0;
    while i < fields.len()
        invariant
            i <= fields@.len() <= 0x1000_0000,
            offset == field_offset(fields@, i as int),
            attributes@ == packed_attributes(fields@).subrange(0, i as int),
        decreases fields@.len() - i,
    {
        proof {
            lemma_field_offset_bound(fields@, i as int);
        }
        let f = fields[i];
        attributes.push(VertexAttribute { offset, location: f.location, format: f.format });
        offset = offset + f.format.size();
        i = i + 1;
        assert(attributes@ =~= packed_attributes(fields@).subrange(0, i as int));
    }
    assert(attributes@ =~= packed_attributes(fields@));
    let ghost a = attributes@;
    assert forall|j: int| 0 <= j < a.len() - 1 implies #[trigger] a[j + 1].offset == a[j].offset
        + format_size(a[j].format) by {
        lemma_field_offset_bound(fields@, j);
        lemma_field_offset_bound(fields@, j + 1);
        assert(field_offset(fields@, j + 1) == field_offset(fields@, j) + format_size(
            fields@[j].format,
        ));
    }
    proof {
        lemma_field_offset_bound(fields@, a.len() - 1);
    }
    VertexLayout { kind, stride: offset, step, attributes }
}

/// The fields of each vertex kind: position, uv and normal for models; the
/// four columns of a transform matrix for instances.
pub open spec fn vertex_fields(kind: VertexKind) -> Seq<VertexField> {
    match kind {
        VertexKind::PositionNormalUV => seq![
            VertexField { format: VertexFormat::Float32x3, location: 0 },
            VertexField { format: VertexFormat::Float32x2, location: 1 },
            VertexField { format: VertexFormat::Float32x3, location: 2 },
        ],
        VertexKind::PositionUV => seq![
            VertexField { format: VertexFormat::Float32x3, location: 0 },
            VertexField { format: VertexFormat::Float32x2, location: 1 },
        ],
        VertexKind::PositionOnly => seq![VertexField { format: VertexFormat::Float32x3, location: 0 }],
        VertexKind::PerInstanceTransform => seq![
            VertexField { format: VertexFormat::Float32x4, location: 5 },
            VertexField { format: VertexFormat::Float32x4, location: 6 },
            VertexField { format: VertexFormat::Float32x4, location: 7 },
            VertexField { format: VertexFormat::Float32x4, location: 8 },
        ],
    }
}

/// The layout of a vertex kind.
pub fn vertex_layout(kind: VertexKind) -> (r: VertexLayout)
    ensures
        r.matches(kind),
        packed(r.attributes@, r.stride as nat),
{
    let mut fields: Vec<VertexField> = Vec::new();
    let step = match kind {
        VertexKind::PositionNormalUV => {
            fields.push(VertexField { format: VertexFormat::Float32x3, location: 0 });
            fields.push(VertexField { format: VertexFormat::Float32x2, location: 1 });
            fields.push(VertexField { format: VertexFormat::Float32x3, location: 2 });
            StepMode::Vertex
        },
        VertexKind::PositionUV => {
            fields.push(VertexField { format: VertexFormat::Float32x3, location: 0 });
            fields.push(VertexField { format: VertexFormat::Float32x2, location: 1 });
            StepMode::Vertex
        },
        VertexKind::PositionOnly => {
            fields.push(VertexField { format: VertexFormat::Float32x3, location: 0 });
            StepMode::Vertex
        },
        VertexKind::PerInstanceTransform => {
            let mut location: u32 = 5;
            while location < 9
                invariant
                    5 <= location <= 9,
                    fields@ == vertex_fields(kind).subrange(0, location - 5),
                    kind == VertexKind::PerInstanceTransform,
                decreases 9 - location,
            {
                fields.push(VertexField { format: VertexFormat::Float32x4, location });
                location = location + 1;
                assert(fields@ =~= vertex_fields(kind).subrange(0, location - 5));
            }
            StepMode::Instance
        },
    };
    assert(fields@ =~= vertex_fields(kind));
    let r = pack_layout(kind, step, &fields);
    reveal_with_fuel(field_offset, 5);
    assert(r.attributes@ =~= vertex_attributes(kind));
    r
}

impl VertexLayout {
    /// A copy of this layout.
    pub fn duplicate(&self) -> (r: VertexLayout)
        ensures
            r.kind == self.kind,
            r.stride == self.stride,
            r.step == self.step,
            r.attributes@ == self.attributes@,
    {
        let mut attributes: Vec<VertexAttribute> = Vec::new();
        let mut i: usize = 0;
        while i < self.attributes.len()
            invariant
                i <= self.attributes@.len(),
                attributes@ == self.attributes@.subrange(0, i as int),
            decreases self.attributes@.len() - i,
        {
            attributes.push(self.attributes[i]);
            i = i + 1;
            assert(attributes@ =~= self.attributes@.subrange(0, i as int));
        }
        assert(attributes@ =~= self.attributes@);
        VertexLayout { kind: self.kind, stride: self.stride, step: self.step, attributes }
    }
}

/// Every binding layout and vertex layout, resolved once per device.
pub struct Layouts {
    camera: BindingLayout,
    material: BindingLayout,
    framebuffer: BindingLayout,
    position_normal_uv: VertexLayout,
    position_uv: VertexLayout,
    position_only: VertexLayout,
    per_instance_transform: VertexLayout,
}

impl Layouts {
    /// Each stored layout is the table's layout of its kind.
    pub closed spec fn wf(&self) -> bool {
        &&& self.camera.matches(ResourceKind::Camera)
        &&& self.material.matches(ResourceKind::Material)
        &&& self.framebuffer.matches(ResourceKind::Framebuffer)
        &&& self.position_normal_uv.matches(VertexKind::PositionNormalUV)
        &&& self.position_uv.matches(VertexKind::PositionUV)
        &&& self.position_only.matches(VertexKind::PositionOnly)
        &&& self.per_instance_transform.matches(VertexKind::PerInstanceTransform)
        &&& packed(self.position_normal_uv.attributes@, self.position_normal_uv.stride as nat)
        &&& packed(self.position_uv.attributes@, self.position_uv.stride as nat)
        &&& packed(self.position_only.attributes@, self.position_only.stride as nat)
        &&& packed(
            self.per_instance_transform.attributes@,
            self.per_instance_transform.stride as nat,
        )
    }

    pub fn new() -> (r: Layouts)
        ensures
            r.wf(),
    {
        Layouts {
            camera: binding_layout(ResourceKind::Camera),
            material: binding_layout(ResourceKind::Material),
            framebuffer: binding_layout(ResourceKind::Framebuffer),
            position_normal_uv: vertex_layout(VertexKind::PositionNormalUV),
            position_uv: vertex_layout(VertexKind::PositionUV),
            position_only: vertex_layout(VertexKind::PositionOnly),
            per_instance_transform: vertex_layout(VertexKind::PerInstanceTransform),
        }
    }

    /// The binding layout of a resource kind.
    pub fn layout_for(&self, kind: ResourceKind) -> (r: &BindingLayout)
        requires
            self.wf(),
        ensures
            r.matches(kind),
            numbered_in_order(r.entries@),
    {
        match kind {
            ResourceKind::Camera => &self.camera,
            ResourceKind::Material => &self.material,
            ResourceKind::Framebuffer => &self.framebuffer,
        }
    }

    /// The layout of a vertex kind.
    pub fn vertex_layout_for(&self, kind: VertexKind) -> (r: &VertexLayout)
        requires
            self.wf(),
        ensures
            r.matches(kind),
            packed(r.attributes@, r.stride as nat),
    {
        match kind {
            VertexKind::PositionNormalUV => &self.position_normal_uv,
            VertexKind::PositionUV => &self.position_uv,
            VertexKind::PositionOnly => &self.position_only,
            VertexKind::PerInstanceTransform => &self.per_instance_transform,
        }
    }
}

} // verus!
