//! The vocabulary of GPU resource bindings.
//!
//! A bind group layout declares numbered slots, each accepting one kind of
//! resource and visible to one shader stage; a bind group fills those slots
//! with concrete resources.  The driver rejects a group that does not fill
//! its layout, so the planner states that agreement as a spec and proves it
//! of every layout and group it emits.

use vstd::prelude::*;

verus! {

/// The pipeline stage a binding is visible to.
#[derive(Clone, Copy, Debug, PartialEq, Eq, Structural)]
pub enum ShaderStage {
    Compute,
    Fragment,
}

/// The kind of resource a layout slot accepts.
#[derive(Clone, Copy, Debug, PartialEq, Eq, Structural)]
pub enum BindingKind {
    /// A uniform buffer, bound whole, without a dynamic offset.
    UniformBuffer,
    /// A write-only storage texture the compute pass renders into.
    WriteOnlyStorageTexture,
    /// A non-filterable float texture sampled by the fragment stage.
    SampledTexture,
    /// A sampler that performs no filtering.
    NonFilteringSampler,
}

/// The four uniform buffers through which the camera reaches the GPU.
#[derive(Clone, Copy, Debug, PartialEq, Eq, Structural)]
pub enum CameraField {
    /// The eye point rays start from.
    Origin,
    /// The world-space step from one pixel center to the next along a row.
    PixelDeltaU,
    /// The world-space step from one pixel center to the next down a column.
    PixelDeltaV,
    /// The world-space center of the upper-left pixel.
    PixelCenter,
}

/// Which texture a bound view reads from or writes into.
#[derive(Clone, Copy, Debug, PartialEq, Eq, Structural)]
pub enum TextureSource {
    /// The off-screen texture the compute pass fills.
    ComputeOutput,
    /// The diagnostic image, presented in place of the compute output.
    Debug,
}

/// A concrete resource placed in a bind group slot.
#[derive(Clone, Copy, Debug, PartialEq, Eq, Structural)]
pub enum ResourceKind {
    /// One of the camera's uniform buffers, bound in its entirety.
    CameraBuffer(CameraField),
    /// A view of a whole texture.
    TextureView(TextureSource),
    /// The one sampler the renderer creates.
    Sampler,
}

/// One slot of a bind group layout.
#[derive(Clone, Copy, Debug, PartialEq, Eq, Structural)]
pub struct LayoutEntry {
    pub binding: u32,
    pub visibility: ShaderStage,
    pub kind: BindingKind,
}

/// One filled slot of a bind group.
#[derive(Clone, Copy, Debug, PartialEq, Eq, Structural)]
pub struct GroupEntry {
    pub binding: u32,
    pub resource: ResourceKind,
}

/// The bind group layouts the renderer creates, in the planner's vocabulary.
#[derive(Clone, Copy, Debug, PartialEq, Eq, Structural)]
pub enum BindGroupLayoutId {
    /// The storage-texture slot the compute pass writes through.
    ComputeTexture,
    /// The sampled-texture and sampler slots the render pass reads through.
    RenderTexture,
    /// The camera's four uniform-buffer slots.
    Camera,
}

/// A layout's slots are numbered densely from zero, in order.
pub open spec fn dense_bindings(layout: Seq<LayoutEntry>) -> bool {
    forall|i: int| 0 <= i < layout.len() ==> layout[i].binding == i
}

/// Whether a resource may occupy a slot of the given kind.  A texture view
/// serves both as a storage target and as a sampled source; buffers and
/// samplers fit only their own slots.
pub open spec fn compatible(kind: BindingKind, resource: ResourceKind) -> bool {
    match resource {
        ResourceKind::CameraBuffer(_) => kind == BindingKind::UniformBuffer,
        ResourceKind::TextureView(_) => kind == BindingKind::WriteOnlyStorageTexture || kind
            == BindingKind::SampledTexture,
        ResourceKind::Sampler => kind == BindingKind::NonFilteringSampler,
    }
}

/// A group fills a layout when it has exactly one entry per slot, in slot
/// order, each holding a resource the slot accepts.
pub open spec fn fills_layout(group: Seq<GroupEntry>, layout: Seq<LayoutEntry>) -> bool {
    &&& group.len() == layout.len()
    &&& forall|i: int| 0 <= i < group.len() ==> group[i].binding == layout[i].binding
    &&& forall|i: int| 0 <= i < group.len() ==> compatible(layout[i].kind, group[i].resource)
}

} // verus!
