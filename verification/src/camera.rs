//! The camera's GPU interface.
//!
//! The camera reaches the compute shader through four little uniform
//! buffers: the eye point, the two per-pixel step vectors, and the center of
//! the upper-left pixel.  The world-space vectors themselves are floating
//! point and are computed outside the verified core; what is decided here is
//! everything the driver checks — which buffer sits in which binding slot,
//! how large each buffer is, and which buffers must be rewritten when the
//! viewport is resized.

use vstd::prelude::*;

use crate::bindings::BindingKind;
use crate::bindings::CameraField;
use crate::bindings::GroupEntry;
use crate::bindings::LayoutEntry;
use crate::bindings::ResourceKind;
use crate::bindings::ShaderStage;
use crate::bindings::dense_bindings;
use crate::bindings::fills_layout;

verus! {

/// Scalar components in a packed 3-vector.
pub const VEC3_COMPONENTS: u64 = 3;

/// Bytes per scalar component in the shader's storage format.
pub const BYTES_PER_COMPONENT: u64 = 4;

/// The binding slot each camera field occupies in the camera bind group.
pub open spec fn binding_index_spec(field: CameraField) -> u32 {
    match field {
        CameraField::Origin => 0,
        CameraField::PixelDeltaU => 1,
        CameraField::PixelDeltaV => 2,
        CameraField::PixelCenter => 3,
    }
}

/// The camera bind group layout: four uniform-buffer slots, numbered densely
/// from zero, all visible to the compute stage.
pub open spec fn camera_layout_spec() -> Seq<LayoutEntry> {
    seq![
        LayoutEntry {
            binding: 0,
            visibility: ShaderStage::Compute,
            kind: BindingKind::UniformBuffer,
        },
        LayoutEntry {
            binding: 1,
            visibility: ShaderStage::Compute,
            kind: BindingKind::UniformBuffer,
        },
        LayoutEntry {
            binding: 2,
            visibility: ShaderStage::Compute,
            kind: BindingKind::UniformBuffer,
        },
        LayoutEntry {
            binding: 3,
            visibility: ShaderStage::Compute,
            kind: BindingKind::UniformBuffer,
        },
    ]
}

/// The camera bind group: each field's buffer, bound whole at its slot.
pub open spec fn camera_group_spec() -> Seq<GroupEntry> {
    seq![
        GroupEntry { binding: 0, resource: ResourceKind::CameraBuffer(CameraField::Origin) },
        GroupEntry { binding: 1, resource: ResourceKind::CameraBuffer(CameraField::PixelDeltaU) },
        GroupEntry { binding: 2, resource: ResourceKind::CameraBuffer(CameraField::PixelDeltaV) },
        GroupEntry { binding: 3, resource: ResourceKind::CameraBuffer(CameraField::PixelCenter) },
    ]
}

/// The buffers a viewport resize must rewrite: both pixel steps and the
/// pixel center change with the image extent; the eye point does not move,
/// so its buffer is left alone.
pub open spec fn resize_writes_spec() -> Seq<CameraField> {
    seq![CameraField::PixelDeltaU, CameraField::PixelDeltaV, CameraField::PixelCenter]
}

/// The slot a camera field's buffer is bound at.
pub fn binding_index(field: CameraField) -> (b: u32)
    ensures
        b == binding_index_spec(field),
{
    match field {
        CameraField::Origin => 0,
        CameraField::PixelDeltaU => 1,
        CameraField::PixelDeltaV => 2,
        CameraField::PixelCenter => 3,
    }
}

/// The size in bytes of each camera uniform buffer: one packed 3-vector.
pub fn vec3_buffer_bytes() -> (n: u64)
    ensures
        n == VEC3_COMPONENTS * BYTES_PER_COMPONENT,
        n == 12,
{
    VEC3_COMPONENTS * BYTES_PER_COMPONENT
}

/// The GPU-facing integer state of the camera: the image extent its
/// viewport is shaped for.
pub struct Camera {
    pub width: u32,
    pub height: u32,
}

impl Camera {
    /// A camera targeting the given image extent.
    pub fn new(width: u32, height: u32) -> (c: Camera)
        ensures
            c.width == width,
            c.height == height,
    {
        Camera { width, height }
    }

    /// The layout of the camera bind group.
    pub fn bind_group_layout() -> (layout: Vec<LayoutEntry>)
        ensures
            layout@ == camera_layout_spec(),
            dense_bindings(layout@),
            forall|i: int|
                0 <= i < layout@.len() ==> layout@[i].visibility == ShaderStage::Compute
                    && layout@[i].kind == BindingKind::UniformBuffer,
    {
        let mut layout: Vec<LayoutEntry> = Vec::new();
        layout.push(
            LayoutEntry {
                binding: 0,
                visibility: ShaderStage::Compute,
                kind: BindingKind::UniformBuffer,
            },
        );
        layout.push(
            LayoutEntry {
                binding: 1,
                visibility: ShaderStage::Compute,
                kind: BindingKind::UniformBuffer,
            },
        );
        layout.push(
            LayoutEntry {
                binding: 2,
                visibility: ShaderStage::Compute,
                kind: BindingKind::UniformBuffer,
            },
        );
        layout.push(
            LayoutEntry {
                binding: 3,
                visibility: ShaderStage::Compute,
                kind: BindingKind::UniformBuffer,
            },
        );
        proof {
            assert(layout@ =~= camera_layout_spec());
        }
        layout
    }

    /// The camera bind group: every field bound at its declared slot.
    pub fn bind_group() -> (group: Vec<GroupEntry>)
        ensures
            group@ == camera_group_spec(),
            fills_layout(group@, camera_layout_spec()),
            forall|i: int|
                #![trigger group@[i]]
                0 <= i < group@.len() ==> (group@[i].resource matches ResourceKind::CameraBuffer(f)
                    && group@[i].binding == binding_index_spec(f)),
    {
        let mut group: Vec<GroupEntry> = Vec::new();
        group.push(GroupEntry { binding: 0, resource: ResourceKind::CameraBuffer(CameraField::Origin) });
        group.push(
            GroupEntry { binding: 1, resource: ResourceKind::CameraBuffer(CameraField::PixelDeltaU) },
        );
        group.push(
            GroupEntry { binding: 2, resource: ResourceKind::CameraBuffer(CameraField::PixelDeltaV) },
        );
        group.push(
            GroupEntry { binding: 3, resource: ResourceKind::CameraBuffer(CameraField::PixelCenter) },
        );
        proof {
            assert(group@ =~= camera_group_spec());
            lemma_camera_group_fills_layout();
        }
        group
    }

    /// Records the new image extent and names the buffers whose contents the
    /// caller must recompute and rewrite, in upload order.
    pub fn resize_viewport(&mut self, width: u32, height: u32) -> (writes: Vec<CameraField>)
        ensures
            final(self).width == width,
            final(self).height == height,
            writes@ == resize_writes_spec(),
    {
        self.width = width;
        self.height = height;
        let mut writes: Vec<CameraField> = Vec::new();
        writes.push(CameraField::PixelDeltaU);
        writes.push(CameraField::PixelDeltaV);
        writes.push(CameraField::PixelCenter);
        proof {
            assert(writes@ =~= resize_writes_spec());
        }
        writes
    }
}

/// The camera bind group fills the camera bind group layout: one entry per
/// slot, in slot order, a uniform buffer in every slot.
pub proof fn lemma_camera_group_fills_layout()
    ensures
        fills_layout(camera_group_spec(), camera_layout_spec()),
{
    assert(camera_group_spec().len() == camera_layout_spec().len());
}

} // verus!
