//! Per-frame and per-resize orchestration plans.
//!
//! A frame is one compute dispatch that fills the off-screen texture — one
//! workgroup per pixel — followed by one render pass that clears the
//! surface and draws the full-screen quad.  A resize retargets the surface
//! configuration, the off-screen texture and the camera to the same new
//! extent.  The plans here pin the slot numbers, dispatch counts and draw
//! ranges the passes are recorded with.

use vstd::prelude::*;

use crate::bindings::BindGroupLayoutId;
use crate::bindings::CameraField;
use crate::bindings::fills_layout;
use crate::camera::Camera;
use crate::camera::camera_group_spec;
use crate::camera::camera_layout_spec;
use crate::camera::lemma_camera_group_fills_layout;
use crate::camera::resize_writes_spec;
use crate::surface::SurfaceConfigPlan;
use crate::texture::TexturePlan;
use crate::texture::build_texture;
use crate::texture::compute_texture_group_spec;
use crate::texture::compute_texture_layout_spec;
use crate::texture::lemma_texture_groups_fill_layouts;
use crate::texture::render_texture_group_spec;
use crate::texture::render_texture_layout_spec;
use crate::texture::storage_target_spec;

verus! {

/// A compute dispatch size, in workgroups per axis.
#[derive(Clone, Copy, Debug, PartialEq, Eq, Structural)]
pub struct WorkgroupCount {
    pub x: u32,
    pub y: u32,
    pub z: u32,
}

/// A half-open range of vertex or instance indices.
#[derive(Clone, Copy, Debug, PartialEq, Eq, Structural)]
pub struct DrawRange {
    pub start: u32,
    pub end: u32,
}

/// One draw call of the render pass.
#[derive(Clone, Copy, Debug, PartialEq, Eq, Structural)]
pub struct DrawCall {
    pub vertices: DrawRange,
    pub instances: DrawRange,
}

/// The recorded shape of the compute pass.
#[derive(Clone, Copy, Debug, PartialEq, Eq, Structural)]
pub struct ComputePassPlan {
    /// The slot the off-screen texture's group is bound at.
    pub texture_group_slot: u32,
    /// The slot the camera's group is bound at.
    pub camera_group_slot: u32,
    pub workgroups: WorkgroupCount,
}

/// The recorded shape of the render pass.
#[derive(Clone, Copy, Debug, PartialEq, Eq, Structural)]
pub struct RenderPassPlan {
    /// The slot the sampled texture's group is bound at.
    pub texture_group_slot: u32,
    /// The surface is cleared to opaque black before the quad is drawn.
    pub clear_to_opaque_black: bool,
    pub draw: DrawCall,
}

/// One frame: the compute pass, then the render pass.
#[derive(Clone, Copy, Debug, PartialEq, Eq, Structural)]
pub struct FramePlan {
    pub compute: ComputePassPlan,
    pub render: RenderPassPlan,
}

/// The bind group layouts of the compute pipeline, in slot order.
pub open spec fn compute_pipeline_layout_spec() -> Seq<BindGroupLayoutId> {
    seq![BindGroupLayoutId::ComputeTexture, BindGroupLayoutId::Camera]
}

/// The bind group layouts of the render pipeline, in slot order.
pub open spec fn render_pipeline_layout_spec() -> Seq<BindGroupLayoutId> {
    seq![BindGroupLayoutId::RenderTexture]
}

/// The compute pipeline's layout: the off-screen texture's group at slot
/// zero, the camera's group at slot one.
pub fn build_compute_pipeline() -> (layouts: Vec<BindGroupLayoutId>)
    ensures
        layouts@ == compute_pipeline_layout_spec(),
{
    let mut layouts: Vec<BindGroupLayoutId> = Vec::new();
    layouts.push(BindGroupLayoutId::ComputeTexture);
    layouts.push(BindGroupLayoutId::Camera);
    proof {
        assert(layouts@ =~= compute_pipeline_layout_spec());
    }
    layouts
}

/// The render pipeline's layout: only the sampled texture's group.
pub fn build_render_pipeline() -> (layouts: Vec<BindGroupLayoutId>)
    ensures
        layouts@ == render_pipeline_layout_spec(),
{
    let mut layouts: Vec<BindGroupLayoutId> = Vec::new();
    layouts.push(BindGroupLayoutId::RenderTexture);
    proof {
        assert(layouts@ =~= render_pipeline_layout_spec());
    }
    layouts
}

/// The plan for rendering one frame onto a surface of the given extent: the
/// compute pass dispatches one workgroup per pixel with its groups at the
/// slots the compute pipeline layout declares, and the render pass clears to
/// opaque black and draws the six vertices of the full-screen quad once.
pub fn frame_plan(width: u32, height: u32) -> (f: FramePlan)
    ensures
        f.compute.workgroups == (WorkgroupCount { x: width, y: height, z: 1 }),
        f.compute.workgroups.x * f.compute.workgroups.y * f.compute.workgroups.z == width
            * height,
        f.compute.texture_group_slot == 0 && f.compute.camera_group_slot == 1,
        compute_pipeline_layout_spec()[f.compute.texture_group_slot as int]
            == BindGroupLayoutId::ComputeTexture,
        compute_pipeline_layout_spec()[f.compute.camera_group_slot as int]
            == BindGroupLayoutId::Camera,
        f.render.texture_group_slot == 0,
        render_pipeline_layout_spec()[f.render.texture_group_slot as int]
            == BindGroupLayoutId::RenderTexture,
        f.render.clear_to_opaque_black,
        f.render.draw.vertices == (DrawRange { start: 0, end: 6 }),
        f.render.draw.instances == (DrawRange { start: 0, end: 1 }),
{
    proof {
        assert((width as int) * (height as int) * 1 == (width as int) * (height as int))
            by (nonlinear_arith);
    }
    FramePlan {
        compute: ComputePassPlan {
            texture_group_slot: 0,
            camera_group_slot: 1,
            workgroups: WorkgroupCount { x: width, y: height, z: 1 },
        },
        render: RenderPassPlan {
            texture_group_slot: 0,
            clear_to_opaque_black: true,
            draw: DrawCall {
                vertices: DrawRange { start: 0, end: 6 },
                instances: DrawRange { start: 0, end: 1 },
            },
        },
    }
}

/// The planning half of a window resize: the surface configuration and the
/// camera are retargeted to the same new extent, the off-screen texture is
/// planned at that extent, and the camera names the buffers to rewrite.
pub fn plan_resize(surface: &mut SurfaceConfigPlan, camera: &mut Camera, width: u32, height: u32) -> (r:
    (TexturePlan, Vec<CameraField>))
    ensures
        final(surface).width == width && final(surface).height == height,
        final(surface).desired_maximum_frame_latency == old(
            surface,
        ).desired_maximum_frame_latency,
        final(camera).width == width && final(camera).height == height,
        r.0 == storage_target_spec(width, height),
        r.1@ == resize_writes_spec(),
{
    surface.resize_surface(width, height);
    let texture = build_texture(width, height);
    let writes = camera.resize_viewport(width, height);
    (texture, writes)
}

/// Every bind group a frame binds fills the layout its pipeline declares at
/// that slot: the compute pipeline is laid out as the off-screen texture's
/// group then the camera's group, the render pipeline as the sampled-texture
/// group alone, and each group fills its layout — whether or not the
/// diagnostic texture stands in for the compute output.
pub proof fn lemma_frame_binds_filled_groups(use_debug: bool)
    ensures
        compute_pipeline_layout_spec()[0] == BindGroupLayoutId::ComputeTexture,
        compute_pipeline_layout_spec()[1] == BindGroupLayoutId::Camera,
        render_pipeline_layout_spec()[0] == BindGroupLayoutId::RenderTexture,
        fills_layout(compute_texture_group_spec(), compute_texture_layout_spec()),
        fills_layout(camera_group_spec(), camera_layout_spec()),
        fills_layout(render_texture_group_spec(use_debug), render_texture_layout_spec()),
{
    lemma_camera_group_fills_layout();
    lemma_texture_groups_fill_layouts(use_debug);
}

} // verus!
