//! Texture creation and texture binding plans.
//!
//! The renderer creates one off-screen texture that the compute pass writes
//! and the render pass samples, and optionally a diagnostic texture that is
//! presented in its place.  A texture is described to the driver by its
//! extent, format, usages and mip/sample counts; the bind group layouts and
//! groups below are how the two passes reach it.

use vstd::prelude::*;

use crate::bindings::BindingKind;
use crate::bindings::GroupEntry;
use crate::bindings::LayoutEntry;
use crate::bindings::ResourceKind;
use crate::bindings::ShaderStage;
use crate::bindings::TextureSource;
use crate::bindings::dense_bindings;
use crate::bindings::fills_layout;

verus! {

/// The extent of a 2-D texture.
#[derive(Clone, Copy, Debug, PartialEq, Eq, Structural)]
pub struct TextureExtent {
    pub width: u32,
    pub height: u32,
    pub depth_or_array_layers: u32,
}

/// The one texel format the renderer uses: four 8-bit normalized channels.
#[derive(Clone, Copy, Debug, PartialEq, Eq, Structural)]
pub enum TextureFormatKind {
    Rgba8Unorm,
}

/// The usages a texture is created with.
#[derive(Clone, Copy, Debug, PartialEq, Eq, Structural)]
pub struct TextureUsage {
    /// May be bound as a sampled texture.
    pub texture_binding: bool,
    /// May be bound as a storage texture.
    pub storage_binding: bool,
}

/// Everything the driver is told when a texture is created.
#[derive(Clone, Copy, Debug, PartialEq, Eq, Structural)]
pub struct TexturePlan {
    pub extent: TextureExtent,
    pub format: TextureFormatKind,
    pub usage: TextureUsage,
    pub mip_level_count: u32,
    pub sample_count: u32,
}

/// The off-screen target: a single-level, single-sample texture of the given
/// extent, usable both as a storage target and as a sampled source.
pub open spec fn storage_target_spec(width: u32, height: u32) -> TexturePlan {
    TexturePlan {
        extent: TextureExtent { width, height, depth_or_array_layers: 1 },
        format: TextureFormatKind::Rgba8Unorm,
        usage: TextureUsage { texture_binding: true, storage_binding: true },
        mip_level_count: 1,
        sample_count: 1,
    }
}

/// The diagnostic texture: sampled only, never written by the compute pass.
pub open spec fn debug_texture_spec(width: u32, height: u32) -> TexturePlan {
    TexturePlan {
        extent: TextureExtent { width, height, depth_or_array_layers: 1 },
        format: TextureFormatKind::Rgba8Unorm,
        usage: TextureUsage { texture_binding: true, storage_binding: false },
        mip_level_count: 1,
        sample_count: 1,
    }
}

/// The layout the compute pass writes the off-screen texture through: one
/// write-only storage-texture slot.
pub open spec fn compute_texture_layout_spec() -> Seq<LayoutEntry> {
    seq![
        LayoutEntry {
            binding: 0,
            visibility: ShaderStage::Compute,
            kind: BindingKind::WriteOnlyStorageTexture,
        },
    ]
}

/// The layout the render pass reads through: a sampled texture and a
/// non-filtering sampler, both fragment-visible.
pub open spec fn render_texture_layout_spec() -> Seq<LayoutEntry> {
    seq![
        LayoutEntry {
            binding: 0,
            visibility: ShaderStage::Fragment,
            kind: BindingKind::SampledTexture,
        },
        LayoutEntry {
            binding: 1,
            visibility: ShaderStage::Fragment,
            kind: BindingKind::NonFilteringSampler,
        },
    ]
}

/// The compute pass's group: a view of the off-screen texture.
pub open spec fn compute_texture_group_spec() -> Seq<GroupEntry> {
    seq![GroupEntry { binding: 0, resource: ResourceKind::TextureView(TextureSource::ComputeOutput) }]
}

/// The render pass's group: the presented view — the diagnostic texture when
/// one is supplied, otherwise the compute output — and the sampler.
pub open spec fn render_texture_group_spec(use_debug: bool) -> Seq<GroupEntry> {
    seq![
        GroupEntry {
            binding: 0,
            resource: ResourceKind::TextureView(
                if use_debug {
                    TextureSource::Debug
                } else {
                    TextureSource::ComputeOutput
                },
            ),
        },
        GroupEntry { binding: 1, resource: ResourceKind::Sampler },
    ]
}

/// The plan for the compute pass's off-screen target at the given extent.
pub fn build_texture(width: u32, height: u32) -> (t: TexturePlan)
    ensures
        t == storage_target_spec(width, height),
        t.extent == (TextureExtent { width, height, depth_or_array_layers: 1 }),
        t.usage.texture_binding && t.usage.storage_binding,
        t.mip_level_count == 1 && t.sample_count == 1,
{
    TexturePlan {
        extent: TextureExtent { width, height, depth_or_array_layers: 1 },
        format: TextureFormatKind::Rgba8Unorm,
        usage: TextureUsage { texture_binding: true, storage_binding: true },
        mip_level_count: 1,
        sample_count: 1,
    }
}

/// The plan for the diagnostic texture, sized to the decoded image.
pub fn build_debug_texture(width: u32, height: u32) -> (t: TexturePlan)
    ensures
        t == debug_texture_spec(width, height),
        t.extent == (TextureExtent { width, height, depth_or_array_layers: 1 }),
        t.usage.texture_binding && !t.usage.storage_binding,
        t.mip_level_count == 1 && t.sample_count == 1,
{
    TexturePlan {
        extent: TextureExtent { width, height, depth_or_array_layers: 1 },
        format: TextureFormatKind::Rgba8Unorm,
        usage: TextureUsage { texture_binding: true, storage_binding: false },
        mip_level_count: 1,
        sample_count: 1,
    }
}

/// The two texture bind group layouts, compute first, then render.
pub fn texture_bind_group_layouts() -> (layouts: (Vec<LayoutEntry>, Vec<LayoutEntry>))
    ensures
        layouts.0@ == compute_texture_layout_spec(),
        layouts.1@ == render_texture_layout_spec(),
        dense_bindings(layouts.0@),
        dense_bindings(layouts.1@),
{
    let mut compute: Vec<LayoutEntry> = Vec::new();
    compute.push(
        LayoutEntry {
            binding: 0,
            visibility: ShaderStage::Compute,
            kind: BindingKind::WriteOnlyStorageTexture,
        },
    );
    let mut render: Vec<LayoutEntry> = Vec::new();
    render.push(
        LayoutEntry {
            binding: 0,
            visibility: ShaderStage::Fragment,
            kind: BindingKind::SampledTexture,
        },
    );
    render.push(
        LayoutEntry {
            binding: 1,
            visibility: ShaderStage::Fragment,
            kind: BindingKind::NonFilteringSampler,
        },
    );
    proof {
        assert(compute@ =~= compute_texture_layout_spec());
        assert(render@ =~= render_texture_layout_spec());
    }
    (compute, render)
}

/// The two texture bind groups, compute first, then render.  The render
/// group presents the diagnostic texture exactly when one is supplied.
pub fn texture_bind_groups(use_debug: bool) -> (groups: (Vec<GroupEntry>, Vec<GroupEntry>))
    ensures
        groups.0@ == compute_texture_group_spec(),
        groups.1@ == render_texture_group_spec(use_debug),
        fills_layout(groups.0@, compute_texture_layout_spec()),
        fills_layout(groups.1@, render_texture_layout_spec()),
        groups.1@[0].resource == ResourceKind::TextureView(TextureSource::Debug) <==> use_debug,
{
    let mut compute: Vec<GroupEntry> = Vec::new();
    compute.push(
        GroupEntry { binding: 0, resource: ResourceKind::TextureView(TextureSource::ComputeOutput) },
    );
    let source = if use_debug {
        TextureSource::Debug
    } else {
        TextureSource::ComputeOutput
    };
    let mut render: Vec<GroupEntry> = Vec::new();
    render.push(GroupEntry { binding: 0, resource: ResourceKind::TextureView(source) });
    render.push(GroupEntry { binding: 1, resource: ResourceKind::Sampler });
    proof {
        assert(compute@ =~= compute_texture_group_spec());
        assert(render@ =~= render_texture_group_spec(use_debug));
        lemma_texture_groups_fill_layouts(use_debug);
    }
    (compute, render)
}

/// Both texture bind groups fill their layouts, whether or not the
/// diagnostic texture stands in for the compute output.
pub proof fn lemma_texture_groups_fill_layouts(use_debug: bool)
    ensures
        fills_layout(compute_texture_group_spec(), compute_texture_layout_spec()),
        fills_layout(render_texture_group_spec(use_debug), render_texture_layout_spec()),
{
    assert(compute_texture_group_spec().len() == compute_texture_layout_spec().len());
    assert(render_texture_group_spec(use_debug).len() == render_texture_layout_spec().len());
}

} // verus!
