use raytracer::bindings::BindGroupLayoutId;
use raytracer::bindings::BindingKind;
use raytracer::bindings::CameraField;
use raytracer::bindings::ResourceKind;
use raytracer::bindings::ShaderStage;
use raytracer::bindings::TextureSource;
use raytracer::camera::Camera;
use raytracer::camera::binding_index;
use raytracer::camera::vec3_buffer_bytes;
use raytracer::frame::build_compute_pipeline;
use raytracer::frame::build_render_pipeline;
use raytracer::frame::frame_plan;
use raytracer::frame::plan_resize;
use raytracer::surface::SurfaceConfigPlan;
use raytracer::texture::build_debug_texture;
use raytracer::texture::build_texture;
use raytracer::texture::texture_bind_group_layouts;
use raytracer::texture::texture_bind_groups;

#[test]
fn camera_fields_have_their_own_slots() {
    assert_eq!(binding_index(CameraField::Origin), 0);
    assert_eq!(binding_index(CameraField::PixelDeltaU), 1);
    assert_eq!(binding_index(CameraField::PixelDeltaV), 2);
    assert_eq!(binding_index(CameraField::PixelCenter), 3);
}

#[test]
fn camera_buffers_hold_one_packed_vec3() {
    assert_eq!(vec3_buffer_bytes(), 12);
}

#[test]
fn camera_layout_is_four_compute_uniform_slots() {
    let layout = Camera::bind_group_layout();
    assert_eq!(layout.len(), 4);
    for (i, entry) in layout.iter().enumerate() {
        assert_eq!(entry.binding, i as u32);
        assert_eq!(entry.visibility, ShaderStage::Compute);
        assert_eq!(entry.kind, BindingKind::UniformBuffer);
    }
}

#[test]
fn camera_group_binds_each_field_at_its_slot() {
    let group = Camera::bind_group();
    let layout = Camera::bind_group_layout();
    assert_eq!(group.len(), layout.len());
    for (entry, slot) in group.iter().zip(layout.iter()) {
        assert_eq!(entry.binding, slot.binding);
        match entry.resource {
            ResourceKind::CameraBuffer(field) => {
                assert_eq!(binding_index(field), entry.binding)
            }
            other => panic!("camera group holds a non-buffer resource: {:?}", other),
        }
    }
    assert_eq!(
        group[3].resource,
        ResourceKind::CameraBuffer(CameraField::PixelCenter)
    );
}

#[test]
fn viewport_resize_rewrites_all_but_the_origin() {
    let mut camera = Camera::new(800, 600);
    let writes = camera.resize_viewport(1024, 768);
    assert_eq!(camera.width, 1024);
    assert_eq!(camera.height, 768);
    assert_eq!(
        writes,
        vec![
            CameraField::PixelDeltaU,
            CameraField::PixelDeltaV,
            CameraField::PixelCenter
        ]
    );
    assert!(!writes.contains(&CameraField::Origin));
}

#[test]
fn offscreen_texture_is_a_storage_and_sampling_target() {
    let t = build_texture(800, 600);
    assert_eq!(t.extent.width, 800);
    assert_eq!(t.extent.height, 600);
    assert_eq!(t.extent.depth_or_array_layers, 1);
    assert_eq!(t.mip_level_count, 1);
    assert_eq!(t.sample_count, 1);
    assert!(t.usage.texture_binding);
    assert!(t.usage.storage_binding);
}

#[test]
fn debug_texture_is_never_a_storage_target() {
    let t = build_debug_texture(256, 256);
    assert_eq!(t.extent.width, 256);
    assert_eq!(t.extent.height, 256);
    assert!(t.usage.texture_binding);
    assert!(!t.usage.storage_binding);
}

#[test]
fn texture_layouts_expose_compute_write_and_fragment_read() {
    let (compute, render) = texture_bind_group_layouts();
    assert_eq!(compute.len(), 1);
    assert_eq!(compute[0].binding, 0);
    assert_eq!(compute[0].visibility, ShaderStage::Compute);
    assert_eq!(compute[0].kind, BindingKind::WriteOnlyStorageTexture);
    assert_eq!(render.len(), 2);
    assert_eq!(render[0].binding, 0);
    assert_eq!(render[0].visibility, ShaderStage::Fragment);
    assert_eq!(render[0].kind, BindingKind::SampledTexture);
    assert_eq!(render[1].binding, 1);
    assert_eq!(render[1].visibility, ShaderStage::Fragment);
    assert_eq!(render[1].kind, BindingKind::NonFilteringSampler);
}

#[test]
fn render_pass_samples_the_compute_output_by_default() {
    let (compute, render) = texture_bind_groups(false);
    assert_eq!(compute.len(), 1);
    assert_eq!(
        compute[0].resource,
        ResourceKind::TextureView(TextureSource::ComputeOutput)
    );
    assert_eq!(
        render[0].resource,
        ResourceKind::TextureView(TextureSource::ComputeOutput)
    );
    assert_eq!(render[1].resource, ResourceKind::Sampler);
}

#[test]
fn debug_texture_stands_in_when_supplied() {
    let (compute, render) = texture_bind_groups(true);
    assert_eq!(
        compute[0].resource,
        ResourceKind::TextureView(TextureSource::ComputeOutput)
    );
    assert_eq!(
        render[0].resource,
        ResourceKind::TextureView(TextureSource::Debug)
    );
    assert_eq!(render[1].resource, ResourceKind::Sampler);
}

#[test]
fn pipeline_layouts_are_ordered_texture_then_camera() {
    let compute = build_compute_pipeline();
    assert_eq!(
        compute,
        vec![BindGroupLayoutId::ComputeTexture, BindGroupLayoutId::Camera]
    );
    let render = build_render_pipeline();
    assert_eq!(render, vec![BindGroupLayoutId::RenderTexture]);
}

#[test]
fn frame_dispatches_one_workgroup_per_pixel() {
    let f = frame_plan(640, 480);
    assert_eq!(f.compute.workgroups.x, 640);
    assert_eq!(f.compute.workgroups.y, 480);
    assert_eq!(f.compute.workgroups.z, 1);
    assert_eq!(f.compute.texture_group_slot, 0);
    assert_eq!(f.compute.camera_group_slot, 1);
    assert_eq!(f.render.texture_group_slot, 0);
    assert!(f.render.clear_to_opaque_black);
    assert_eq!(f.render.draw.vertices.start, 0);
    assert_eq!(f.render.draw.vertices.end, 6);
    assert_eq!(f.render.draw.instances.start, 0);
    assert_eq!(f.render.draw.instances.end, 1);
}

#[test]
fn surface_config_keeps_its_latency_across_resizes() {
    let mut config = SurfaceConfigPlan::new(300, 200);
    assert_eq!(config.desired_maximum_frame_latency, 2);
    config.resize_surface(301, 201);
    assert_eq!(config.width, 301);
    assert_eq!(config.height, 201);
    assert_eq!(config.desired_maximum_frame_latency, 2);
}

#[test]
fn window_resize_retargets_every_plan_to_one_extent() {
    let mut config = SurfaceConfigPlan::new(800, 600);
    let mut camera = Camera::new(800, 600);
    let (texture, writes) = plan_resize(&mut config, &mut camera, 1280, 720);
    assert_eq!(config.width, 1280);
    assert_eq!(config.height, 720);
    assert_eq!(camera.width, 1280);
    assert_eq!(camera.height, 720);
    assert_eq!(texture.extent.width, 1280);
    assert_eq!(texture.extent.height, 720);
    assert!(texture.usage.storage_binding);
    assert_eq!(
        writes,
        vec![
            CameraField::PixelDeltaU,
            CameraField::PixelDeltaV,
            CameraField::PixelCenter
        ]
    );
}
