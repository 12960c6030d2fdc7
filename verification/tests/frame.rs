use moonwalk::batching::common::{GpuBufferState, UploadAction};
use moonwalk::batching::shapes::rect::DrawCall;
use moonwalk::error::{GpuStartup, MoonWalkError, RenderError, SurfaceStatus};
use moonwalk::objects::ShaderId;
use moonwalk::rendering::pipeline::{
    layouts_of, BindGroupDesc, BindGroupLayoutEntry, PipelineKind, ShaderStage, ShaderStore, StepMode,
    VertexAttribute, VertexFormat,
};
use moonwalk::rendering::renderer::{FrameAction, MoonRenderer, ResizePlan, SurfaceSize};
use moonwalk::rendering::state::{FramePlan, Projection, RenderState};
use moonwalk::vector::{Vec2Bits, Vec4Bits};
use moonwalk::MoonWalk;

fn color(r: f32, g: f32, b: f32, a: f32) -> Vec4Bits {
    Vec4Bits::new(r.to_bits(), g.to_bits(), b.to_bits(), a.to_bits())
}

fn logical(width: f32, height: f32) -> Projection {
    Projection { width: width.to_bits(), height: height.to_bits() }
}

fn ready_state() -> RenderState {
    RenderState::new(800, 600, Ok(())).unwrap()
}

fn ready_engine() -> MoonWalk {
    MoonWalk::new(GpuStartup::Ready, 800, 600).unwrap()
}

fn plan_of(action: Result<FrameAction, RenderError>) -> FramePlan {
    match action {
        Ok(FrameAction::Draw(plan)) => plan,
        other => panic!("no frame was drawn: {:?}", other),
    }
}

#[test]
fn new_state_is_an_empty_scene_with_the_rect_pipeline() {
    let state = ready_state();
    assert_eq!(state.store.len(), 0);
    assert!(!state.store.dirty && !state.store.z_dirty);
    assert!(state.batches.rects.batch.cpu_buffer.is_empty());
    assert_eq!(state.rect_shader, ShaderId(1));
    assert_eq!(state.shaders.get_pipeline(ShaderId(1)), Some(PipelineKind::DefaultRect));
    assert_eq!(state.projection, logical(800.0, 600.0));
}

#[test]
fn new_state_reports_a_rejected_shader() {
    let r = RenderState::new(800, 600, Err("unknown identifier".to_string()));
    assert_eq!(r.err(), Some(MoonWalkError::ShaderCompilation("unknown identifier".to_string())));
}

#[test]
fn draw_clears_both_flags() {
    let mut state = ready_state();
    let id = state.store.new_rect();
    state.store.config_z_index(id, 4.0f32.to_bits());
    assert!(state.store.dirty && state.store.z_dirty);
    state.draw(None);
    assert!(!state.store.dirty);
    assert!(!state.store.z_dirty);
    state.store.config_position(id, Vec2Bits::new(0, 0));
    state.draw(None);
    assert!(!state.store.dirty);
    assert!(!state.store.z_dirty);
}

#[test]
fn draw_of_a_clean_store_writes_no_buffer() {
    let mut state = ready_state();
    state.store.new_rect();
    state.store.new_rect();
    let first = state.draw(None);
    assert_eq!(first.upload, UploadAction::Allocate);
    let staged = state.batches.rects.batch.cpu_buffer.clone();
    let mut writes = 0;
    for _ in 0..5 {
        let plan = state.draw(None);
        if plan.upload.writes() {
            writes += 1;
        }
        assert_eq!(plan.upload, UploadAction::Skip);
        // the draw itself goes on from the buffer that is there
        assert_eq!(plan.draw.map(|c| c.instance_count), Some(2));
    }
    assert_eq!(writes, 0);
    assert_eq!(state.batches.rects.batch.cpu_buffer, staged);
    assert_eq!(state.batches.rects.batch.gpu_buffer, Some(GpuBufferState { capacity: 2 }));
}

#[test]
fn draw_of_an_empty_scene_clears_and_draws_nothing() {
    let mut state = ready_state();
    let plan = state.draw(None);
    assert_eq!(
        plan,
        FramePlan {
            upload: UploadAction::Skip,
            clear_color: color(0.1, 0.1, 0.1, 1.0),
            projection_group: 0,
            pipeline: Some(ShaderId(1)),
            draw: None,
        }
    );
}

#[test]
fn draw_clears_to_the_colour_asked_for() {
    let mut state = ready_state();
    let plan = state.draw(Some(color(0.02, 0.02, 0.05, 1.0)));
    assert_eq!(plan.clear_color, color(0.02, 0.02, 0.05, 1.0));
    let plan = state.draw(None);
    assert_eq!(plan.clear_color, color(0.1, 0.1, 0.1, 1.0));
}

#[test]
fn draw_plans_one_instanced_draw_of_all_rects() {
    let mut state = ready_state();
    for z in [3.0f32, 1.0, 2.0] {
        let id = state.store.new_rect();
        state.store.config_z_index(id, z.to_bits());
    }
    let plan = state.draw(None);
    assert_eq!(plan.upload, UploadAction::Allocate);
    assert_eq!(plan.pipeline, Some(ShaderId(1)));
    assert_eq!(
        plan.draw,
        Some(DrawCall { vertex_slot: 0, instance_slot: 1, index_count: 6, instance_count: 3 })
    );
    let depths: Vec<f32> =
        state.batches.rects.batch.cpu_buffer.iter().map(|i| f32::from_bits(i.extra[0])).collect();
    assert_eq!(depths, vec![1.0, 2.0, 3.0]);
}

#[test]
fn draw_after_a_position_change_restages_in_id_order() {
    let mut state = ready_state();
    for z in [3.0f32, 1.0, 2.0] {
        let id = state.store.new_rect();
        state.store.config_z_index(id, z.to_bits());
    }
    state.draw(None);
    let middle = state.store.rect_ids[1];
    state.store.config_position(middle, Vec2Bits::new(7.0f32.to_bits(), 8.0f32.to_bits()));
    let plan = state.draw(None);
    assert_eq!(plan.upload, UploadAction::Overwrite);
    let staged = &state.batches.rects.batch.cpu_buffer;
    let depths: Vec<f32> = staged.iter().map(|i| f32::from_bits(i.extra[0])).collect();
    assert_eq!(depths, vec![3.0, 1.0, 2.0]);
    assert_eq!(staged[1].pos_size[0], 7.0f32.to_bits());
    assert_eq!(staged[1].pos_size[1], 8.0f32.to_bits());
}

#[test]
fn draw_without_the_rect_pipeline_binds_and_draws_nothing() {
    let mut state = ready_state();
    state.store.new_rect();
    state.rect_shader = ShaderId(77);
    let plan = state.draw(None);
    assert_eq!(plan.upload, UploadAction::Allocate);
    assert_eq!(plan.pipeline, None);
    assert_eq!(plan.draw, None);
    assert!(!state.store.dirty);
}

#[test]
fn update_projection_records_the_logical_size() {
    let mut state = ready_state();
    let p = state.update_projection(500.0f32.to_bits(), 250.0f32.to_bits());
    assert_eq!(p, logical(500.0, 250.0));
    assert_eq!(state.projection, p);
}

#[test]
fn fresh_engine_renders_an_empty_frame() {
    let mut mw = ready_engine();
    let plan = plan_of(mw.render_frame(SurfaceStatus::Acquired, color(0.1, 0.1, 0.1, 1.0)));
    assert_eq!(plan.clear_color, color(0.1, 0.1, 0.1, 1.0));
    assert_eq!(plan.draw, None);
    assert_eq!(plan.upload, UploadAction::Skip);
    assert_eq!(plan.pipeline, Some(ShaderId(1)));
    assert_eq!(plan.projection_group, 0);
}

#[test]
fn engine_starts_with_scale_one_and_the_given_size() {
    let mw = ready_engine();
    assert_eq!(mw.renderer.scale_factor, 1.0f32.to_bits());
    assert_eq!(mw.renderer.config, SurfaceSize { width: 800, height: 600 });
    assert!(mw.renderer.has_surface);
    assert!(mw.has_room());
}

#[test]
fn each_failed_startup_is_its_own_error() {
    let cases = [
        (GpuStartup::AdapterUnavailable, MoonWalkError::AdapterRequestError),
        (GpuStartup::DeviceFailed, MoonWalkError::DeviceRequestError),
        (GpuStartup::SurfaceFailed, MoonWalkError::CreateSurfaceError),
        (GpuStartup::NoSurfaceFormat, MoonWalkError::NoSuitableSurfaceFormat),
        (
            GpuStartup::ShaderRejected("line 3".to_string()),
            MoonWalkError::ShaderCompilation("line 3".to_string()),
        ),
    ];
    for (startup, error) in cases {
        assert_eq!(startup.clone().failure(), Some(error.clone()));
        assert_eq!(MoonRenderer::new(startup.clone(), 1, 1).err(), Some(error.clone()));
        assert_eq!(MoonWalk::new(startup, 1, 1).err(), Some(error));
    }
    assert_eq!(GpuStartup::Ready.failure(), None);
    assert!(MoonWalk::new(GpuStartup::Ready, 1, 1).is_ok());
}

#[test]
fn error_messages() {
    assert_eq!(MoonWalkError::AdapterRequestError.message(), "Failed to request a wgpu adapter");
    assert_eq!(MoonWalkError::DeviceRequestError.message(), "Failed to request a wgpu device");
    assert_eq!(MoonWalkError::CreateSurfaceError.message(), "Failed to create wgpu surface");
    assert_eq!(
        MoonWalkError::NoSuitableSurfaceFormat.message(),
        "No suitable surface format found"
    );
    assert_eq!(
        MoonWalkError::ShaderCompilation("bad token".to_string()).message(),
        "Failed to compile shader: bad token"
    );
}

#[test]
fn set_viewport_plans_surface_and_projection() {
    let mut mw = ready_engine();
    mw.set_scale_factor(2.0f32.to_bits());
    let plan = mw.set_viewport(1000, 500);
    assert_eq!(
        plan,
        Some(ResizePlan {
            surface: SurfaceSize { width: 1000, height: 500 },
            projection: logical(500.0, 250.0),
        })
    );
    assert_eq!(mw.renderer.config, SurfaceSize { width: 1000, height: 500 });
    assert_eq!(mw.renderer.state.projection, plan.unwrap().projection);
}

#[test]
fn projection_of_1000_by_500_at_scale_two_maps_logical_pixels_to_clip_space() {
    let mut mw = ready_engine();
    mw.set_scale_factor(2.0f32.to_bits());
    let p = mw.set_viewport(1000, 500).unwrap().projection;
    let logical_w = f32::from_bits(p.width);
    let logical_h = f32::from_bits(p.height);
    assert_eq!((logical_w, logical_h), (500.0, 250.0));
    let m = glam::Mat4::orthographic_rh(0.0, logical_w, logical_h, 0.0, -1.0, 1.0);
    let origin = m * glam::Vec4::new(0.0, 0.0, 0.0, 1.0);
    assert_eq!((origin.x, origin.y), (-1.0, 1.0));
    let corner = m * glam::Vec4::new(500.0, 250.0, 0.0, 1.0);
    assert_eq!((corner.x, corner.y), (1.0, -1.0));
    let centre = m * glam::Vec4::new(250.0, 125.0, 0.0, 1.0);
    assert_eq!((centre.x, centre.y), (0.0, 0.0));
}

#[test]
fn set_viewport_ignores_a_zero_dimension() {
    let mut mw = ready_engine();
    assert_eq!(mw.set_viewport(0, 500), None);
    assert_eq!(mw.set_viewport(500, 0), None);
    assert_eq!(mw.set_viewport(0, 0), None);
    assert_eq!(mw.renderer.config, SurfaceSize { width: 800, height: 600 });
    assert_eq!(mw.renderer.state.projection, logical(800.0, 600.0));
}

#[test]
fn scale_change_keeps_the_surface_size_and_replans_the_projection() {
    let mut mw = ready_engine();
    let before = mw.renderer.state.projection;
    let plan = mw.set_scale_factor(1.5f32.to_bits()).unwrap();
    assert_eq!(mw.renderer.scale_factor, 1.5f32.to_bits());
    assert_eq!(mw.renderer.config, SurfaceSize { width: 800, height: 600 });
    assert_eq!(plan.surface, SurfaceSize { width: 800, height: 600 });
    assert_eq!(plan.projection, logical(800.0 / 1.5, 600.0 / 1.5));
    assert_ne!(plan.projection, before);
    assert_eq!(mw.renderer.state.projection, plan.projection);
}

#[test]
fn scale_change_on_a_surface_without_area_only_stores_the_scale() {
    let mut mw = MoonWalk::new(GpuStartup::Ready, 0, 0).unwrap();
    assert_eq!(mw.set_scale_factor(3.0f32.to_bits()), None);
    assert_eq!(mw.renderer.scale_factor, 3.0f32.to_bits());
    assert_eq!(mw.renderer.state.projection, logical(0.0, 0.0));
}

#[test]
fn lost_surface_drops_the_frame_and_the_next_one_is_drawn() {
    let mut mw = ready_engine();
    let id = mw.new_rect();
    mw.set_z_index(id, 2.0f32.to_bits());
    let clear = color(0.0, 0.0, 0.0, 1.0);

    assert_eq!(mw.render_frame(SurfaceStatus::Lost, clear), Ok(FrameAction::RecreateSurface));
    // the frame was dropped: nothing was staged, the flags still stand
    assert!(mw.renderer.state.store.dirty && mw.renderer.state.store.z_dirty);
    assert!(mw.renderer.state.batches.rects.batch.cpu_buffer.is_empty());

    let size = mw.recreate_surface(1, 1);
    assert_eq!(size, SurfaceSize { width: 800, height: 600 });

    let plan = plan_of(mw.render_frame(SurfaceStatus::Acquired, clear));
    assert_eq!(plan.upload, UploadAction::Allocate);
    assert_eq!(plan.draw.map(|c| c.instance_count), Some(1));
    assert!(!mw.renderer.state.store.dirty);
}

#[test]
fn out_of_memory_is_an_error() {
    let mut mw = ready_engine();
    mw.new_rect();
    let r = mw.render_frame(SurfaceStatus::OutOfMemory, color(0.0, 0.0, 0.0, 1.0));
    assert_eq!(r, Err(RenderError::OutOfMemory));
    assert!(mw.renderer.state.store.dirty);
}

#[test]
fn other_surface_failures_drop_the_frame() {
    for status in [SurfaceStatus::Timeout, SurfaceStatus::Outdated, SurfaceStatus::Other] {
        let mut mw = ready_engine();
        mw.new_rect();
        let r = mw.render_frame(status, color(0.0, 0.0, 0.0, 1.0));
        assert_eq!(r, Ok(FrameAction::Skip(status)));
        assert!(mw.renderer.state.store.dirty);
        assert!(mw.renderer.state.batches.rects.batch.cpu_buffer.is_empty());
    }
}

#[test]
fn recreate_surface_takes_the_given_size_only_without_a_surface() {
    let mut renderer = MoonRenderer::new(GpuStartup::Ready, 640, 480).unwrap();
    assert_eq!(renderer.recreate_surface(10, 20), SurfaceSize { width: 640, height: 480 });
    renderer.surface_dropped();
    assert!(!renderer.has_surface);
    assert_eq!(renderer.recreate_surface(10, 20), SurfaceSize { width: 10, height: 20 });
    assert!(renderer.has_surface);
    assert_eq!(renderer.config, SurfaceSize { width: 10, height: 20 });
}

#[test]
fn engine_mutators_reach_the_store() {
    let mut mw = ready_engine();
    let id = mw.new_rect();
    assert!(mw.contains(id));
    mw.set_position(id, 10.0f32.to_bits(), 20.0f32.to_bits());
    mw.set_size(id, 30.0f32.to_bits(), 40.0f32.to_bits());
    mw.set_color(id, 1.0f32.to_bits(), 0, 0, 1.0f32.to_bits());
    mw.set_rotation(id, 0.5f32.to_bits());
    mw.set_z_index(id, 3.0f32.to_bits());
    mw.set_rounded(id, 1.0f32.to_bits(), 2.0f32.to_bits(), 3.0f32.to_bits(), 4.0f32.to_bits());
    let store = &mw.renderer.state.store;
    assert_eq!(store.positions[0], Vec2Bits::new(10.0f32.to_bits(), 20.0f32.to_bits()));
    assert_eq!(store.sizes[0], Vec2Bits::new(30.0f32.to_bits(), 40.0f32.to_bits()));
    assert_eq!(store.colors[0], color(1.0, 0.0, 0.0, 1.0));
    assert_eq!(store.rotations[0], 0.5f32.to_bits());
    assert_eq!(store.z_indices[0], 3.0f32.to_bits());
    assert_eq!(store.rect_radii[0], color(1.0, 2.0, 3.0, 4.0));
}

#[test]
fn renderer_mutators_reach_the_store() {
    let mut r = MoonRenderer::new(GpuStartup::Ready, 8, 8).unwrap();
    let id = r.new_rect();
    r.config_position(id, Vec2Bits::new(1, 2));
    r.config_size(id, Vec2Bits::new(3, 4));
    r.config_color(id, Vec4Bits::new(5, 6, 7, 8));
    r.config_rotation(id, 9);
    r.set_z_index(id, 10);
    r.set_rounded(id, Vec4Bits::new(11, 12, 13, 14));
    assert_eq!(r.state.store.positions[0], Vec2Bits::new(1, 2));
    assert_eq!(r.state.store.sizes[0], Vec2Bits::new(3, 4));
    assert_eq!(r.state.store.colors[0], Vec4Bits::new(5, 6, 7, 8));
    assert_eq!(r.state.store.rotations[0], 9);
    assert_eq!(r.state.store.z_indices[0], 10);
    assert_eq!(r.state.store.rect_radii[0], Vec4Bits::new(11, 12, 13, 14));
    assert!(r.state.store.dirty && r.state.store.z_dirty);
}

#[test]
fn shader_store_hands_out_ids() {
    let mut shaders = ShaderStore::new();
    assert_eq!(shaders.get_pipeline(ShaderId(1)), None);
    assert_eq!(shaders.compile_shader(Ok(())), Ok(ShaderId(100)));
    assert_eq!(shaders.create_default_rect(Ok(())), Ok(ShaderId(1)));
    assert_eq!(shaders.compile_shader(Ok(())), Ok(ShaderId(102)));
    assert_eq!(shaders.create_default_rect(Ok(())), Ok(ShaderId(1)));
    assert_eq!(shaders.compile_shader(Ok(())), Ok(ShaderId(103)));
    assert_eq!(shaders.get_pipeline(ShaderId(1)), Some(PipelineKind::DefaultRect));
    assert_eq!(shaders.get_pipeline(ShaderId(100)), Some(PipelineKind::Custom));
    assert_eq!(shaders.get_pipeline(ShaderId(101)), None);
    assert_eq!(shaders.get_pipeline(ShaderId(103)), Some(PipelineKind::Custom));
    assert_eq!(shaders.pipelines.len(), 4);
}

#[test]
fn shader_store_registers_nothing_for_a_rejected_shader() {
    let mut shaders = ShaderStore::new();
    assert_eq!(
        shaders.create_default_rect(Err("e1".to_string())),
        Err(MoonWalkError::ShaderCompilation("e1".to_string()))
    );
    assert_eq!(
        shaders.compile_shader(Err("e2".to_string())),
        Err(MoonWalkError::ShaderCompilation("e2".to_string()))
    );
    assert!(shaders.pipelines.is_empty());
}

#[test]
fn projection_bind_group() {
    let shaders = ShaderStore::new();
    let entry =
        BindGroupLayoutEntry { binding: 0, visibility: ShaderStage::Vertex, has_dynamic_offset: false };
    assert_eq!(shaders.proj_layout, entry);
    assert_eq!(
        shaders.get_proj_bind_group(),
        BindGroupDesc { group: 0, layout: entry, binding: 0 }
    );
}

#[test]
fn vertex_layouts_of_the_rect_pipeline() {
    let layouts = layouts_of(PipelineKind::DefaultRect);
    assert_eq!(layouts.len(), 2);
    assert_eq!(layouts[0].array_stride, 8);
    assert_eq!(layouts[0].step_mode, StepMode::Vertex);
    assert_eq!(
        layouts[0].attributes,
        vec![VertexAttribute { format: VertexFormat::Float32x2, offset: 0, shader_location: 0 }]
    );
    assert_eq!(layouts[1].array_stride, 44);
    assert_eq!(layouts[1].step_mode, StepMode::Instance);
    assert_eq!(
        layouts[1].attributes,
        vec![
            VertexAttribute { format: VertexFormat::Float32x4, offset: 0, shader_location: 1 },
            VertexAttribute { format: VertexFormat::Float32x4, offset: 16, shader_location: 2 },
            VertexAttribute { format: VertexFormat::Float32x4, offset: 32, shader_location: 3 },
            VertexAttribute { format: VertexFormat::Uint32, offset: 40, shader_location: 4 },
        ]
    );
}

#[test]
fn vertex_layout_of_compiled_shaders() {
    let layouts = layouts_of(PipelineKind::Custom);
    assert_eq!(layouts.len(), 1);
    assert_eq!(layouts[0].array_stride, 60);
    assert_eq!(layouts[0].step_mode, StepMode::Vertex);
    let mut offset = 0;
    for (k, a) in layouts[0].attributes.iter().enumerate() {
        assert_eq!(a.shader_location, k as u32);
        assert_eq!(a.offset, offset);
        offset += a.format.size();
    }
    assert_eq!(offset, 60);
    let formats: Vec<VertexFormat> = layouts[0].attributes.iter().map(|a| a.format).collect();
    assert_eq!(
        formats,
        vec![
            VertexFormat::Float32x3,
            VertexFormat::Float32x4,
            VertexFormat::Float32x2,
            VertexFormat::Float32x2,
            VertexFormat::Float32x4
        ]
    );
}

#[test]
fn resize_at_scale_one_keeps_the_projection_of_a_new_renderer() {
    for (w, h) in [(800u32, 600u32), (1, 1), (1920, 1080), (16_777_217, 3)] {
        let mut renderer = MoonRenderer::new(GpuStartup::Ready, w, h).unwrap();
        let initial = renderer.state.projection;
        assert_eq!(initial, logical(w as f32, h as f32));
        let plan = renderer.resize(w, h).unwrap();
        assert_eq!(plan.projection, initial);
    }
}

#[test]
fn logical_size_is_the_binary32_quotient() {
    let mut mw = ready_engine();
    for scale in [0.5f32, 1.25, 1.1, 3.0, 0.0, -2.0, f32::INFINITY] {
        mw.set_scale_factor(scale.to_bits());
        let p = mw.set_viewport(1366, 768).unwrap().projection;
        assert_eq!(p, logical(1366.0 / scale, 768.0 / scale), "scale {}", scale);
    }
    mw.set_scale_factor(f32::NAN.to_bits());
    let p = mw.set_viewport(1366, 768).unwrap().projection;
    assert!(f32::from_bits(p.width).is_nan() && f32::from_bits(p.height).is_nan());
}
