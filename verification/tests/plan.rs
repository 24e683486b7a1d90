use std::cell::RefCell;

use dwm_lut::config::{AdapterLuid, ColorMode, MonitorIdentity, MonitorTarget};
use dwm_lut::lut_pipeline::{
    BackBufferFormat, DirtyRect, LoadedLut, DXGI_FORMAT_B8G8R8A8_UNORM,
    DXGI_FORMAT_R16G16B16A16_FLOAT,
};
use dwm_lut::render_plan::{
    bounding_rect, clamp_rect, copy_box_for_rect, draw_rects_for_frame, dxgi_format_for_copy_texture,
    keeps_device_resource, prepare_gpu_draw_plan, present_dirty_rect_for_full_redraw,
    requires_full_redraw, with_restored_state, BackBufferId, Box3D, DrawPlanSkipReason, DrawState,
    RenderTargetKey, RenderTargetState, RenderTargetStates, ResourceKey,
};

fn test_identity() -> MonitorIdentity {
    MonitorIdentity { adapter_luid: AdapterLuid { high_part: 0, low_part: 0x14e02 }, target_id: 4357 }
}

fn test_luts() -> Vec<LoadedLut> {
    vec![
        LoadedLut { target: MonitorTarget { identity: test_identity(), color_mode: ColorMode::Sdr }, size: 2 },
        LoadedLut { target: MonitorTarget { identity: test_identity(), color_mode: ColorMode::Hdr }, size: 2 },
    ]
}

#[test]
fn plan_dirty_rect_copy_box_uses_absolute_source_region() {
    let rect = DirtyRect { left: 32, top: 48, right: 96, bottom: 128 };
    assert_eq!(
        copy_box_for_rect(rect),
        Box3D { left: 32, top: 48, front: 0, right: 96, bottom: 128, back: 1 }
    );
}

#[test]
fn plan_dirty_rects_are_clamped_before_copy_and_draw() {
    assert_eq!(
        clamp_rect(DirtyRect { left: -10, top: 5, right: 120, bottom: 80 }, 100, 60),
        Some(DirtyRect { left: 0, top: 5, right: 100, bottom: 60 })
    );
    assert_eq!(clamp_rect(DirtyRect { left: 100, top: 0, right: 120, bottom: 60 }, 100, 60), None);
}

#[test]
fn plan_copy_texture_format_matches_back_buffer_format() {
    assert_eq!(dxgi_format_for_copy_texture(BackBufferFormat::Bgra8Unorm), DXGI_FORMAT_B8G8R8A8_UNORM);
    assert_eq!(
        dxgi_format_for_copy_texture(BackBufferFormat::Rgba16Float),
        DXGI_FORMAT_R16G16B16A16_FLOAT
    );
}

#[test]
fn plan_bootstrapping_full_redraw_does_not_expand_present_dirty_rect() {
    let full_frame_rects = vec![DirtyRect { left: 0, top: 0, right: 1920, bottom: 1080 }];
    assert_eq!(
        present_dirty_rect_for_full_redraw(
            true,
            RenderTargetState::Bootstrapping,
            false,
            false,
            &full_frame_rects,
        ),
        None
    );
}

#[test]
fn plan_bootstrapping_full_redraw_expands_present_dirty_rect_when_resources_recreated() {
    let full_frame_rects = vec![DirtyRect { left: 0, top: 0, right: 1920, bottom: 1080 }];
    assert_eq!(
        present_dirty_rect_for_full_redraw(
            true,
            RenderTargetState::Bootstrapping,
            true,
            false,
            &full_frame_rects,
        ),
        Some(DirtyRect { left: 0, top: 0, right: 1920, bottom: 1080 })
    );
}

#[test]
fn plan_bootstrapping_full_redraw_expands_present_dirty_rect_when_copy_texture_created() {
    let full_frame_rects = vec![DirtyRect { left: 0, top: 0, right: 1920, bottom: 1080 }];
    assert_eq!(
        present_dirty_rect_for_full_redraw(
            true,
            RenderTargetState::Bootstrapping,
            false,
            true,
            &full_frame_rects,
        ),
        Some(DirtyRect { left: 0, top: 0, right: 1920, bottom: 1080 })
    );
}

#[test]
fn plan_stable_full_redraw_expands_present_dirty_rect() {
    let sdr = DrawState { format: BackBufferFormat::Bgra8Unorm, lut_index: 0 };
    let full_frame_rects = vec![DirtyRect { left: 0, top: 0, right: 1920, bottom: 1080 }];
    assert_eq!(
        present_dirty_rect_for_full_redraw(
            true,
            RenderTargetState::Stable(sdr),
            false,
            false,
            &full_frame_rects,
        ),
        Some(DirtyRect { left: 0, top: 0, right: 1920, bottom: 1080 })
    );
}

#[test]
fn plan_stable_partial_update_does_not_expand_present_dirty_rect() {
    let sdr = DrawState { format: BackBufferFormat::Bgra8Unorm, lut_index: 0 };
    let partial_rects = vec![DirtyRect { left: 10, top: 20, right: 64, bottom: 96 }];
    assert_eq!(
        present_dirty_rect_for_full_redraw(
            false,
            RenderTargetState::Stable(sdr),
            false,
            false,
            &partial_rects,
        ),
        None
    );
}

#[test]
fn plan_full_redraw_is_required_until_draw_state_is_stable() {
    let sdr = DrawState { format: BackBufferFormat::Bgra8Unorm, lut_index: 0 };
    let hdr = DrawState { format: BackBufferFormat::Rgba16Float, lut_index: 0 };
    let second_lut = DrawState { format: BackBufferFormat::Bgra8Unorm, lut_index: 1 };
    assert!(requires_full_redraw(RenderTargetState::Bootstrapping, sdr, false, false));
    assert!(requires_full_redraw(RenderTargetState::Stable(sdr), sdr, true, false));
    assert!(requires_full_redraw(RenderTargetState::Stable(sdr), sdr, false, true));
    assert!(requires_full_redraw(RenderTargetState::Stable(sdr), hdr, false, false));
    assert!(requires_full_redraw(RenderTargetState::Stable(sdr), second_lut, false, false));
    assert!(!requires_full_redraw(RenderTargetState::Stable(sdr), sdr, false, false));
}

#[test]
fn plan_render_target_states_stabilize_back_buffers_independently() {
    let state = DrawState { format: BackBufferFormat::Bgra8Unorm, lut_index: 0 };
    let first = RenderTargetKey { overlay_swap_chain: 0x1000, back_buffer: BackBufferId::PrivateData(0x2000) };
    let other_buffer =
        RenderTargetKey { overlay_swap_chain: 0x1000, back_buffer: BackBufferId::PrivateData(0x3000) };
    let fallback_buffer =
        RenderTargetKey { overlay_swap_chain: 0x1000, back_buffer: BackBufferId::ComIdentity(0x4000) };
    let mut states = RenderTargetStates::default();
    assert_eq!(states.previous_state(first), RenderTargetState::Bootstrapping);
    states.record_success(first, state);
    assert_eq!(states.previous_state(first), RenderTargetState::Stable(state));
    assert_eq!(states.previous_state(other_buffer), RenderTargetState::Bootstrapping);
    states.record_success(other_buffer, state);
    assert_eq!(states.previous_state(other_buffer), RenderTargetState::Stable(state));
    assert_eq!(states.previous_state(fallback_buffer), RenderTargetState::Bootstrapping);
    states.record_success(fallback_buffer, state);
    assert_eq!(states.previous_state(fallback_buffer), RenderTargetState::Stable(state));
}

#[test]
fn plan_render_target_states_evict_the_least_recently_seen_buffer() {
    let state = DrawState { format: BackBufferFormat::Bgra8Unorm, lut_index: 0 };
    let key = |id: u128| RenderTargetKey {
        overlay_swap_chain: 0x1000,
        back_buffer: BackBufferId::PrivateData(id),
    };
    let mut states = RenderTargetStates::default();
    for id in 0..RenderTargetStates::MAX_ENTRIES as u128 {
        let key = key(id);
        assert_eq!(states.previous_state(key), RenderTargetState::Bootstrapping);
        states.record_success(key, state);
    }
    assert_eq!(states.previous_state(key(0)), RenderTargetState::Stable(state));
    let new_key = key(RenderTargetStates::MAX_ENTRIES as u128);
    assert_eq!(states.previous_state(new_key), RenderTargetState::Bootstrapping);
    states.record_success(new_key, state);
    assert_eq!(states.len(), RenderTargetStates::MAX_ENTRIES);
    assert!(states.contains_key(key(0)));
    assert!(!states.contains_key(key(1)));
    assert!(states.contains_key(new_key));
}

#[test]
fn plan_device_resource_cache_drops_other_sizes_for_same_swap_chain() {
    let current = ResourceKey { device: 0x10, overlay_swap_chain: 0x20, width: 1280, height: 720 };
    let same_size = ResourceKey { device: 0x10, overlay_swap_chain: 0x20, width: 1280, height: 720 };
    let old_size = ResourceKey { device: 0x10, overlay_swap_chain: 0x20, width: 1920, height: 1080 };
    let other_swap_chain =
        ResourceKey { device: 0x10, overlay_swap_chain: 0x21, width: 1920, height: 1080 };
    let other_device = ResourceKey { device: 0x11, overlay_swap_chain: 0x20, width: 1920, height: 1080 };
    assert!(keeps_device_resource(same_size, current));
    assert!(!keeps_device_resource(old_size, current));
    assert!(keeps_device_resource(other_swap_chain, current));
    assert!(keeps_device_resource(other_device, current));
}

#[test]
fn plan_draw_lifecycle_restores_context_state_after_draw_work() {
    let events = RefCell::new(Vec::new());
    let result = with_restored_state(
        || {
            events.borrow_mut().push("capture");
            "captured-state"
        },
        || {
            events.borrow_mut().push("draw");
            true
        },
        |state: &&str| {
            assert_eq!(*state, "captured-state");
            events.borrow_mut().push("restore");
        },
    );
    assert!(result);
    assert_eq!(&*events.borrow(), &["capture", "draw", "restore"]);
}

#[test]
fn plan_gpu_draw_plan_accepts_sdr_and_hdr_frames_with_size() {
    let luts = test_luts();
    let dirty_rects = [DirtyRect { left: 0, top: 0, right: 64, bottom: 64 }];
    assert!(prepare_gpu_draw_plan(
        &luts,
        Some(test_identity()),
        DXGI_FORMAT_B8G8R8A8_UNORM,
        1920,
        1080,
        &dirty_rects,
    )
    .is_ok());
    let hdr_plan = prepare_gpu_draw_plan(
        &luts,
        Some(test_identity()),
        DXGI_FORMAT_R16G16B16A16_FLOAT,
        1920,
        1080,
        &dirty_rects,
    )
    .expect("HDR frames should render when an HDR LUT matches");
    assert_eq!(hdr_plan.format, BackBufferFormat::Rgba16Float);
    assert_eq!(hdr_plan.lut_index, 1);
    assert_eq!(hdr_plan.constants.hdr, 1);
}

#[test]
fn plan_gpu_draw_plan_expands_empty_dirty_rects_to_full_frame() {
    let luts = test_luts();
    let plan = prepare_gpu_draw_plan(
        &luts,
        Some(test_identity()),
        DXGI_FORMAT_B8G8R8A8_UNORM,
        1920,
        1080,
        &[],
    )
    .expect("empty dirty rect input should render the full frame");
    assert_eq!(plan.dirty_rects, vec![DirtyRect { left: 0, top: 0, right: 1920, bottom: 1080 }]);
}

#[test]
fn plan_gpu_draw_plan_ignores_dirty_rects_outside_the_frame() {
    let luts = test_luts();
    let plan = prepare_gpu_draw_plan(
        &luts,
        Some(test_identity()),
        DXGI_FORMAT_B8G8R8A8_UNORM,
        1920,
        1080,
        &[
            DirtyRect { left: 10, top: 10, right: 20, bottom: 20 },
            DirtyRect { left: 1920, top: 0, right: 1940, bottom: 50 },
        ],
    )
    .expect("one dirty rect intersects the frame");
    assert_eq!(plan.dirty_rects, vec![DirtyRect { left: 10, top: 10, right: 20, bottom: 20 }]);
    let skip = prepare_gpu_draw_plan(
        &luts,
        Some(test_identity()),
        DXGI_FORMAT_B8G8R8A8_UNORM,
        1920,
        1080,
        &[DirtyRect { left: 1920, top: 0, right: 1940, bottom: 50 }],
    )
    .expect_err("dirty rects outside the frame should skip drawing");
    assert_eq!(skip.reason, DrawPlanSkipReason::EmptyDirtyRects);
    assert!(skip.lut_active);
    assert_eq!(skip.lut_index, Some(0));
}

#[test]
fn plan_gpu_draw_plan_selects_lut_by_runtime_monitor_identity() {
    let primary = MonitorIdentity {
        adapter_luid: AdapterLuid { high_part: 0, low_part: 0x14e02 },
        target_id: 11,
    };
    let right = MonitorIdentity {
        adapter_luid: AdapterLuid { high_part: 0, low_part: 0x14e02 },
        target_id: 4357,
    };
    let luts = vec![
        LoadedLut { target: MonitorTarget { identity: primary, color_mode: ColorMode::Sdr }, size: 2 },
        LoadedLut { target: MonitorTarget { identity: right, color_mode: ColorMode::Sdr }, size: 2 },
    ];
    let plan = prepare_gpu_draw_plan(&luts, Some(right), DXGI_FORMAT_B8G8R8A8_UNORM, 1920, 1080, &[])
        .expect("runtime monitor identity should select a plan");
    assert_eq!(plan.lut_index, 1);
    assert!(prepare_gpu_draw_plan(&luts, None, DXGI_FORMAT_B8G8R8A8_UNORM, 1920, 1080, &[]).is_err());
}

#[test]
fn d3d11_renderer_dirty_rect_copy_box_uses_absolute_source_region() {
    let rect = DirtyRect { left: 32, top: 48, right: 96, bottom: 128 };
    assert_eq!(
        copy_box_for_rect(rect),
        Box3D { left: 32, top: 48, front: 0, right: 96, bottom: 128, back: 1 }
    );
}

#[test]
fn d3d11_renderer_dirty_rects_are_clamped_before_copy_and_draw() {
    assert_eq!(
        clamp_rect(DirtyRect { left: -10, top: 5, right: 120, bottom: 80 }, 100, 60),
        Some(DirtyRect { left: 0, top: 5, right: 100, bottom: 60 })
    );
    assert_eq!(clamp_rect(DirtyRect { left: 100, top: 0, right: 120, bottom: 60 }, 100, 60), None);
}

#[test]
fn d3d11_renderer_copy_texture_format_matches_back_buffer_format() {
    assert_eq!(dxgi_format_for_copy_texture(BackBufferFormat::Bgra8Unorm), DXGI_FORMAT_B8G8R8A8_UNORM);
    assert_eq!(
        dxgi_format_for_copy_texture(BackBufferFormat::Rgba16Float),
        DXGI_FORMAT_R16G16B16A16_FLOAT
    );
}

#[test]
fn d3d11_renderer_bootstrapping_full_redraw_does_not_expand_present_dirty_rect() {
    let full_frame_rects = vec![DirtyRect { left: 0, top: 0, right: 1920, bottom: 1080 }];
    assert_eq!(
        present_dirty_rect_for_full_redraw(
            true,
            RenderTargetState::Bootstrapping,
            false,
            false,
            &full_frame_rects,
        ),
        None
    );
}

#[test]
fn d3d11_renderer_bootstrapping_full_redraw_expands_present_dirty_rect_when_resources_recreated() {
    let full_frame_rects = vec![DirtyRect { left: 0, top: 0, right: 1920, bottom: 1080 }];
    assert_eq!(
        present_dirty_rect_for_full_redraw(
            true,
            RenderTargetState::Bootstrapping,
            true,
            false,
            &full_frame_rects,
        ),
        Some(DirtyRect { left: 0, top: 0, right: 1920, bottom: 1080 })
    );
}

#[test]
fn d3d11_renderer_bootstrapping_full_redraw_expands_present_dirty_rect_when_copy_texture_created() {
    let full_frame_rects = vec![DirtyRect { left: 0, top: 0, right: 1920, bottom: 1080 }];
    assert_eq!(
        present_dirty_rect_for_full_redraw(
            true,
            RenderTargetState::Bootstrapping,
            false,
            true,
            &full_frame_rects,
        ),
        Some(DirtyRect { left: 0, top: 0, right: 1920, bottom: 1080 })
    );
}

#[test]
fn d3d11_renderer_stable_full_redraw_expands_present_dirty_rect() {
    let sdr = DrawState { format: BackBufferFormat::Bgra8Unorm, lut_index: 0 };
    let full_frame_rects = vec![DirtyRect { left: 0, top: 0, right: 1920, bottom: 1080 }];
    assert_eq!(
        present_dirty_rect_for_full_redraw(
            true,
            RenderTargetState::Stable(sdr),
            false,
            false,
            &full_frame_rects,
        ),
        Some(DirtyRect { left: 0, top: 0, right: 1920, bottom: 1080 })
    );
}

#[test]
fn d3d11_renderer_stable_partial_update_does_not_expand_present_dirty_rect() {
    let sdr = DrawState { format: BackBufferFormat::Bgra8Unorm, lut_index: 0 };
    let partial_rects = vec![DirtyRect { left: 10, top: 20, right: 64, bottom: 96 }];
    assert_eq!(
        present_dirty_rect_for_full_redraw(
            false,
            RenderTargetState::Stable(sdr),
            false,
            false,
            &partial_rects,
        ),
        None
    );
}

#[test]
fn d3d11_renderer_full_redraw_is_required_until_draw_state_is_stable() {
    let sdr = DrawState { format: BackBufferFormat::Bgra8Unorm, lut_index: 0 };
    let hdr = DrawState { format: BackBufferFormat::Rgba16Float, lut_index: 0 };
    let second_lut = DrawState { format: BackBufferFormat::Bgra8Unorm, lut_index: 1 };
    assert!(requires_full_redraw(RenderTargetState::Bootstrapping, sdr, false, false));
    assert!(requires_full_redraw(RenderTargetState::Stable(sdr), sdr, true, false));
    assert!(requires_full_redraw(RenderTargetState::Stable(sdr), sdr, false, true));
    assert!(requires_full_redraw(RenderTargetState::Stable(sdr), hdr, false, false));
    assert!(requires_full_redraw(RenderTargetState::Stable(sdr), second_lut, false, false));
    assert!(!requires_full_redraw(RenderTargetState::Stable(sdr), sdr, false, false));
}

#[test]
fn d3d11_renderer_render_target_states_stabilize_back_buffers_independently() {
    let state = DrawState { format: BackBufferFormat::Bgra8Unorm, lut_index: 0 };
    let first = RenderTargetKey { overlay_swap_chain: 0x1000, back_buffer: BackBufferId::PrivateData(0x2000) };
    let other_buffer =
        RenderTargetKey { overlay_swap_chain: 0x1000, back_buffer: BackBufferId::PrivateData(0x3000) };
    let fallback_buffer =
        RenderTargetKey { overlay_swap_chain: 0x1000, back_buffer: BackBufferId::ComIdentity(0x4000) };
    let mut states = RenderTargetStates::default();
    assert_eq!(states.previous_state(first), RenderTargetState::Bootstrapping);
    states.record_success(first, state);
    assert_eq!(states.previous_state(first), RenderTargetState::Stable(state));
    assert_eq!(states.previous_state(other_buffer), RenderTargetState::Bootstrapping);
    states.record_success(other_buffer, state);
    assert_eq!(states.previous_state(other_buffer), RenderTargetState::Stable(state));
    assert_eq!(states.previous_state(fallback_buffer), RenderTargetState::Bootstrapping);
    states.record_success(fallback_buffer, state);
    assert_eq!(states.previous_state(fallback_buffer), RenderTargetState::Stable(state));
}

#[test]
fn d3d11_renderer_render_target_states_evict_the_least_recently_seen_buffer() {
    let state = DrawState { format: BackBufferFormat::Bgra8Unorm, lut_index: 0 };
    let key = |id: u128| RenderTargetKey {
        overlay_swap_chain: 0x1000,
        back_buffer: BackBufferId::PrivateData(id),
    };
    let mut states = RenderTargetStates::default();
    for id in 0..RenderTargetStates::MAX_ENTRIES as u128 {
        let key = key(id);
        assert_eq!(states.previous_state(key), RenderTargetState::Bootstrapping);
        states.record_success(key, state);
    }
    assert_eq!(states.previous_state(key(0)), RenderTargetState::Stable(state));
    let new_key = key(RenderTargetStates::MAX_ENTRIES as u128);
    assert_eq!(states.previous_state(new_key), RenderTargetState::Bootstrapping);
    states.record_success(new_key, state);
    assert_eq!(states.len(), RenderTargetStates::MAX_ENTRIES);
    assert!(states.contains_key(key(0)));
    assert!(!states.contains_key(key(1)));
    assert!(states.contains_key(new_key));
}

#[test]
fn d3d11_renderer_device_resource_cache_drops_other_sizes_for_same_swap_chain() {
    let current = ResourceKey { device: 0x10, overlay_swap_chain: 0x20, width: 1280, height: 720 };
    let same_size = ResourceKey { device: 0x10, overlay_swap_chain: 0x20, width: 1280, height: 720 };
    let old_size = ResourceKey { device: 0x10, overlay_swap_chain: 0x20, width: 1920, height: 1080 };
    let other_swap_chain =
        ResourceKey { device: 0x10, overlay_swap_chain: 0x21, width: 1920, height: 1080 };
    let other_device = ResourceKey { device: 0x11, overlay_swap_chain: 0x20, width: 1920, height: 1080 };
    assert!(keeps_device_resource(same_size, current));
    assert!(!keeps_device_resource(old_size, current));
    assert!(keeps_device_resource(other_swap_chain, current));
    assert!(keeps_device_resource(other_device, current));
}

#[test]
fn d3d11_renderer_draw_lifecycle_restores_context_state_after_draw_work() {
    let events = RefCell::new(Vec::new());
    let result = with_restored_state(
        || {
            events.borrow_mut().push("capture");
            "captured-state"
        },
        || {
            events.borrow_mut().push("draw");
            true
        },
        |state: &&str| {
            assert_eq!(*state, "captured-state");
            events.borrow_mut().push("restore");
        },
    );
    assert!(result);
    assert_eq!(&*events.borrow(), &["capture", "draw", "restore"]);
}

#[test]
fn d3d11_renderer_gpu_draw_plan_accepts_sdr_and_hdr_frames_with_size() {
    let luts = test_luts();
    let dirty_rects = [DirtyRect { left: 0, top: 0, right: 64, bottom: 64 }];
    assert!(prepare_gpu_draw_plan(
        &luts,
        Some(test_identity()),
        DXGI_FORMAT_B8G8R8A8_UNORM,
        1920,
        1080,
        &dirty_rects,
    )
    .is_ok());
    let hdr_plan = prepare_gpu_draw_plan(
        &luts,
        Some(test_identity()),
        DXGI_FORMAT_R16G16B16A16_FLOAT,
        1920,
        1080,
        &dirty_rects,
    )
    .expect("HDR frames should render when an HDR LUT matches");
    assert_eq!(hdr_plan.format, BackBufferFormat::Rgba16Float);
    assert_eq!(hdr_plan.lut_index, 1);
    assert_eq!(hdr_plan.constants.hdr, 1);
}

#[test]
fn d3d11_renderer_gpu_draw_plan_expands_empty_dirty_rects_to_full_frame() {
    let luts = test_luts();
    let plan = prepare_gpu_draw_plan(
        &luts,
        Some(test_identity()),
        DXGI_FORMAT_B8G8R8A8_UNORM,
        1920,
        1080,
        &[],
    )
    .expect("empty dirty rect input should render the full frame");
    assert_eq!(plan.dirty_rects, vec![DirtyRect { left: 0, top: 0, right: 1920, bottom: 1080 }]);
}

#[test]
fn d3d11_renderer_gpu_draw_plan_ignores_dirty_rects_outside_the_frame() {
    let luts = test_luts();
    let plan = prepare_gpu_draw_plan(
        &luts,
        Some(test_identity()),
        DXGI_FORMAT_B8G8R8A8_UNORM,
        1920,
        1080,
        &[
            DirtyRect { left: 10, top: 10, right: 20, bottom: 20 },
            DirtyRect { left: 1920, top: 0, right: 1940, bottom: 50 },
        ],
    )
    .expect("one dirty rect intersects the frame");
    assert_eq!(plan.dirty_rects, vec![DirtyRect { left: 10, top: 10, right: 20, bottom: 20 }]);
    let skip = prepare_gpu_draw_plan(
        &luts,
        Some(test_identity()),
        DXGI_FORMAT_B8G8R8A8_UNORM,
        1920,
        1080,
        &[DirtyRect { left: 1920, top: 0, right: 1940, bottom: 50 }],
    )
    .expect_err("dirty rects outside the frame should skip drawing");
    assert_eq!(skip.reason, DrawPlanSkipReason::EmptyDirtyRects);
    assert!(skip.lut_active);
    assert_eq!(skip.lut_index, Some(0));
}

#[test]
fn d3d11_renderer_gpu_draw_plan_selects_lut_by_runtime_monitor_identity() {
    let primary = MonitorIdentity {
        adapter_luid: AdapterLuid { high_part: 0, low_part: 0x14e02 },
        target_id: 11,
    };
    let right = MonitorIdentity {
        adapter_luid: AdapterLuid { high_part: 0, low_part: 0x14e02 },
        target_id: 4357,
    };
    let luts = vec![
        LoadedLut { target: MonitorTarget { identity: primary, color_mode: ColorMode::Sdr }, size: 2 },
        LoadedLut { target: MonitorTarget { identity: right, color_mode: ColorMode::Sdr }, size: 2 },
    ];
    let plan = prepare_gpu_draw_plan(&luts, Some(right), DXGI_FORMAT_B8G8R8A8_UNORM, 1920, 1080, &[])
        .expect("runtime monitor identity should select a plan");
    assert_eq!(plan.lut_index, 1);
    assert!(prepare_gpu_draw_plan(&luts, None, DXGI_FORMAT_B8G8R8A8_UNORM, 1920, 1080, &[]).is_err());
}

#[test]
fn gpu_draw_plan_skip_preserves_only_matched_assignments() {
    let luts = test_luts();
    let zero_size_skip =
        prepare_gpu_draw_plan(&luts, Some(test_identity()), DXGI_FORMAT_B8G8R8A8_UNORM, 0, 1080, &[])
            .expect_err("zero-sized frames should skip drawing");
    assert_eq!(zero_size_skip.reason, DrawPlanSkipReason::ZeroSize);
    assert!(zero_size_skip.lut_active);
    assert_eq!(zero_size_skip.lut_index, Some(0));

    let mut unmatched_identity = test_identity();
    unmatched_identity.target_id = unmatched_identity.target_id.saturating_add(1);
    let missing_assignment_skip = prepare_gpu_draw_plan(
        &luts,
        Some(unmatched_identity),
        DXGI_FORMAT_B8G8R8A8_UNORM,
        1920,
        1080,
        &[],
    )
    .expect_err("an unmatched monitor should skip drawing");
    assert_eq!(missing_assignment_skip.reason, DrawPlanSkipReason::MissingAssignment);
    assert!(!missing_assignment_skip.lut_active);
    assert_eq!(missing_assignment_skip.lut_index, None);
}

#[test]
fn gpu_draw_plan_builds_sdr_shader_constants() {
    let identity = test_identity();
    let luts = vec![LoadedLut {
        target: MonitorTarget { identity, color_mode: ColorMode::Sdr },
        size: 2,
    }];
    let plan = prepare_gpu_draw_plan(&luts, Some(identity), DXGI_FORMAT_B8G8R8A8_UNORM, 1920, 1080, &[])
        .expect("SDR plan should exist");
    assert_eq!(plan.format, BackBufferFormat::Bgra8Unorm);
    assert_eq!(plan.constants.lut_size, 2);
    assert_eq!(plan.constants.hdr, 0);
}

#[test]
fn gpu_draw_plan_builds_hdr_shader_constants() {
    let identity = test_identity();
    let luts = vec![LoadedLut {
        target: MonitorTarget { identity, color_mode: ColorMode::Hdr },
        size: 2,
    }];
    let plan =
        prepare_gpu_draw_plan(&luts, Some(identity), DXGI_FORMAT_R16G16B16A16_FLOAT, 1920, 1080, &[])
            .expect("HDR plan should exist");
    assert_eq!(plan.format, BackBufferFormat::Rgba16Float);
    assert_eq!(plan.constants.hdr, 1);
}

#[test]
fn gpu_draw_plan_reports_each_skip_reason() {
    let luts = test_luts();
    let missing_identity =
        prepare_gpu_draw_plan(&luts, None, DXGI_FORMAT_B8G8R8A8_UNORM, 1920, 1080, &[]).unwrap_err();
    assert_eq!(missing_identity.reason, DrawPlanSkipReason::MissingMonitorIdentity);
    assert!(!missing_identity.lut_active);
    let unsupported = prepare_gpu_draw_plan(&luts, Some(test_identity()), 28, 1920, 1080, &[]).unwrap_err();
    assert_eq!(unsupported.reason, DrawPlanSkipReason::UnsupportedFormat);
    assert_eq!(unsupported.lut_index, None);
}

#[test]
fn bounding_rect_spans_every_rect() {
    let rects = [
        DirtyRect { left: 10, top: 40, right: 20, bottom: 50 },
        DirtyRect { left: -5, top: 60, right: 8, bottom: 70 },
        DirtyRect { left: 30, top: 0, right: 31, bottom: 1 },
    ];
    assert_eq!(bounding_rect(&rects), Some(DirtyRect { left: -5, top: 0, right: 31, bottom: 70 }));
    assert_eq!(bounding_rect(&[]), None);
}

#[test]
fn draw_rects_for_frame_keeps_clamped_rects_in_order() {
    let rects = [
        DirtyRect { left: -4, top: -4, right: 8, bottom: 8 },
        DirtyRect { left: 200, top: 0, right: 300, bottom: 10 },
        DirtyRect { left: 90, top: 50, right: 120, bottom: 80 },
    ];
    assert_eq!(
        draw_rects_for_frame(&rects, 100, 60),
        vec![
            DirtyRect { left: 0, top: 0, right: 8, bottom: 8 },
            DirtyRect { left: 90, top: 50, right: 100, bottom: 60 },
        ]
    );
    assert_eq!(
        draw_rects_for_frame(&[], 100, 60),
        vec![DirtyRect { left: 0, top: 0, right: 100, bottom: 60 }]
    );
}

#[test]
fn present_dirty_rect_stays_unexpanded_for_partial_redraws_even_when_resources_are_new() {
    let rects = vec![DirtyRect { left: 1, top: 2, right: 3, bottom: 4 }];
    assert_eq!(
        present_dirty_rect_for_full_redraw(false, RenderTargetState::Bootstrapping, true, true, &rects),
        None
    );
}

#[test]
fn gpu_draw_plan_skips_oversized_frames_before_clamping() {
    let luts = test_luts();
    let huge = i32::MAX as u32 + 1;
    let other = MonitorIdentity { target_id: 1, ..test_identity() };

    let skip = prepare_gpu_draw_plan(&luts, None, DXGI_FORMAT_B8G8R8A8_UNORM, huge, huge, &[])
        .expect_err("no monitor");
    assert_eq!(skip.reason, DrawPlanSkipReason::MissingMonitorIdentity);

    let skip = prepare_gpu_draw_plan(&luts, Some(test_identity()), 28, huge, huge, &[])
        .expect_err("unsupported format");
    assert_eq!(skip.reason, DrawPlanSkipReason::UnsupportedFormat);

    let skip = prepare_gpu_draw_plan(&luts, Some(other), DXGI_FORMAT_B8G8R8A8_UNORM, huge, huge, &[])
        .expect_err("no assignment");
    assert_eq!(skip.reason, DrawPlanSkipReason::MissingAssignment);

    let skip = prepare_gpu_draw_plan(&luts, Some(test_identity()), DXGI_FORMAT_R16G16B16A16_FLOAT, huge, 0, &[])
        .expect_err("zero height");
    assert_eq!(skip.reason, DrawPlanSkipReason::ZeroSize);
    assert!(skip.lut_active);
    assert_eq!(skip.lut_index, Some(1));
}
