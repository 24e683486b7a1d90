use dwm_lut::lut_pipeline::{
    cube_texel_index, BackBufferFormat, DirtyRect, DXGI_FORMAT_B8G8R8A8_UNORM,
    DXGI_FORMAT_R16G16B16A16_FLOAT,
};
use dwm_lut::render_plan::{
    decide_frame_draw, lut_index_failure, must_recreate_resources, outcome_applied, outcome_draw_failed, outcome_from_skip, outcome_planned,
    record_frame_result, BackBufferId, DrawPlanSkip, DrawPlanSkipReason, DrawState,
    PresentDrawFailReason, PresentDrawStatus, RenderTargetKey, RenderTargetState, RenderTargetStates,
};

fn key() -> RenderTargetKey {
    RenderTargetKey { overlay_swap_chain: 0x1000, back_buffer: BackBufferId::PrivateData(7) }
}

fn planned() -> Vec<DirtyRect> {
    vec![DirtyRect { left: 10, top: 20, right: 30, bottom: 40 }]
}

#[test]
fn first_frame_of_a_target_is_a_full_redraw() {
    let mut states = RenderTargetStates::new();
    let draw = decide_frame_draw(
        &mut states,
        key(),
        BackBufferFormat::Bgra8Unorm,
        0,
        planned(),
        false,
        false,
        1920,
        1080,
    )
    .expect("a frame is drawn");
    assert_eq!(draw.previous_state, RenderTargetState::Bootstrapping);
    assert!(draw.full_redraw);
    assert_eq!(draw.dirty_rects, vec![DirtyRect { left: 0, top: 0, right: 1920, bottom: 1080 }]);
    // A bootstrapping target keeps the present region as the caller gave it.
    assert_eq!(draw.present_dirty_rect, None);
}

#[test]
fn stable_target_draws_only_the_planned_rectangles() {
    let mut states = RenderTargetStates::new();
    let state = DrawState { format: BackBufferFormat::Bgra8Unorm, lut_index: 0 };
    record_frame_result(&mut states, key(), state, true);
    let draw = decide_frame_draw(
        &mut states,
        key(),
        BackBufferFormat::Bgra8Unorm,
        0,
        planned(),
        false,
        false,
        1920,
        1080,
    )
    .expect("a frame is drawn");
    assert_eq!(draw.previous_state, RenderTargetState::Stable(state));
    assert!(!draw.full_redraw);
    assert_eq!(draw.dirty_rects, planned());
    assert_eq!(draw.present_dirty_rect, None);
}

#[test]
fn changed_lut_on_stable_target_redraws_and_grows_the_present_region() {
    let mut states = RenderTargetStates::new();
    record_frame_result(
        &mut states,
        key(),
        DrawState { format: BackBufferFormat::Bgra8Unorm, lut_index: 0 },
        true,
    );
    let draw = decide_frame_draw(
        &mut states,
        key(),
        BackBufferFormat::Bgra8Unorm,
        1,
        planned(),
        false,
        false,
        800,
        600,
    )
    .expect("a frame is drawn");
    assert!(draw.full_redraw);
    assert_eq!(draw.present_dirty_rect, Some(DirtyRect { left: 0, top: 0, right: 800, bottom: 600 }));
}

#[test]
fn failed_draw_leaves_the_target_bootstrapping() {
    let mut states = RenderTargetStates::new();
    let state = DrawState { format: BackBufferFormat::Rgba16Float, lut_index: 1 };
    record_frame_result(&mut states, key(), state, false);
    let draw = decide_frame_draw(
        &mut states,
        key(),
        BackBufferFormat::Rgba16Float,
        1,
        planned(),
        false,
        false,
        64,
        64,
    )
    .expect("a frame is drawn");
    assert_eq!(draw.previous_state, RenderTargetState::Bootstrapping);
    assert!(draw.full_redraw);
}

#[test]
fn nothing_is_drawn_without_rectangles() {
    let mut states = RenderTargetStates::new();
    record_frame_result(
        &mut states,
        key(),
        DrawState { format: BackBufferFormat::Bgra8Unorm, lut_index: 0 },
        true,
    );
    let draw = decide_frame_draw(
        &mut states,
        key(),
        BackBufferFormat::Bgra8Unorm,
        0,
        Vec::new(),
        false,
        false,
        1920,
        1080,
    );
    assert!(draw.is_none());
    // A zero-sized frame has no full-frame rectangle either.
    let draw = decide_frame_draw(
        &mut RenderTargetStates::new(),
        key(),
        BackBufferFormat::Bgra8Unorm,
        0,
        planned(),
        false,
        false,
        0,
        1080,
    );
    assert!(draw.is_none());
}

#[test]
fn outcomes_record_format_size_and_status() {
    let skip = DrawPlanSkip::active(DrawPlanSkipReason::EmptyDirtyRects, 3);
    let skipped = outcome_from_skip(skip, DXGI_FORMAT_B8G8R8A8_UNORM, 640, 480, None);
    assert!(skipped.lut_active);
    assert_eq!(skipped.draw, PresentDrawStatus::Skipped(DrawPlanSkipReason::EmptyDirtyRects));
    assert_eq!(skipped.lut_index, Some(3));
    assert_eq!((skipped.width, skipped.height), (Some(640), Some(480)));

    let planned_fail = outcome_planned(
        1,
        BackBufferFormat::Rgba16Float,
        PresentDrawFailReason::ResourcesCreateFailed,
        Some(BackBufferId::ComIdentity(0x40)),
    );
    assert_eq!(planned_fail.dxgi_format, Some(DXGI_FORMAT_R16G16B16A16_FLOAT));
    assert_eq!((planned_fail.width, planned_fail.height), (None, None));
    assert_eq!(planned_fail.draw, PresentDrawStatus::Failed(PresentDrawFailReason::ResourcesCreateFailed));

    let rect = Some(DirtyRect { left: 0, top: 0, right: 640, bottom: 480 });
    let applied = outcome_applied(2, BackBufferFormat::Bgra8Unorm, 640, 480, rect, true, None);
    assert_eq!(applied.draw, PresentDrawStatus::Applied { full_redraw: true });
    assert_eq!(applied.present_dirty_rect, rect);
    assert_eq!(applied.dxgi_format, Some(DXGI_FORMAT_B8G8R8A8_UNORM));

    let failed = outcome_draw_failed(
        2,
        BackBufferFormat::Bgra8Unorm,
        640,
        480,
        PresentDrawFailReason::DrawFailed,
        None,
    );
    assert_eq!(failed.present_dirty_rect, None);
    assert_eq!((failed.width, failed.height), (Some(640), Some(480)));
    assert!(failed.lut_active);
}

#[test]
fn cube_texels_are_red_fastest_and_clamped() {
    assert_eq!(cube_texel_index(2, 0, 0, 0), 0);
    assert_eq!(cube_texel_index(2, 1, 0, 0), 1);
    assert_eq!(cube_texel_index(2, 0, 1, 0), 2);
    assert_eq!(cube_texel_index(2, 0, 0, 1), 4);
    assert_eq!(cube_texel_index(2, 9, 9, 9), 7);
    assert_eq!(cube_texel_index(33, 1, 2, 3), 3 * 33 * 33 + 2 * 33 + 1);
    assert_eq!(cube_texel_index(1, 5, 5, 5), 0);
}

#[test]
fn stable_target_keeps_planned_rectangles_of_an_oversized_frame() {
    let mut states = RenderTargetStates::new();
    let state = DrawState { format: BackBufferFormat::Bgra8Unorm, lut_index: 0 };
    record_frame_result(&mut states, key(), state, true);
    let huge = i32::MAX as u32 + 1;
    let draw = decide_frame_draw(&mut states, key(), BackBufferFormat::Bgra8Unorm, 0, planned(), false, false, huge, huge)
        .expect("a frame is drawn");
    assert!(!draw.full_redraw);
    assert_eq!(draw.dirty_rects, planned());
}

#[test]
fn device_resources_follow_the_lut_count_and_views() {
    assert!(must_recreate_resources(None, 2));
    assert!(must_recreate_resources(Some(1), 2));
    assert!(!must_recreate_resources(Some(2), 2));
    assert_eq!(lut_index_failure(2, 2), Some(PresentDrawFailReason::LutIndexOutOfRange));
    assert_eq!(lut_index_failure(1, 2), None);
}
