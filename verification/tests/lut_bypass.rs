use dwm_lut::config::{AdapterLuid, ColorMode, MonitorIdentity, MonitorTarget};
use dwm_lut::bypass_sync::{GlobalsAction, GlobalsReply, GlobalsSync};
use dwm_lut::lut_bypass::{
    IndependentFlipStep, LutBypassRuntime,
    OverlayTestModeControl, OverlayTestModeStep, PatchWrite, RestoreWork,
};
use dwm_lut::lut_pipeline::{
    ClipBox, DirtyRect, LoadedLut, LutPipeline, LutShaderProgram, DXGI_FORMAT_B8G8R8A8_UNORM,
};

const OVERLAY_TEST_MODE_ADDRESS: usize = 0x1000;
const DISABLE_INDEPENDENT_FLIP_ADDRESS: usize = 0x2000;

/// The two dwmcore globals, as the tests' stand-in for process memory.
struct Globals {
    overlay_test_mode: i32,
    disable_independent_flip: i32,
    writable: bool,
    overlays_enabled_override: Option<bool>,
    override_calls: usize,
}

impl Globals {
    fn new(overlay_test_mode: i32, disable_independent_flip: i32) -> Self {
        Globals {
            overlay_test_mode,
            disable_independent_flip,
            writable: true,
            overlays_enabled_override: None,
            override_calls: 0,
        }
    }

    fn read(&self, address: usize) -> i32 {
        match address {
            OVERLAY_TEST_MODE_ADDRESS => self.overlay_test_mode,
            DISABLE_INDEPENDENT_FLIP_ADDRESS => self.disable_independent_flip,
            _ => panic!("unexpected read at {address:#x}"),
        }
    }

    fn write(&mut self, write: PatchWrite) {
        match write.address {
            OVERLAY_TEST_MODE_ADDRESS => self.overlay_test_mode = write.value,
            DISABLE_INDEPENDENT_FLIP_ADDRESS => self.disable_independent_flip = write.value,
            other => panic!("unexpected write at {other:#x}"),
        }
    }

    /// Brings the globals in line with the runtime after a present, one
    /// action of the sync at a time.
    fn sync(&mut self, runtime: &mut LutBypassRuntime) {
        let taken = std::mem::replace(runtime, LutBypassRuntime::new(false, None, None));
        let mut sync = GlobalsSync::start(taken);
        while let Some(action) = sync.next_action() {
            let reply = match action {
                GlobalsAction::ReadI32 { address } => GlobalsReply::Value(self.read(address)),
                GlobalsAction::CheckWritable { .. } => GlobalsReply::Writable(self.writable),
                GlobalsAction::Write(write) => {
                    self.write(write);
                    GlobalsReply::Performed
                }
                GlobalsAction::SetOverlaysEnabledOverride(value) => {
                    self.overlays_enabled_override = value;
                    self.override_calls += 1;
                    GlobalsReply::Performed
                }
            };
            sync.answer(reply);
        }
        assert!(sync.is_finished());
        *runtime = sync.finish();
    }

    fn restore(&mut self, work: RestoreWork) {
        if let Some(write) = work.overlay_test_mode {
            self.write(write);
        }
        if let Some(write) = work.disable_independent_flip {
            self.write(write);
        }
        if let Some(value) = work.overlays_enabled_override {
            self.overlays_enabled_override = value;
            self.override_calls += 1;
        }
    }
}

fn test_identity() -> MonitorIdentity {
    MonitorIdentity { adapter_luid: AdapterLuid { high_part: 0, low_part: 0x14e02 }, target_id: 4357 }
}

fn pipeline_for_single_sdr_monitor() -> LutPipeline {
    LutPipeline::new(
        vec![LoadedLut {
            target: MonitorTarget { identity: test_identity(), color_mode: ColorMode::Sdr },
            size: 2,
        }],
        LutShaderProgram::embedded(""),
    )
}

fn clip_box() -> ClipBox {
    ClipBox { left: 0, top: 0, right: 1920, bottom: 1080 }
}

#[test]
fn present_activation_blocks_promotion_for_same_context_only() {
    let pipeline = pipeline_for_single_sdr_monitor();
    let mut runtime = LutBypassRuntime::new(true, None, None);

    let outcome = runtime.update_present(
        &pipeline,
        0x1234,
        Some(test_identity()),
        clip_box(),
        DXGI_FORMAT_B8G8R8A8_UNORM,
        &[DirtyRect { left: 0, top: 0, right: 64, bottom: 64 }],
    );

    assert!(outcome.plan.is_some());
    assert!(outcome.promotion_blocked);
    assert_eq!(outcome.overlay_test_mode_control, OverlayTestModeControl::ForceMode5);
    assert!(!runtime.direct_flip_compatible(0x1234, true));
    assert!(!runtime.direct_flip_support_compatible(true));
    assert_eq!(runtime.ensure_independent_flip_state(), Some(0));
    assert_eq!(runtime.overlay_test_mode(0), 5);
    assert!(runtime.direct_flip_compatible(0x4321, true));
    assert_eq!(runtime.overlay_test_mode_control, OverlayTestModeControl::ForceMode5);

    let context = runtime.context(0x1234).expect("context should exist");
    assert_eq!(context.lut_index, Some(0));
    assert_eq!(context.dirty_rect_count, 1);
}

#[test]
fn present_deactivation_clears_promotion_block_for_that_context() {
    let pipeline = pipeline_for_single_sdr_monitor();
    let mut runtime = LutBypassRuntime::new(true, None, None);

    let _ = runtime.update_present(
        &pipeline,
        0x1234,
        Some(test_identity()),
        clip_box(),
        DXGI_FORMAT_B8G8R8A8_UNORM,
        &[],
    );
    let outcome =
        runtime.update_present(&pipeline, 0x1234, None, clip_box(), DXGI_FORMAT_B8G8R8A8_UNORM, &[]);

    assert!(outcome.plan.is_none());
    assert!(!outcome.promotion_blocked);
    assert!(runtime.direct_flip_compatible(0x1234, true));
    assert!(!runtime.direct_flip_support_compatible(true));
    assert_eq!(runtime.ensure_independent_flip_state(), Some(0));
    assert_eq!(runtime.overlay_test_mode(0), 0);
    assert!(runtime.context(0x1234).is_none());
}

#[test]
fn plan_keeps_bypass_state_even_when_render_misses_a_frame() {
    let pipeline = pipeline_for_single_sdr_monitor();
    let mut runtime = LutBypassRuntime::new(true, None, None);

    let outcome = runtime.update_present(
        &pipeline,
        0x1234,
        Some(test_identity()),
        clip_box(),
        DXGI_FORMAT_B8G8R8A8_UNORM,
        &[DirtyRect { left: 0, top: 0, right: 64, bottom: 64 }],
    );

    assert!(outcome.plan.is_some());
    assert!(outcome.promotion_blocked);
    assert!(runtime.context(0x1234).is_some());
    assert!(!runtime.direct_flip_compatible(0x1234, true));
    assert!(!runtime.direct_flip_support_compatible(true));
    assert_eq!(runtime.ensure_independent_flip_state(), Some(0));
    assert_eq!(runtime.overlay_test_mode(0), 5);
}

#[test]
fn active_context_persists_until_explicit_deactivation() {
    let pipeline = pipeline_for_single_sdr_monitor();
    let mut runtime = LutBypassRuntime::new(true, None, None);

    let _ = runtime.update_present(
        &pipeline,
        0x1234,
        Some(test_identity()),
        clip_box(),
        DXGI_FORMAT_B8G8R8A8_UNORM,
        &[DirtyRect { left: 0, top: 0, right: 64, bottom: 64 }],
    );

    assert!(runtime.context(0x1234).is_some());
    assert!(!runtime.direct_flip_support_compatible(true));
    assert_eq!(runtime.overlay_test_mode(0), 5);
}

#[test]
fn overlay_test_mode_global_is_patched_only_while_context_is_active() {
    let pipeline = pipeline_for_single_sdr_monitor();
    let mut globals = Globals::new(0, 0);
    let mut runtime = LutBypassRuntime::new(true, Some(OVERLAY_TEST_MODE_ADDRESS), None);

    let _ = runtime.update_present(
        &pipeline,
        0x1234,
        Some(test_identity()),
        clip_box(),
        DXGI_FORMAT_B8G8R8A8_UNORM,
        &[],
    );
    globals.sync(&mut runtime);
    assert_eq!(globals.overlay_test_mode, 5);

    let _ =
        runtime.update_present(&pipeline, 0x1234, None, clip_box(), DXGI_FORMAT_B8G8R8A8_UNORM, &[]);
    globals.sync(&mut runtime);
    assert_eq!(globals.overlay_test_mode, 0);
}

#[test]
fn ensure_independent_flip_state_blocks_only_with_lut_assignments() {
    let mut without_assignments = LutBypassRuntime::new(false, None, None);
    assert_eq!(without_assignments.ensure_independent_flip_state(), None);

    let with_assignments = LutBypassRuntime::new(true, None, None);
    assert_eq!(with_assignments.ensure_independent_flip_state(), Some(0));

    without_assignments.reload_for_new_payload(true);
    assert_eq!(without_assignments.ensure_independent_flip_state(), Some(0));
}

#[test]
fn disable_independent_flip_is_patched_only_while_context_is_active() {
    let pipeline = pipeline_for_single_sdr_monitor();
    let mut globals = Globals::new(0, 0);
    let mut runtime = LutBypassRuntime::new(true, None, Some(DISABLE_INDEPENDENT_FLIP_ADDRESS));

    assert_eq!(globals.disable_independent_flip, 0);

    let _ = runtime.update_present(
        &pipeline,
        0x1234,
        Some(test_identity()),
        clip_box(),
        DXGI_FORMAT_B8G8R8A8_UNORM,
        &[],
    );
    globals.sync(&mut runtime);
    assert_eq!(globals.disable_independent_flip, 1);

    let _ =
        runtime.update_present(&pipeline, 0x1234, None, clip_box(), DXGI_FORMAT_B8G8R8A8_UNORM, &[]);
    globals.sync(&mut runtime);
    assert!(!runtime.has_active_contexts());
    assert_eq!(globals.disable_independent_flip, 0);
}

#[test]
fn disable_independent_flip_rejects_unexpected_value() {
    let pipeline = pipeline_for_single_sdr_monitor();
    let mut globals = Globals::new(0, 7);
    let mut runtime = LutBypassRuntime::new(true, None, Some(DISABLE_INDEPENDENT_FLIP_ADDRESS));

    let _ = runtime.update_present(
        &pipeline,
        0x1234,
        Some(test_identity()),
        clip_box(),
        DXGI_FORMAT_B8G8R8A8_UNORM,
        &[],
    );
    globals.sync(&mut runtime);

    assert_eq!(globals.disable_independent_flip, 7);
    assert!(runtime
        .disable_independent_flip_patch
        .as_ref()
        .is_some_and(|patch| patch.rejected && !patch.applied && patch.original_value.is_none()));
    assert_eq!(runtime.overlays_enabled_override, Some(false));
    assert_eq!(globals.overlays_enabled_override, Some(false));
}

#[test]
fn overlays_enabled_override_returns_true_when_dif_is_applied() {
    let pipeline = pipeline_for_single_sdr_monitor();
    let mut globals = Globals::new(0, 0);
    let mut runtime = LutBypassRuntime::new(true, None, Some(DISABLE_INDEPENDENT_FLIP_ADDRESS));

    let _ = runtime.update_present(
        &pipeline,
        0x1234,
        Some(test_identity()),
        clip_box(),
        DXGI_FORMAT_B8G8R8A8_UNORM,
        &[],
    );
    globals.sync(&mut runtime);

    assert_eq!(globals.disable_independent_flip, 1);
    assert_eq!(runtime.overlays_enabled_override, Some(true));
}

#[test]
fn overlays_enabled_override_returns_false_when_dif_is_unavailable() {
    let pipeline = pipeline_for_single_sdr_monitor();
    let mut globals = Globals::new(0, 0);
    let mut runtime = LutBypassRuntime::new(true, None, None);

    let _ = runtime.update_present(
        &pipeline,
        0x1234,
        Some(test_identity()),
        clip_box(),
        DXGI_FORMAT_B8G8R8A8_UNORM,
        &[],
    );
    globals.sync(&mut runtime);

    assert_eq!(runtime.overlays_enabled_override, Some(false));
}

#[test]
fn reload_for_new_payload_clears_active_contexts_and_restores_overlay_test_mode() {
    let pipeline = pipeline_for_single_sdr_monitor();
    let mut globals = Globals::new(0, 0);
    let mut runtime = LutBypassRuntime::new(
        true,
        Some(OVERLAY_TEST_MODE_ADDRESS),
        Some(DISABLE_INDEPENDENT_FLIP_ADDRESS),
    );

    let _ = runtime.update_present(
        &pipeline,
        0x1234,
        Some(test_identity()),
        clip_box(),
        DXGI_FORMAT_B8G8R8A8_UNORM,
        &[],
    );
    globals.sync(&mut runtime);

    assert!(runtime.has_active_contexts());
    assert_eq!(globals.overlay_test_mode, 5);
    assert_eq!(globals.disable_independent_flip, 1);
    assert_eq!(runtime.overlays_enabled_override, Some(true));

    let work = runtime.reload_for_new_payload(true);
    globals.restore(work);

    assert!(!runtime.has_active_contexts());
    assert_eq!(globals.overlay_test_mode, 0);
    assert_eq!(globals.disable_independent_flip, 0);
    assert_eq!(runtime.overlays_enabled_override, None);
    assert_eq!(runtime.overlay_test_mode(0), 0);
    assert_eq!(work.overlays_enabled_override, Some(None));
}

#[test]
fn unwritable_independent_flip_page_is_given_up_for_good() {
    let pipeline = pipeline_for_single_sdr_monitor();
    let mut globals = Globals::new(0, 0);
    globals.writable = false;
    let mut runtime = LutBypassRuntime::new(true, None, Some(DISABLE_INDEPENDENT_FLIP_ADDRESS));

    let _ = runtime.update_present(
        &pipeline,
        0x1234,
        Some(test_identity()),
        clip_box(),
        DXGI_FORMAT_B8G8R8A8_UNORM,
        &[],
    );
    globals.sync(&mut runtime);
    assert_eq!(globals.disable_independent_flip, 0);
    assert_eq!(runtime.overlays_enabled_override, Some(false));

    globals.writable = true;
    assert_eq!(runtime.set_disable_independent_flip_enabled(true), IndependentFlipStep::Unchanged);
}

#[test]
fn overlay_test_mode_restores_the_captured_mode() {
    let mut runtime = LutBypassRuntime::new(true, Some(OVERLAY_TEST_MODE_ADDRESS), None);
    assert_eq!(
        runtime.set_overlay_test_mode_control(OverlayTestModeControl::ForceMode5),
        OverlayTestModeStep::Capture { address: OVERLAY_TEST_MODE_ADDRESS }
    );
    assert_eq!(
        runtime.finish_overlay_test_mode_capture(3),
        Some(PatchWrite { address: OVERLAY_TEST_MODE_ADDRESS, value: 5 })
    );
    assert_eq!(
        runtime.set_overlay_test_mode_control(OverlayTestModeControl::ForceMode5),
        OverlayTestModeStep::Unchanged
    );
    assert_eq!(
        runtime.set_overlay_test_mode_control(OverlayTestModeControl::Unmodified),
        OverlayTestModeStep::Restore(PatchWrite { address: OVERLAY_TEST_MODE_ADDRESS, value: 3 })
    );
}

#[test]
fn zero_addresses_get_no_patch() {
    let runtime = LutBypassRuntime::new(false, Some(0), Some(0));
    assert!(runtime.overlay_test_mode_patch.is_none());
    assert!(runtime.disable_independent_flip_patch.is_none());
    let default = LutBypassRuntime::default();
    assert!(!default.has_active_contexts());
    assert!(default.direct_flip_support_compatible(true));
}

#[test]
fn overlay_test_mode_control_applies_mode_five_only_when_forced() {
    assert_eq!(OverlayTestModeControl::Unmodified.apply(2), 2);
    assert_eq!(OverlayTestModeControl::ForceMode5.apply(2), 5);
    assert!(OverlayTestModeControl::Unmodified.is_unmodified());
    assert!(OverlayTestModeControl::ForceMode5.is_force_mode_5());
}

#[test]
fn present_with_lut_index_requires_a_lut_of_the_frame_colour_mode() {
    let pipeline = pipeline_for_single_sdr_monitor();
    let mut runtime = LutBypassRuntime::new(true, None, None);
    let outcome = runtime.update_present_with_lut_index(
        &pipeline,
        0x10,
        clip_box(),
        DXGI_FORMAT_B8G8R8A8_UNORM,
        &[],
        Some(0),
    );
    assert!(outcome.promotion_blocked);
    let outcome = runtime.update_present_with_lut_index(
        &pipeline,
        0x10,
        clip_box(),
        DXGI_FORMAT_B8G8R8A8_UNORM,
        &[],
        Some(1),
    );
    assert!(!outcome.promotion_blocked);
    assert!(runtime.context(0x10).is_none());
}

#[test]
fn globals_follow_a_run_of_presents() {
    let pipeline = pipeline_for_single_sdr_monitor();
    let mut globals = Globals::new(3, 0);
    let mut runtime = LutBypassRuntime::new(
        true,
        Some(OVERLAY_TEST_MODE_ADDRESS),
        Some(DISABLE_INDEPENDENT_FLIP_ADDRESS),
    );
    let present = |runtime: &mut LutBypassRuntime, identity: Option<MonitorIdentity>| {
        let _ = runtime.update_present(
            &pipeline,
            0x1234,
            identity,
            clip_box(),
            DXGI_FORMAT_B8G8R8A8_UNORM,
            &[],
        );
    };

    present(&mut runtime, Some(test_identity()));
    globals.sync(&mut runtime);
    assert_eq!((globals.overlay_test_mode, globals.disable_independent_flip), (5, 1));
    assert_eq!(globals.overlays_enabled_override, Some(true));
    assert_eq!(globals.override_calls, 1);

    present(&mut runtime, Some(test_identity()));
    globals.sync(&mut runtime);
    assert_eq!((globals.overlay_test_mode, globals.disable_independent_flip), (5, 1));
    // The override did not change, so the detour is not told again.
    assert_eq!(globals.override_calls, 1);

    present(&mut runtime, None);
    globals.sync(&mut runtime);
    assert_eq!((globals.overlay_test_mode, globals.disable_independent_flip), (3, 0));
    assert_eq!(globals.overlays_enabled_override, None);
    assert_eq!(globals.override_calls, 2);

    present(&mut runtime, Some(test_identity()));
    globals.sync(&mut runtime);
    assert_eq!((globals.overlay_test_mode, globals.disable_independent_flip), (5, 1));
}

#[test]
fn globals_sync_ignores_an_answer_that_does_not_fit() {
    let pipeline = pipeline_for_single_sdr_monitor();
    let mut runtime = LutBypassRuntime::new(true, Some(OVERLAY_TEST_MODE_ADDRESS), None);
    let _ = runtime.update_present(
        &pipeline,
        0x1234,
        Some(test_identity()),
        clip_box(),
        DXGI_FORMAT_B8G8R8A8_UNORM,
        &[],
    );
    let mut sync = GlobalsSync::start(runtime);
    assert_eq!(sync.next_action(), Some(GlobalsAction::ReadI32 { address: OVERLAY_TEST_MODE_ADDRESS }));
    sync.answer(GlobalsReply::Performed);
    assert_eq!(sync.next_action(), Some(GlobalsAction::ReadI32 { address: OVERLAY_TEST_MODE_ADDRESS }));
    sync.answer(GlobalsReply::Value(2));
    assert_eq!(
        sync.next_action(),
        Some(GlobalsAction::Write(PatchWrite { address: OVERLAY_TEST_MODE_ADDRESS, value: 5 }))
    );
    sync.answer(GlobalsReply::Performed);
    assert_eq!(sync.next_action(), Some(GlobalsAction::SetOverlaysEnabledOverride(Some(false))));
    sync.answer(GlobalsReply::Performed);
    assert!(sync.is_finished());
    let runtime = sync.finish();
    assert_eq!(runtime.overlay_test_mode_patch.map(|p| (p.original_mode, p.applied)), Some((Some(2), true)));
    assert_eq!(runtime.overlays_enabled_override, Some(false));
}
