use std::collections::BTreeMap;

use vstd::prelude::*;

use crate::config::MonitorIdentity;
use crate::lut_pipeline::{
    format_from_dxgi, lut_index_plan_outcome, monitor_plan_outcome, BackBufferFormat, ClipBox,
    DirtyRect, LutPipeline, LutRenderPlan,
};

verus! {

broadcast use {vstd::laws_cmp::group_laws_cmp, vstd::std_specs::btree::group_btree_axioms};

/// Whether dwmcore's overlay test mode is left alone or forced to mode 5.
#[derive(Debug, Clone, Copy, PartialEq, Eq, Structural)]
pub enum OverlayTestModeControl {
    Unmodified,
    ForceMode5,
}

/// The overlay test mode that `control` makes of `original_mode`.
pub open spec fn controlled_mode(control: OverlayTestModeControl, original_mode: i32) -> i32 {
    match control {
        OverlayTestModeControl::Unmodified => original_mode,
        OverlayTestModeControl::ForceMode5 => 5,
    }
}

impl OverlayTestModeControl {
    pub fn is_unmodified(self) -> (r: bool)
        ensures
            r == (self is Unmodified),
    {
        matches!(self, OverlayTestModeControl::Unmodified)
    }

    pub fn is_force_mode_5(self) -> (r: bool)
        ensures
            r == (self is ForceMode5),
    {
        matches!(self, OverlayTestModeControl::ForceMode5)
    }

    /// The mode dwmcore sees: its own, or 5 while forced.
    pub fn apply(self, original_mode: i32) -> (r: i32)
        ensures
            r == controlled_mode(self, original_mode),
    {
        match self {
            OverlayTestModeControl::Unmodified => original_mode,
            OverlayTestModeControl::ForceMode5 => 5,
        }
    }
}

/// What the runtime remembers of an overlay context that a LUT is drawn on.
#[derive(Debug, Clone, Copy, PartialEq, Eq, Structural)]
pub struct ContextLutState {
    pub back_buffer_format: Option<BackBufferFormat>,
    pub lut_index: Option<usize>,
    pub dirty_rect_count: usize,
}

/// The answer to a present: the LUT plan, if any, whether promotion of the
/// context to an independent flip is blocked, and the overlay test mode control.
#[derive(Debug, Clone, PartialEq)]
pub struct PresentHookOutcome {
    pub plan: Option<LutRenderPlan>,
    pub promotion_blocked: bool,
    pub overlay_test_mode_control: OverlayTestModeControl,
}

/// The overlay test mode global of dwmcore: where it is, the value it had
/// before it was forced, and whether it is forced now.
#[derive(Debug, Clone, Copy, PartialEq, Eq, Structural)]
pub struct OverlayTestModePatch {
    pub address: usize,
    pub original_mode: Option<i32>,
    pub applied: bool,
}

/// The disable-independent-flip global of dwmcore: where it is, the value it
/// had before it was set, whether it is set now, and whether patching it was
/// given up for good.
#[derive(Debug, Clone, Copy, PartialEq, Eq, Structural)]
pub struct DisableIndependentFlipPatch {
    pub address: usize,
    pub original_value: Option<i32>,
    pub applied: bool,
    pub rejected: bool,
}

/// A 32-bit value to store at an address of the process.
#[derive(Debug, Clone, Copy, PartialEq, Eq, Structural)]
pub struct PatchWrite {
    pub address: usize,
    pub value: i32,
}

/// What changing the overlay test mode control asks of memory.
#[derive(Debug, Clone, Copy, PartialEq, Eq, Structural)]
pub enum OverlayTestModeStep {
    Unchanged,
    /// Read the mode at `address` and hand it to
    /// `finish_overlay_test_mode_capture`.
    Capture { address: usize },
    /// Store the remembered mode back.
    Restore(PatchWrite),
}

/// What switching the disable-independent-flip patch asks of memory.
#[derive(Debug, Clone, Copy, PartialEq, Eq, Structural)]
pub enum IndependentFlipStep {
    Unchanged,
    /// Find out whether the page at `address` is writable and hand the
    /// answer to `disable_independent_flip_page_checked`.
    CheckWritable { address: usize },
    /// Store the remembered value back.
    Restore(PatchWrite),
}

/// The runtime's answer to the writability of the disable-independent-flip page.
#[derive(Debug, Clone, Copy, PartialEq, Eq, Structural)]
pub enum IndependentFlipCheck {
    Ignored,
    /// The page is not writable: the patch is given up.
    PageNotWritable,
    /// Read the value at `address` and hand it to
    /// `disable_independent_flip_value_read`.
    ReadValue { address: usize },
}

/// The runtime's answer to the value read from the disable-independent-flip global.
#[derive(Debug, Clone, Copy, PartialEq, Eq, Structural)]
pub enum IndependentFlipRead {
    Ignored,
    /// The value is neither 0 nor 1: the patch is given up.
    UnexpectedValue(i32),
    /// Store 1 to disable independent flips.
    Write(PatchWrite),
}

/// The memory writes and the override change that restoring dwmcore takes.
#[derive(Debug, Clone, Copy, PartialEq, Eq, Structural)]
pub struct RestoreWork {
    pub overlay_test_mode: Option<PatchWrite>,
    pub disable_independent_flip: Option<PatchWrite>,
    /// `Some(v)` where the overlays-enabled override changed to `v`.
    pub overlays_enabled_override: Option<Option<bool>>,
}

/// Keeps LUT-drawn overlay contexts off direct and independent flips, and the
/// dwmcore globals that help with it.
#[derive(Debug, Clone, PartialEq, Eq)]
pub struct LutBypassRuntime {
    pub overlay_test_mode_control: OverlayTestModeControl,
    pub overlay_test_mode_patch: Option<OverlayTestModePatch>,
    pub disable_independent_flip_patch: Option<DisableIndependentFlipPatch>,
    pub overlays_enabled_override: Option<bool>,
    pub has_lut_assignments: bool,
    pub contexts: BTreeMap<usize, ContextLutState>,
}

/// The value remembered in a patch, or 0 where none was.
pub open spec fn or_zero(v: Option<i32>) -> i32 {
    match v {
        Some(x) => x,
        None => 0,
    }
}

/// The overlay test mode control while `contexts` are the LUT-drawn contexts.
pub open spec fn control_for_contexts(contexts: Map<usize, ContextLutState>) -> OverlayTestModeControl {
    if contexts.is_empty() {
        OverlayTestModeControl::Unmodified
    } else {
        OverlayTestModeControl::ForceMode5
    }
}

/// A patch for the global at `address`, where there is one (0 is none).
pub open spec fn overlay_patch_at(address: Option<usize>) -> Option<OverlayTestModePatch> {
    match address {
        Some(a) => if a != 0 {
            Some(OverlayTestModePatch { address: a, original_mode: None, applied: false })
        } else {
            None
        },
        None => None,
    }
}

/// A patch for the global at `address`, where there is one (0 is none).
pub open spec fn flip_patch_at(address: Option<usize>) -> Option<DisableIndependentFlipPatch> {
    match address {
        Some(a) => if a != 0 {
            Some(
                DisableIndependentFlipPatch {
                    address: a,
                    original_value: None,
                    applied: false,
                    rejected: false,
                },
            )
        } else {
            None
        },
        None => None,
    }
}

/// The overlay test mode patch after `control` is set, and what it asks of memory.
pub open spec fn overlay_control_next(
    patch: Option<OverlayTestModePatch>,
    control: OverlayTestModeControl,
) -> (Option<OverlayTestModePatch>, OverlayTestModeStep) {
    match patch {
        None => (None, OverlayTestModeStep::Unchanged),
        Some(p) => match control {
            OverlayTestModeControl::ForceMode5 => if p.applied {
                (patch, OverlayTestModeStep::Unchanged)
            } else {
                (patch, OverlayTestModeStep::Capture { address: p.address })
            },
            OverlayTestModeControl::Unmodified => if p.applied {
                (
                    Some(
                        OverlayTestModePatch {
                            address: p.address,
                            original_mode: p.original_mode,
                            applied: false,
                        },
                    ),
                    OverlayTestModeStep::Restore(
                        PatchWrite { address: p.address, value: or_zero(p.original_mode) },
                    ),
                )
            } else {
                (patch, OverlayTestModeStep::Unchanged)
            },
        },
    }
}

/// The overlay test mode patch after its original mode was read, and the write that forces it.
pub open spec fn overlay_capture_next(patch: Option<OverlayTestModePatch>, original_mode: i32) -> (
    Option<OverlayTestModePatch>,
    Option<PatchWrite>,
) {
    match patch {
        Some(p) => if p.applied {
            (patch, None)
        } else {
            (
                Some(
                    OverlayTestModePatch {
                        address: p.address,
                        original_mode: Some(original_mode),
                        applied: true,
                    },
                ),
                Some(PatchWrite { address: p.address, value: 5 }),
            )
        },
        None => (None, None),
    }
}

/// The disable-independent-flip patch after it is switched on or off, and
/// what that asks of memory.
pub open spec fn flip_enable_next(patch: Option<DisableIndependentFlipPatch>, enabled: bool) -> (
    Option<DisableIndependentFlipPatch>,
    IndependentFlipStep,
) {
    match patch {
        None => (None, IndependentFlipStep::Unchanged),
        Some(p) => if p.rejected {
            (patch, IndependentFlipStep::Unchanged)
        } else if enabled && !p.applied {
            (patch, IndependentFlipStep::CheckWritable { address: p.address })
        } else if !enabled && p.applied {
            (
                Some(
                    DisableIndependentFlipPatch {
                        address: p.address,
                        original_value: p.original_value,
                        applied: false,
                        rejected: false,
                    },
                ),
                IndependentFlipStep::Restore(
                    PatchWrite { address: p.address, value: or_zero(p.original_value) },
                ),
            )
        } else {
            (patch, IndependentFlipStep::Unchanged)
        },
    }
}

/// The disable-independent-flip patch once the writability of its page is known.
pub open spec fn flip_page_checked_next(patch: Option<DisableIndependentFlipPatch>, writable: bool) -> (
    Option<DisableIndependentFlipPatch>,
    IndependentFlipCheck,
) {
    match patch {
        None => (None, IndependentFlipCheck::Ignored),
        Some(p) => if p.rejected || p.applied {
            (patch, IndependentFlipCheck::Ignored)
        } else if !writable {
            (
                Some(
                    DisableIndependentFlipPatch {
                        address: p.address,
                        original_value: p.original_value,
                        applied: false,
                        rejected: true,
                    },
                ),
                IndependentFlipCheck::PageNotWritable,
            )
        } else {
            (patch, IndependentFlipCheck::ReadValue { address: p.address })
        },
    }
}

/// The disable-independent-flip patch once the global's value is read: only
/// 0 and 1 are expected, and then 1 is stored.
pub open spec fn flip_value_read_next(patch: Option<DisableIndependentFlipPatch>, value: i32) -> (
    Option<DisableIndependentFlipPatch>,
    IndependentFlipRead,
) {
    match patch {
        None => (None, IndependentFlipRead::Ignored),
        Some(p) => if p.rejected || p.applied {
            (patch, IndependentFlipRead::Ignored)
        } else if value != 0 && value != 1 {
            (
                Some(
                    DisableIndependentFlipPatch {
                        address: p.address,
                        original_value: p.original_value,
                        applied: false,
                        rejected: true,
                    },
                ),
                IndependentFlipRead::UnexpectedValue(value),
            )
        } else {
            (
                Some(
                    DisableIndependentFlipPatch {
                        address: p.address,
                        original_value: Some(value),
                        applied: true,
                        rejected: false,
                    },
                ),
                IndependentFlipRead::Write(PatchWrite { address: p.address, value: 1 }),
            )
        },
    }
}

/// The overlays-enabled override: none while no LUT context is active, else
/// whether independent flips are disabled.
pub open spec fn override_value(patch: Option<DisableIndependentFlipPatch>, enabled: bool) -> Option<
    bool,
> {
    if enabled {
        Some(
            match patch {
                Some(p) => p.applied,
                None => false,
            },
        )
    } else {
        None
    }
}

/// The contexts after a present of `context_address` with outcome `plan`.
pub open spec fn contexts_after_present(
    contexts: Map<usize, ContextLutState>,
    context_address: usize,
    dxgi_format: u32,
    dirty_rect_count: usize,
    plan: Option<LutRenderPlan>,
) -> Map<usize, ContextLutState> {
    match plan {
        Some(p) => contexts.insert(
            context_address,
            ContextLutState {
                back_buffer_format: format_from_dxgi(dxgi_format),
                lut_index: Some(p.lut_index),
                dirty_rect_count,
            },
        ),
        None => contexts.remove(context_address),
    }
}

/// `post` is `pre` after a present of `context_address` whose plan is in
/// `outcome`: the context is recorded or forgotten, the control follows the
/// contexts, and the patches and the override are left to a `GlobalsSync`.
pub open spec fn present_recorded(
    pre: LutBypassRuntime,
    post: LutBypassRuntime,
    context_address: usize,
    dxgi_format: u32,
    dirty_rect_count: usize,
    outcome: PresentHookOutcome,
) -> bool {
    &&& outcome.promotion_blocked == outcome.plan is Some
    &&& post.contexts@ == contexts_after_present(
        pre.contexts@,
        context_address,
        dxgi_format,
        dirty_rect_count,
        outcome.plan,
    )
    &&& post.overlay_test_mode_control == control_for_contexts(post.contexts@)
    &&& outcome.overlay_test_mode_control == post.overlay_test_mode_control
    &&& post.overlay_test_mode_patch == pre.overlay_test_mode_patch
    &&& post.disable_independent_flip_patch == pre.disable_independent_flip_patch
    &&& post.overlays_enabled_override == pre.overlays_enabled_override
    &&& post.has_lut_assignments == pre.has_lut_assignments
}

fn remembered_or_zero(v: Option<i32>) -> (r: i32)
    ensures
        r == or_zero(v),
{
    match v {
        Some(x) => x,
        None => 0,
    }
}

impl LutBypassRuntime {
    /// A runtime with no active context; a patch is kept for each global
    /// whose address is given and not 0.
    pub fn new(
        has_lut_assignments: bool,
        overlay_test_mode_address: Option<usize>,
        disable_independent_flip_address: Option<usize>,
    ) -> (r: LutBypassRuntime)
        ensures
            r.overlay_test_mode_control == OverlayTestModeControl::Unmodified,
            r.overlay_test_mode_patch == overlay_patch_at(overlay_test_mode_address),
            r.disable_independent_flip_patch == flip_patch_at(disable_independent_flip_address),
            r.overlays_enabled_override is None,
            r.has_lut_assignments == has_lut_assignments,
            r.contexts@ == Map::<usize, ContextLutState>::empty(),
    {
        let overlay_test_mode_patch = match overlay_test_mode_address {
            Some(address) => if address != 0 {
                Some(OverlayTestModePatch { address, original_mode: None, applied: false })
            } else {
                None
            },
            None => None,
        };
        let disable_independent_flip_patch = match disable_independent_flip_address {
            Some(address) => if address != 0 {
                Some(
                    DisableIndependentFlipPatch {
                        address,
                        original_value: None,
                        applied: false,
                        rejected: false,
                    },
                )
            } else {
                None
            },
            None => None,
        };
        LutBypassRuntime {
            overlay_test_mode_control: OverlayTestModeControl::Unmodified,
            overlay_test_mode_patch,
            disable_independent_flip_patch,
            overlays_enabled_override: None,
            has_lut_assignments,
            contexts: BTreeMap::new(),
        }
    }

    /// Records a present of `context_address` on the monitor `monitor_identity`:
    /// where the monitor has a LUT for the frame, the context is remembered and
    /// its promotion blocked, else it is forgotten. The present is complete
    /// once a `GlobalsSync` started on the runtime has brought dwmcore's
    /// globals and the overlays-enabled override in line.
    pub fn update_present(
        &mut self,
        lut_pipeline: &LutPipeline,
        context_address: usize,
        monitor_identity: Option<MonitorIdentity>,
        clip_box: ClipBox,
        dxgi_format: u32,
        dirty_rects: &[DirtyRect],
    ) -> (outcome: PresentHookOutcome)
        ensures
            match monitor_identity {
                Some(identity) => monitor_plan_outcome(
                    lut_pipeline.luts@,
                    identity,
                    clip_box,
                    dxgi_format,
                    dirty_rects@,
                    outcome.plan,
                ),
                None => outcome.plan is None,
            },
            present_recorded(
                *old(self),
                *final(self),
                context_address,
                dxgi_format,
                dirty_rects@.len() as usize,
                outcome,
            ),
    {
        let plan = match monitor_identity {
            Some(identity) => lut_pipeline.build_present_plan_for_monitor_identity(
                identity,
                clip_box,
                dxgi_format,
                dirty_rects,
            ),
            None => None,
        };
        self.update_context(context_address, dxgi_format, dirty_rects.len(), plan)
    }

    /// As `update_present`, with the LUT chosen by index.
    pub fn update_present_with_lut_index(
        &mut self,
        lut_pipeline: &LutPipeline,
        context_address: usize,
        clip_box: ClipBox,
        dxgi_format: u32,
        dirty_rects: &[DirtyRect],
        lut_index: Option<usize>,
    ) -> (outcome: PresentHookOutcome)
        ensures
            match lut_index {
                Some(index) => lut_index_plan_outcome(
                    lut_pipeline.luts@,
                    clip_box,
                    dxgi_format,
                    dirty_rects@,
                    index,
                    outcome.plan,
                ),
                None => outcome.plan is None,
            },
            present_recorded(
                *old(self),
                *final(self),
                context_address,
                dxgi_format,
                dirty_rects@.len() as usize,
                outcome,
            ),
    {
        let plan = match lut_index {
            Some(index) => lut_pipeline.build_present_plan_for_lut_index(
                clip_box,
                dxgi_format,
                dirty_rects,
                index,
            ),
            None => None,
        };
        self.update_context(context_address, dxgi_format, dirty_rects.len(), plan)
    }

    fn update_context(
        &mut self,
        context_address: usize,
        dxgi_format: u32,
        dirty_rect_count: usize,
        plan: Option<LutRenderPlan>,
    ) -> (outcome: PresentHookOutcome)
        ensures
            outcome.plan == plan,
            present_recorded(
                *old(self),
                *final(self),
                context_address,
                dxgi_format,
                dirty_rect_count,
                outcome,
            ),
    {
        let back_buffer_format = BackBufferFormat::from_dxgi_format(dxgi_format);
        let promotion_blocked = plan.is_some();
        match &plan {
            Some(p) => {
                self.contexts.insert(
                    context_address,
                    ContextLutState {
                        back_buffer_format,
                        lut_index: Some(p.lut_index),
                        dirty_rect_count,
                    },
                );
            },
            None => {
                self.contexts.remove(&context_address);
            },
        }
        self.overlay_test_mode_control = self.overlay_test_mode_control();
        PresentHookOutcome {
            plan,
            promotion_blocked,
            overlay_test_mode_control: self.overlay_test_mode_control,
        }
    }

    /// Whether a context may go to a direct flip: never while a LUT is drawn on it.
    pub fn direct_flip_compatible(&mut self, context_address: usize, original_compatible: bool) -> (r:
        bool)
        ensures
            r == (!old(self).contexts@.contains_key(context_address) && original_compatible),
            *final(self) == *old(self),
    {
        if self.contexts.contains_key(&context_address) {
            false
        } else {
            original_compatible
        }
    }

    /// The independent-flip state dwmcore is made to see: 0 (none) while any
    /// LUT is assigned, else dwmcore's own.
    pub fn ensure_independent_flip_state(&self) -> (r: Option<i32>)
        ensures
            r == (if self.has_lut_assignments {
                Some(0i32)
            } else {
                None
            }),
    {
        if self.has_lut_assignments {
            Some(0)
        } else {
            None
        }
    }

    /// Whether direct-flip support is reported: never while any LUT is assigned.
    pub fn direct_flip_support_compatible(&self, original_compatible: bool) -> (r: bool)
        ensures
            r == (!self.has_lut_assignments && original_compatible),
    {
        if self.has_lut_assignments {
            false
        } else {
            original_compatible
        }
    }

    /// The overlay test mode dwmcore is made to see: 5 while any LUT context
    /// is active, else its own.
    pub fn overlay_test_mode(&self, original_mode: i32) -> (r: i32)
        ensures
            r == controlled_mode(control_for_contexts(self.contexts@), original_mode),
            !self.contexts@.is_empty() ==> r == 5,
            self.contexts@.is_empty() ==> r == original_mode,
    {
        self.overlay_test_mode_control().apply(original_mode)
    }

    /// Leaves dwmcore's globals as they were: the control goes back to
    /// unmodified and both patches are undone; what memory and the override
    /// need for that is returned.
    pub fn restore_overlay_test_mode(&mut self) -> (work: RestoreWork)
        ensures
            final(self).overlay_test_mode_control == OverlayTestModeControl::Unmodified,
            final(self).overlay_test_mode_patch == overlay_control_next(
                old(self).overlay_test_mode_patch,
                OverlayTestModeControl::Unmodified,
            ).0,
            work.overlay_test_mode == match overlay_control_next(
                old(self).overlay_test_mode_patch,
                OverlayTestModeControl::Unmodified,
            ).1 {
                OverlayTestModeStep::Restore(w) => Some(w),
                _ => None::<PatchWrite>,
            },
            final(self).disable_independent_flip_patch == flip_enable_next(
                old(self).disable_independent_flip_patch,
                false,
            ).0,
            work.disable_independent_flip == match flip_enable_next(
                old(self).disable_independent_flip_patch,
                false,
            ).1 {
                IndependentFlipStep::Restore(w) => Some(w),
                _ => None::<PatchWrite>,
            },
            final(self).overlays_enabled_override is None,
            work.overlays_enabled_override == (if old(self).overlays_enabled_override is None {
                None::<Option<bool>>
            } else {
                Some(None::<bool>)
            }),
            final(self).contexts@ == old(self).contexts@,
            final(self).has_lut_assignments == old(self).has_lut_assignments,
    {
        let overlay = self.set_overlay_test_mode_control(OverlayTestModeControl::Unmodified);
        let flip = self.set_disable_independent_flip_enabled(false);
        let overlays_enabled_override = self.set_overlays_enabled_override(false);
        let overlay_test_mode = match overlay {
            OverlayTestModeStep::Restore(w) => Some(w),
            _ => None,
        };
        let disable_independent_flip = match flip {
            IndependentFlipStep::Restore(w) => Some(w),
            _ => None,
        };
        RestoreWork { overlay_test_mode, disable_independent_flip, overlays_enabled_override }
    }

    /// Forgets every context for a new payload and restores dwmcore's globals.
    pub fn reload_for_new_payload(&mut self, has_lut_assignments: bool) -> (work: RestoreWork)
        ensures
            final(self).contexts@ == Map::<usize, ContextLutState>::empty(),
            final(self).has_lut_assignments == has_lut_assignments,
            final(self).overlay_test_mode_control == OverlayTestModeControl::Unmodified,
            final(self).overlay_test_mode_patch == overlay_control_next(
                old(self).overlay_test_mode_patch,
                OverlayTestModeControl::Unmodified,
            ).0,
            work.overlay_test_mode == match overlay_control_next(
                old(self).overlay_test_mode_patch,
                OverlayTestModeControl::Unmodified,
            ).1 {
                OverlayTestModeStep::Restore(w) => Some(w),
                _ => None::<PatchWrite>,
            },
            final(self).disable_independent_flip_patch == flip_enable_next(
                old(self).disable_independent_flip_patch,
                false,
            ).0,
            work.disable_independent_flip == match flip_enable_next(
                old(self).disable_independent_flip_patch,
                false,
            ).1 {
                IndependentFlipStep::Restore(w) => Some(w),
                _ => None::<PatchWrite>,
            },
            final(self).overlays_enabled_override is None,
            work.overlays_enabled_override == (if old(self).overlays_enabled_override is None {
                None::<Option<bool>>
            } else {
                Some(None::<bool>)
            }),
    {
        self.contexts.clear();
        self.has_lut_assignments = has_lut_assignments;
        self.restore_overlay_test_mode()
    }

    /// What the runtime remembers of `context_address`, if it is active.
    pub fn context(&self, context_address: usize) -> (r: Option<&ContextLutState>)
        ensures
            match r {
                Some(state) => self.contexts@.contains_key(context_address) && *state
                    == self.contexts@[context_address],
                None => !self.contexts@.contains_key(context_address),
            },
    {
        self.contexts.get(&context_address)
    }

    /// Whether a LUT is drawn on any context.
    pub fn has_active_contexts(&self) -> (r: bool)
        ensures
            r == !self.contexts@.is_empty(),
    {
        !self.contexts.is_empty()
    }

    fn overlay_test_mode_control(&self) -> (r: OverlayTestModeControl)
        ensures
            r == control_for_contexts(self.contexts@),
    {
        if self.has_active_contexts() {
            OverlayTestModeControl::ForceMode5
        } else {
            OverlayTestModeControl::Unmodified
        }
    }

    /// Sets the overlay test mode control; forcing the mode first needs its
    /// current value (a `Capture`), unforcing it writes the remembered one back.
    pub fn set_overlay_test_mode_control(&mut self, control: OverlayTestModeControl) -> (step:
        OverlayTestModeStep)
        ensures
            final(self).overlay_test_mode_control == control,
            (final(self).overlay_test_mode_patch, step) == overlay_control_next(
                old(self).overlay_test_mode_patch,
                control,
            ),
            final(self).disable_independent_flip_patch == old(self).disable_independent_flip_patch,
            final(self).overlays_enabled_override == old(self).overlays_enabled_override,
            final(self).contexts@ == old(self).contexts@,
            final(self).has_lut_assignments == old(self).has_lut_assignments,
    {
        self.overlay_test_mode_control = control;
        match self.overlay_test_mode_patch {
            None => OverlayTestModeStep::Unchanged,
            Some(p) => match control {
                OverlayTestModeControl::ForceMode5 => if p.applied {
                    OverlayTestModeStep::Unchanged
                } else {
                    OverlayTestModeStep::Capture { address: p.address }
                },
                OverlayTestModeControl::Unmodified => if p.applied {
                    self.overlay_test_mode_patch = Some(
                        OverlayTestModePatch {
                            address: p.address,
                            original_mode: p.original_mode,
                            applied: false,
                        },
                    );
                    OverlayTestModeStep::Restore(
                        PatchWrite {
                            address: p.address,
                            value: remembered_or_zero(p.original_mode),
                        },
                    )
                } else {
                    OverlayTestModeStep::Unchanged
                },
            },
        }
    }

    /// Remembers the overlay test mode read for a `Capture` and returns the
    /// write that forces mode 5.
    pub fn finish_overlay_test_mode_capture(&mut self, original_mode: i32) -> (write: Option<
        PatchWrite,
    >)
        ensures
            (final(self).overlay_test_mode_patch, write) == overlay_capture_next(
                old(self).overlay_test_mode_patch,
                original_mode,
            ),
            final(self).overlay_test_mode_control == old(self).overlay_test_mode_control,
            final(self).disable_independent_flip_patch == old(self).disable_independent_flip_patch,
            final(self).overlays_enabled_override == old(self).overlays_enabled_override,
            final(self).contexts@ == old(self).contexts@,
            final(self).has_lut_assignments == old(self).has_lut_assignments,
    {
        match self.overlay_test_mode_patch {
            Some(p) => if p.applied {
                None
            } else {
                self.overlay_test_mode_patch = Some(
                    OverlayTestModePatch {
                        address: p.address,
                        original_mode: Some(original_mode),
                        applied: true,
                    },
                );
                Some(PatchWrite { address: p.address, value: 5 })
            },
            None => None,
        }
    }

    /// Switches the disable-independent-flip patch on or off; switching it on
    /// first needs the writability of its page (a `CheckWritable`).
    pub fn set_disable_independent_flip_enabled(&mut self, enabled: bool) -> (step:
        IndependentFlipStep)
        ensures
            (final(self).disable_independent_flip_patch, step) == flip_enable_next(
                old(self).disable_independent_flip_patch,
                enabled,
            ),
            final(self).overlay_test_mode_control == old(self).overlay_test_mode_control,
            final(self).overlay_test_mode_patch == old(self).overlay_test_mode_patch,
            final(self).overlays_enabled_override == old(self).overlays_enabled_override,
            final(self).contexts@ == old(self).contexts@,
            final(self).has_lut_assignments == old(self).has_lut_assignments,
    {
        match self.disable_independent_flip_patch {
            None => IndependentFlipStep::Unchanged,
            Some(p) => if p.rejected {
                IndependentFlipStep::Unchanged
            } else if enabled && !p.applied {
                IndependentFlipStep::CheckWritable { address: p.address }
            } else if !enabled && p.applied {
                self.disable_independent_flip_patch = Some(
                    DisableIndependentFlipPatch {
                        address: p.address,
                        original_value: p.original_value,
                        applied: false,
                        rejected: false,
                    },
                );
                IndependentFlipStep::Restore(
                    PatchWrite { address: p.address, value: remembered_or_zero(p.original_value) },
                )
            } else {
                IndependentFlipStep::Unchanged
            },
        }
    }

    /// Takes in whether the disable-independent-flip page is writable: if
    /// not, the patch is given up; if so, its value is to be read.
    pub fn disable_independent_flip_page_checked(&mut self, writable: bool) -> (check:
        IndependentFlipCheck)
        ensures
            (final(self).disable_independent_flip_patch, check) == flip_page_checked_next(
                old(self).disable_independent_flip_patch,
                writable,
            ),
            final(self).overlay_test_mode_control == old(self).overlay_test_mode_control,
            final(self).overlay_test_mode_patch == old(self).overlay_test_mode_patch,
            final(self).overlays_enabled_override == old(self).overlays_enabled_override,
            final(self).contexts@ == old(self).contexts@,
            final(self).has_lut_assignments == old(self).has_lut_assignments,
    {
        match self.disable_independent_flip_patch {
            None => IndependentFlipCheck::Ignored,
            Some(p) => if p.rejected || p.applied {
                IndependentFlipCheck::Ignored
            } else if !writable {
                self.disable_independent_flip_patch = Some(
                    DisableIndependentFlipPatch {
                        address: p.address,
                        original_value: p.original_value,
                        applied: false,
                        rejected: true,
                    },
                );
                IndependentFlipCheck::PageNotWritable
            } else {
                IndependentFlipCheck::ReadValue { address: p.address }
            },
        }
    }

    /// Takes in the disable-independent-flip value read: 0 or 1 is remembered
    /// and 1 is to be written; any other value gives the patch up.
    pub fn disable_independent_flip_value_read(&mut self, value: i32) -> (read: IndependentFlipRead)
        ensures
            (final(self).disable_independent_flip_patch, read) == flip_value_read_next(
                old(self).disable_independent_flip_patch,
                value,
            ),
            final(self).overlay_test_mode_control == old(self).overlay_test_mode_control,
            final(self).overlay_test_mode_patch == old(self).overlay_test_mode_patch,
            final(self).overlays_enabled_override == old(self).overlays_enabled_override,
            final(self).contexts@ == old(self).contexts@,
            final(self).has_lut_assignments == old(self).has_lut_assignments,
    {
        match self.disable_independent_flip_patch {
            None => IndependentFlipRead::Ignored,
            Some(p) => if p.rejected || p.applied {
                IndependentFlipRead::Ignored
            } else if value != 0 && value != 1 {
                self.disable_independent_flip_patch = Some(
                    DisableIndependentFlipPatch {
                        address: p.address,
                        original_value: p.original_value,
                        applied: false,
                        rejected: true,
                    },
                );
                IndependentFlipRead::UnexpectedValue(value)
            } else {
                self.disable_independent_flip_patch = Some(
                    DisableIndependentFlipPatch {
                        address: p.address,
                        original_value: Some(value),
                        applied: true,
                        rejected: false,
                    },
                );
                IndependentFlipRead::Write(PatchWrite { address: p.address, value: 1 })
            },
        }
    }

    /// Sets the overlays-enabled override for `enabled`; returns the new
    /// override where it changed.
    pub fn set_overlays_enabled_override(&mut self, enabled: bool) -> (changed: Option<Option<bool>>)
        ensures
            final(self).overlays_enabled_override == override_value(
                old(self).disable_independent_flip_patch,
                enabled,
            ),
            changed == (if old(self).overlays_enabled_override == override_value(
                old(self).disable_independent_flip_patch,
                enabled,
            ) {
                None::<Option<bool>>
            } else {
                Some(override_value(old(self).disable_independent_flip_patch, enabled))
            }),
            final(self).overlay_test_mode_control == old(self).overlay_test_mode_control,
            final(self).overlay_test_mode_patch == old(self).overlay_test_mode_patch,
            final(self).disable_independent_flip_patch == old(self).disable_independent_flip_patch,
            final(self).contexts@ == old(self).contexts@,
            final(self).has_lut_assignments == old(self).has_lut_assignments,
    {
        let value = if enabled {
            Some(
                match self.disable_independent_flip_patch {
                    Some(p) => p.applied,
                    None => false,
                },
            )
        } else {
            None
        };
        let unchanged = match (self.overlays_enabled_override, value) {
            (None, None) => true,
            (Some(a), Some(b)) => a == b,
            _ => false,
        };
        if unchanged {
            return None;
        }
        self.overlays_enabled_override = value;
        Some(value)
    }
}

/// Forcing the overlay test mode captures the mode once, and unforcing it
/// writes back exactly the mode that was captured.
pub proof fn lemma_overlay_test_mode_restores_captured_mode(
    patch: OverlayTestModePatch,
    original_mode: i32,
)
    requires
        !patch.applied,
    ensures
        ({
            let (p1, s1) = overlay_control_next(Some(patch), OverlayTestModeControl::ForceMode5);
            let (p2, w2) = overlay_capture_next(p1, original_mode);
            let (p2_again, s2_again) = overlay_control_next(p2, OverlayTestModeControl::ForceMode5);
            let (p3, s3) = overlay_control_next(p2, OverlayTestModeControl::Unmodified);
            &&& s1 == OverlayTestModeStep::Capture { address: patch.address }
            &&& w2 == Some(PatchWrite { address: patch.address, value: 5 })
            &&& p2_again == p2 && s2_again == OverlayTestModeStep::Unchanged
            &&& s3 == OverlayTestModeStep::Restore(
                PatchWrite { address: patch.address, value: original_mode },
            )
            &&& p3 == Some(
                OverlayTestModePatch {
                    address: patch.address,
                    original_mode: Some(original_mode),
                    applied: false,
                },
            )
        }),
{
}

/// Disabling independent flips on a writable page holding 0 or 1 stores 1,
/// and enabling them again writes back the value that was read.
pub proof fn lemma_independent_flip_restores_original_value(
    patch: DisableIndependentFlipPatch,
    value: i32,
)
    requires
        !patch.applied,
        !patch.rejected,
        value == 0 || value == 1,
    ensures
        ({
            let (p1, s1) = flip_enable_next(Some(patch), true);
            let (p2, c2) = flip_page_checked_next(p1, true);
            let (p3, r3) = flip_value_read_next(p2, value);
            let (p4, s4) = flip_enable_next(p3, false);
            &&& s1 == IndependentFlipStep::CheckWritable { address: patch.address }
            &&& c2 == IndependentFlipCheck::ReadValue { address: patch.address }
            &&& r3 == IndependentFlipRead::Write(PatchWrite { address: patch.address, value: 1 })
            &&& override_value(p3, true) == Some(true)
            &&& s4 == IndependentFlipStep::Restore(PatchWrite { address: patch.address, value })
            &&& p4 == Some(
                DisableIndependentFlipPatch {
                    address: patch.address,
                    original_value: Some(value),
                    applied: false,
                    rejected: false,
                },
            )
        }),
{
}

/// A page that is not writable, or a value other than 0 and 1, gives the
/// disable-independent-flip patch up without any write.
pub proof fn lemma_independent_flip_refuses_without_writing(
    patch: DisableIndependentFlipPatch,
    value: i32,
)
    requires
        !patch.applied,
        !patch.rejected,
    ensures
        ({
            let (p, c) = flip_page_checked_next(Some(patch), false);
            c == IndependentFlipCheck::PageNotWritable && p.unwrap().rejected && !p.unwrap().applied
        }),
        value != 0 && value != 1 ==> ({
            let (p, r) = flip_value_read_next(Some(patch), value);
            r == IndependentFlipRead::UnexpectedValue(value) && p.unwrap().rejected
                && !p.unwrap().applied
        }),
{
}

/// Once given up, the disable-independent-flip patch asks nothing of memory
/// and stays as it is, whatever happens next.
pub proof fn lemma_independent_flip_rejection_is_final(
    patch: DisableIndependentFlipPatch,
    enabled: bool,
    writable: bool,
    value: i32,
)
    requires
        patch.rejected,
    ensures
        flip_enable_next(Some(patch), enabled) == (Some(patch), IndependentFlipStep::Unchanged),
        flip_page_checked_next(Some(patch), writable) == (
            Some(patch),
            IndependentFlipCheck::Ignored,
        ),
        flip_value_read_next(Some(patch), value) == (Some(patch), IndependentFlipRead::Ignored),
{
}

/// A present changes what is remembered of its own context only: that
/// context is active afterwards exactly when the present got a plan, and
/// every other context is as it was.
pub proof fn lemma_present_touches_only_its_context(
    contexts: Map<usize, ContextLutState>,
    context_address: usize,
    other_address: usize,
    dxgi_format: u32,
    dirty_rect_count: usize,
    plan: Option<LutRenderPlan>,
)
    requires
        other_address != context_address,
    ensures
        ({
            let after = contexts_after_present(
                contexts,
                context_address,
                dxgi_format,
                dirty_rect_count,
                plan,
            );
            &&& after.contains_key(context_address) == plan is Some
            &&& after.contains_key(other_address) == contexts.contains_key(other_address)
            &&& contexts.contains_key(other_address) ==> after[other_address]
                == contexts[other_address]
            &&& plan is Some ==> control_for_contexts(after) == OverlayTestModeControl::ForceMode5
        }),
{
    let after = contexts_after_present(
        contexts,
        context_address,
        dxgi_format,
        dirty_rect_count,
        plan,
    );
    if plan is Some {
        assert(after.dom().contains(context_address));
        assert(!after.is_empty());
    }
}

impl Default for LutBypassRuntime {
    fn default() -> (r: LutBypassRuntime)
        ensures
            r.overlay_test_mode_control == OverlayTestModeControl::Unmodified,
            r.overlay_test_mode_patch is None,
            r.disable_independent_flip_patch is None,
            r.overlays_enabled_override is None,
            !r.has_lut_assignments,
            r.contexts@ == Map::<usize, ContextLutState>::empty(),
    {
        LutBypassRuntime::new(false, None, None)
    }
}

} // verus!
