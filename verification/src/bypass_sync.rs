use vstd::prelude::*;

use crate::lut_pipeline::{format_from_dxgi, LutRenderPlan};

use crate::lut_bypass::{
    contexts_after_present, flip_enable_next, flip_page_checked_next, flip_value_read_next, or_zero, overlay_capture_next,
    overlay_control_next, override_value, ContextLutState, DisableIndependentFlipPatch,
    IndependentFlipCheck, IndependentFlipRead, IndependentFlipStep, LutBypassRuntime,
    OverlayTestModeControl, OverlayTestModePatch, OverlayTestModeStep, PatchWrite,
};

verus! {

broadcast use vstd::std_specs::btree::group_btree_axioms;

/// The part of the LUT bypass runtime that bringing dwmcore's globals in
/// line after a present changes.
#[derive(Debug, Clone, Copy, PartialEq, Eq, Structural)]
pub struct BypassGlobals {
    pub overlay_test_mode_patch: Option<OverlayTestModePatch>,
    pub disable_independent_flip_patch: Option<DisableIndependentFlipPatch>,
    pub overlays_enabled_override: Option<bool>,
}

/// The globals part of `r`.
pub open spec fn globals_of(r: LutBypassRuntime) -> BypassGlobals {
    BypassGlobals {
        overlay_test_mode_patch: r.overlay_test_mode_patch,
        disable_independent_flip_patch: r.disable_independent_flip_patch,
        overlays_enabled_override: r.overlays_enabled_override,
    }
}

/// The overlay test mode control while a LUT context is `active` or not.
pub open spec fn control_of(active: bool) -> OverlayTestModeControl {
    if active {
        OverlayTestModeControl::ForceMode5
    } else {
        OverlayTestModeControl::Unmodified
    }
}

/// The overlay test mode patch once `control` is set, `mode` being the
/// global's value where it had to be read.
pub open spec fn synced_overlay_patch(
    patch: Option<OverlayTestModePatch>,
    control: OverlayTestModeControl,
    mode: i32,
) -> Option<OverlayTestModePatch> {
    let (p1, step) = overlay_control_next(patch, control);
    match step {
        OverlayTestModeStep::Capture { .. } => overlay_capture_next(p1, mode).0,
        _ => p1,
    }
}

/// The write to the overlay test mode global that setting `control` makes.
pub open spec fn synced_overlay_write(
    patch: Option<OverlayTestModePatch>,
    control: OverlayTestModeControl,
    mode: i32,
) -> Option<PatchWrite> {
    let (p1, step) = overlay_control_next(patch, control);
    match step {
        OverlayTestModeStep::Capture { .. } => overlay_capture_next(p1, mode).1,
        OverlayTestModeStep::Restore(w) => Some(w),
        OverlayTestModeStep::Unchanged => None,
    }
}

/// The disable-independent-flip patch once it is switched to `enabled`,
/// `writable` and `value` being the page's writability and the global's
/// value where they had to be found out.
pub open spec fn synced_flip_patch(
    patch: Option<DisableIndependentFlipPatch>,
    enabled: bool,
    writable: bool,
    value: i32,
) -> Option<DisableIndependentFlipPatch> {
    let (p1, step) = flip_enable_next(patch, enabled);
    match step {
        IndependentFlipStep::CheckWritable { .. } => {
            let (p2, check) = flip_page_checked_next(p1, writable);
            match check {
                IndependentFlipCheck::ReadValue { .. } => flip_value_read_next(p2, value).0,
                _ => p2,
            }
        },
        _ => p1,
    }
}

/// The write to the disable-independent-flip global that switching it makes.
pub open spec fn synced_flip_write(
    patch: Option<DisableIndependentFlipPatch>,
    enabled: bool,
    writable: bool,
    value: i32,
) -> Option<PatchWrite> {
    let (p1, step) = flip_enable_next(patch, enabled);
    match step {
        IndependentFlipStep::CheckWritable { .. } => {
            let (p2, check) = flip_page_checked_next(p1, writable);
            match check {
                IndependentFlipCheck::ReadValue { .. } => match flip_value_read_next(p2, value).1 {
                    IndependentFlipRead::Write(w) => Some(w),
                    _ => None,
                },
                _ => None,
            }
        },
        IndependentFlipStep::Restore(w) => Some(w),
        IndependentFlipStep::Unchanged => None,
    }
}

/// The globals after a present leaves a LUT context `active` or not: the
/// overlay test mode control follows, then the disable-independent-flip
/// patch, then the overlays-enabled override.
pub open spec fn globals_after_sync(
    g: BypassGlobals,
    active: bool,
    mode: i32,
    writable: bool,
    value: i32,
) -> BypassGlobals {
    let flip = synced_flip_patch(g.disable_independent_flip_patch, active, writable, value);
    BypassGlobals {
        overlay_test_mode_patch: synced_overlay_patch(
            g.overlay_test_mode_patch,
            control_of(active),
            mode,
        ),
        disable_independent_flip_patch: flip,
        overlays_enabled_override: override_value(flip, active),
    }
}

/// A single write as a sequence, or none.
pub open spec fn write_seq(w: Option<PatchWrite>) -> Seq<PatchWrite> {
    match w {
        Some(x) => seq![x],
        None => Seq::empty(),
    }
}

/// The writes that bringing the globals in line makes, in order.
pub open spec fn synced_writes(
    g: BypassGlobals,
    active: bool,
    mode: i32,
    writable: bool,
    value: i32,
) -> Seq<PatchWrite> {
    write_seq(synced_overlay_write(g.overlay_test_mode_patch, control_of(active), mode))
        + write_seq(synced_flip_write(g.disable_independent_flip_patch, active, writable, value))
}

/// What bringing the globals in line asks of the process next.
#[derive(Debug, Clone, Copy, PartialEq, Eq, Structural)]
pub enum GlobalsAction {
    /// Read the `i32` at `address`; answer with `GlobalsReply::Value`.
    ReadI32 { address: usize },
    /// Find out whether the page holding `address` is writable; answer with
    /// `GlobalsReply::Writable`.
    CheckWritable { address: usize },
    /// Store the value; answer with `GlobalsReply::Performed`.
    Write(PatchWrite),
    /// Hand the overlays-enabled detour its new override; answer with
    /// `GlobalsReply::Performed`.
    SetOverlaysEnabledOverride(Option<bool>),
}

/// The answer to a `GlobalsAction`.
#[derive(Debug, Clone, Copy, PartialEq, Eq, Structural)]
pub enum GlobalsReply {
    Value(i32),
    Writable(bool),
    Performed,
}

/// Whether `reply` answers `action`.
pub open spec fn reply_fits(action: Option<GlobalsAction>, reply: GlobalsReply) -> bool {
    match action {
        Some(GlobalsAction::ReadI32 { .. }) => reply is Value,
        Some(GlobalsAction::CheckWritable { .. }) => reply is Writable,
        Some(GlobalsAction::Write(_)) => reply is Performed,
        Some(GlobalsAction::SetOverlaysEnabledOverride(_)) => reply is Performed,
        None => false,
    }
}

/// How far bringing the globals in line has come.
#[derive(Debug, Clone, Copy, PartialEq, Eq, Structural)]
pub enum SyncStage {
    OverlayRead,
    OverlayWrite,
    FlipCheck,
    FlipRead,
    FlipWrite,
    Override,
    Finished,
}

/// The state of a sync: the runtime's globals and contexts when it started,
/// whether a LUT context is active, the stage and the pending action, the
/// answers taken in so far, the writes performed, and the runtime now.
pub struct GlobalsSyncView {
    pub start: BypassGlobals,
    pub start_contexts: Map<usize, ContextLutState>,
    pub has_lut_assignments: bool,
    pub active: bool,
    pub stage: SyncStage,
    pub pending: Option<GlobalsAction>,
    pub mode: Option<i32>,
    pub writable: Option<bool>,
    pub value: Option<i32>,
    pub writes: Seq<PatchWrite>,
    pub current: BypassGlobals,
    pub contexts: Map<usize, ContextLutState>,
    pub control: OverlayTestModeControl,
    pub current_has_lut_assignments: bool,
}

/// Whether a sync's stage is one that comes after the disable-independent-flip
/// page was checked.
pub open spec fn past_flip_check(stage: SyncStage) -> bool {
    stage is FlipRead || stage is FlipWrite || stage is Override || stage is Finished
}

/// Whether a sync's stage comes after the disable-independent-flip value was read.
pub open spec fn past_flip_read(stage: SyncStage) -> bool {
    stage is FlipWrite || stage is Override || stage is Finished
}

/// The consistency of a sync's state: what each stage has done and asks
/// for, given the answers taken in so far.
pub open spec fn sync_consistent(v: GlobalsSyncView) -> bool {
    let g0 = v.start;
    let a = v.active;
    let c = control_of(a);
    let ov = overlay_control_next(g0.overlay_test_mode_patch, c);
    let fe = flip_enable_next(g0.disable_independent_flip_patch, a);
    let mode = or_zero(v.mode);
    let writable = match v.writable {
        Some(b) => b,
        None => false,
    };
    let value = or_zero(v.value);
    let pc = flip_page_checked_next(fe.0, writable);
    let overlay_done = synced_overlay_patch(g0.overlay_test_mode_patch, c, mode);
    let overlay_writes = write_seq(synced_overlay_write(g0.overlay_test_mode_patch, c, mode));
    let fin = globals_after_sync(g0, a, mode, writable, value);
    &&& a == !v.start_contexts.is_empty()
    &&& v.contexts == v.start_contexts
    &&& v.current_has_lut_assignments == v.has_lut_assignments
    &&& v.control == c
    &&& (v.mode is Some <==> (ov.1 is Capture && !(v.stage is OverlayRead)))
    &&& (v.writable is Some <==> (fe.1 is CheckWritable && past_flip_check(v.stage)))
    &&& (v.value is Some <==> (fe.1 is CheckWritable && pc.1 is ReadValue && past_flip_read(
        v.stage,
    )))
    &&& match v.stage {
        SyncStage::OverlayRead => {
            &&& ov.1 matches OverlayTestModeStep::Capture { address } && v.pending == Some(
                GlobalsAction::ReadI32 { address },
            )
            &&& v.current == BypassGlobals { overlay_test_mode_patch: ov.0, ..g0 }
            &&& v.writes == Seq::<PatchWrite>::empty()
        },
        SyncStage::OverlayWrite => {
            &&& synced_overlay_write(g0.overlay_test_mode_patch, c, mode) matches Some(w)
                && v.pending == Some(GlobalsAction::Write(w))
            &&& v.current == BypassGlobals { overlay_test_mode_patch: overlay_done, ..g0 }
            &&& v.writes == Seq::<PatchWrite>::empty()
        },
        SyncStage::FlipCheck => {
            &&& fe.1 matches IndependentFlipStep::CheckWritable { address } && v.pending == Some(
                GlobalsAction::CheckWritable { address },
            )
            &&& v.current == BypassGlobals {
                overlay_test_mode_patch: overlay_done,
                disable_independent_flip_patch: fe.0,
                overlays_enabled_override: g0.overlays_enabled_override,
            }
            &&& v.writes == overlay_writes
        },
        SyncStage::FlipRead => {
            &&& pc.1 matches IndependentFlipCheck::ReadValue { address } && v.pending == Some(
                GlobalsAction::ReadI32 { address },
            )
            &&& v.current == BypassGlobals {
                overlay_test_mode_patch: overlay_done,
                disable_independent_flip_patch: pc.0,
                overlays_enabled_override: g0.overlays_enabled_override,
            }
            &&& v.writes == overlay_writes
        },
        SyncStage::FlipWrite => {
            &&& synced_flip_write(g0.disable_independent_flip_patch, a, writable, value) matches Some(w)
                && v.pending == Some(GlobalsAction::Write(w))
            &&& v.current == BypassGlobals {
                overlays_enabled_override: g0.overlays_enabled_override,
                ..fin
            }
            &&& v.writes == overlay_writes
        },
        SyncStage::Override => {
            &&& v.current == fin
            &&& fin.overlays_enabled_override != g0.overlays_enabled_override
            &&& v.pending == Some(
                GlobalsAction::SetOverlaysEnabledOverride(fin.overlays_enabled_override),
            )
            &&& v.writes == synced_writes(g0, a, mode, writable, value)
        },
        SyncStage::Finished => {
            &&& v.current == fin
            &&& v.pending is None
            &&& v.writes == synced_writes(g0, a, mode, writable, value)
        },
    }
}

/// Brings dwmcore's overlay test mode and disable-independent-flip globals
/// and the overlays-enabled override in line with the runtime after a
/// present, one process action at a time: the caller performs each action
/// that `next_action` names and hands the answer to `answer`, then takes
/// the runtime back with `finish`.
pub struct GlobalsSync {
    runtime: LutBypassRuntime,
    start: Ghost<BypassGlobals>,
    start_contexts: Ghost<Map<usize, ContextLutState>>,
    has_lut_assignments: Ghost<bool>,
    active: bool,
    stage: SyncStage,
    pending: Option<GlobalsAction>,
    mode: Option<i32>,
    writable: Option<bool>,
    value: Option<i32>,
    writes: Ghost<Seq<PatchWrite>>,
}

impl GlobalsSync {
    pub closed spec fn view(&self) -> GlobalsSyncView {
        GlobalsSyncView {
            start: self.start@,
            start_contexts: self.start_contexts@,
            has_lut_assignments: self.has_lut_assignments@,
            active: self.active,
            stage: self.stage,
            pending: self.pending,
            mode: self.mode,
            writable: self.writable,
            value: self.value,
            writes: self.writes@,
            current: globals_of(self.runtime),
            contexts: self.runtime.contexts@,
            control: self.runtime.overlay_test_mode_control,
            current_has_lut_assignments: self.runtime.has_lut_assignments,
        }
    }

    /// Whether the sync's state is consistent.
    pub open spec fn wf(&self) -> bool {
        sync_consistent(self@)
    }

    /// Moves on to the disable-independent-flip patch once the overlay test
    /// mode is in line.
    fn enter_flip(&mut self)
        requires
            ({
                let v = old(self)@;
                let c = control_of(v.active);
                let mode = or_zero(v.mode);
                &&& v.active == !v.start_contexts.is_empty()
                &&& v.contexts == v.start_contexts
                &&& v.current_has_lut_assignments == v.has_lut_assignments
                &&& v.control == c
                &&& (v.mode is Some <==> overlay_control_next(
                    v.start.overlay_test_mode_patch,
                    c,
                ).1 is Capture)
                &&& v.writable is None
                &&& v.value is None
                &&& v.current == BypassGlobals {
                    overlay_test_mode_patch: synced_overlay_patch(
                        v.start.overlay_test_mode_patch,
                        c,
                        mode,
                    ),
                    ..v.start
                }
                &&& v.writes == write_seq(
                    synced_overlay_write(v.start.overlay_test_mode_patch, c, mode),
                )
            }),
        ensures
            final(self).wf(),
            final(self)@.start == old(self)@.start,
            final(self)@.start_contexts == old(self)@.start_contexts,
            final(self)@.has_lut_assignments == old(self)@.has_lut_assignments,
            final(self)@.active == old(self)@.active,
            final(self)@.mode == old(self)@.mode,
            final(self)@.writable == old(self)@.writable,
            final(self)@.value == old(self)@.value,
            final(self)@.stage != SyncStage::OverlayRead,
            final(self)@.stage != SyncStage::OverlayWrite,
    {
        let step = self.runtime.set_disable_independent_flip_enabled(self.active);
        match step {
            IndependentFlipStep::CheckWritable { address } => {
                self.stage = SyncStage::FlipCheck;
                self.pending = Some(GlobalsAction::CheckWritable { address });
            },
            IndependentFlipStep::Restore(w) => {
                self.stage = SyncStage::FlipWrite;
                self.pending = Some(GlobalsAction::Write(w));
            },
            IndependentFlipStep::Unchanged => {
                self.enter_override();
            },
        }
    }

    /// Moves on to the overlays-enabled override once the
    /// disable-independent-flip patch is in line.
    fn enter_override(&mut self)
        requires
            ({
                let v = old(self)@;
                let c = control_of(v.active);
                let mode = or_zero(v.mode);
                let writable = match v.writable {
                    Some(b) => b,
                    None => false,
                };
                let value = or_zero(v.value);
                let fe = flip_enable_next(v.start.disable_independent_flip_patch, v.active);
                let pc = flip_page_checked_next(fe.0, writable);
                let fin = globals_after_sync(v.start, v.active, mode, writable, value);
                &&& v.active == !v.start_contexts.is_empty()
                &&& v.contexts == v.start_contexts
                &&& v.current_has_lut_assignments == v.has_lut_assignments
                &&& v.control == c
                &&& (v.mode is Some <==> overlay_control_next(
                    v.start.overlay_test_mode_patch,
                    c,
                ).1 is Capture)
                &&& (v.writable is Some <==> fe.1 is CheckWritable)
                &&& (v.value is Some <==> (fe.1 is CheckWritable && pc.1 is ReadValue))
                &&& v.current == BypassGlobals {
                    overlays_enabled_override: v.start.overlays_enabled_override,
                    ..fin
                }
                &&& v.writes == synced_writes(v.start, v.active, mode, writable, value)
            }),
        ensures
            final(self).wf(),
            final(self)@.start == old(self)@.start,
            final(self)@.start_contexts == old(self)@.start_contexts,
            final(self)@.has_lut_assignments == old(self)@.has_lut_assignments,
            final(self)@.active == old(self)@.active,
            final(self)@.mode == old(self)@.mode,
            final(self)@.writable == old(self)@.writable,
            final(self)@.value == old(self)@.value,
            final(self)@.stage is Override || final(self)@.stage is Finished,
    {
        let changed = self.runtime.set_overlays_enabled_override(self.active);
        match changed {
            Some(v) => {
                self.stage = SyncStage::Override;
                self.pending = Some(GlobalsAction::SetOverlaysEnabledOverride(v));
            },
            None => {
                self.stage = SyncStage::Finished;
                self.pending = None;
            },
        }
    }

    /// Starts bringing the globals of `runtime` in line after a present:
    /// the overlay test mode is forced while a LUT context is active and
    /// left alone otherwise.
    pub fn start(runtime: LutBypassRuntime) -> (s: GlobalsSync)
        ensures
            s.wf(),
            s@.start == globals_of(runtime),
            s@.start_contexts == runtime.contexts@,
            s@.has_lut_assignments == runtime.has_lut_assignments,
            s@.active == !runtime.contexts@.is_empty(),
            s@.mode is None,
            s@.writable is None,
            s@.value is None,
    {
        let active = runtime.has_active_contexts();
        let control = if active {
            OverlayTestModeControl::ForceMode5
        } else {
            OverlayTestModeControl::Unmodified
        };
        let ghost start = globals_of(runtime);
        let ghost start_contexts = runtime.contexts@;
        let ghost has_lut = runtime.has_lut_assignments;
        let mut runtime = runtime;
        let step = runtime.set_overlay_test_mode_control(control);
        let mut s = GlobalsSync {
            runtime,
            start: Ghost(start),
            start_contexts: Ghost(start_contexts),
            has_lut_assignments: Ghost(has_lut),
            active,
            stage: SyncStage::Finished,
            pending: None,
            mode: None,
            writable: None,
            value: None,
            writes: Ghost(Seq::empty()),
        };
        match step {
            OverlayTestModeStep::Capture { address } => {
                s.stage = SyncStage::OverlayRead;
                s.pending = Some(GlobalsAction::ReadI32 { address });
            },
            OverlayTestModeStep::Restore(w) => {
                s.stage = SyncStage::OverlayWrite;
                s.pending = Some(GlobalsAction::Write(w));
            },
            OverlayTestModeStep::Unchanged => {
                s.enter_flip();
            },
        }
        s
    }

    /// The action to perform next, or `None` once the sync is over.
    pub fn next_action(&self) -> (a: Option<GlobalsAction>)
        ensures
            a == self@.pending,
    {
        self.pending
    }

    /// Takes in the answer to the pending action. An answer that does not
    /// fit the pending action is ignored; a fitting one is taken in (a read
    /// value, the page's writability) and the sync moves on.
    pub fn answer(&mut self, reply: GlobalsReply)
        requires
            old(self).wf(),
        ensures
            final(self).wf(),
            final(self)@.start == old(self)@.start,
            final(self)@.start_contexts == old(self)@.start_contexts,
            final(self)@.has_lut_assignments == old(self)@.has_lut_assignments,
            final(self)@.active == old(self)@.active,
            !reply_fits(old(self)@.pending, reply) ==> final(self)@ == old(self)@,
            reply_fits(old(self)@.pending, reply) ==> {
                &&& final(self)@.stage != old(self)@.stage
                &&& final(self)@.mode == (if old(self)@.stage is OverlayRead {
                    Some(reply->Value_0)
                } else {
                    old(self)@.mode
                })
                &&& final(self)@.writable == (if old(self)@.stage is FlipCheck {
                    Some(reply->Writable_0)
                } else {
                    old(self)@.writable
                })
                &&& final(self)@.value == (if old(self)@.stage is FlipRead {
                    Some(reply->Value_0)
                } else {
                    old(self)@.value
                })
            },
    {
        match (self.stage, reply) {
            (SyncStage::OverlayRead, GlobalsReply::Value(v)) => {
                if let Some(GlobalsAction::ReadI32 { .. }) = self.pending {
                    self.mode = Some(v);
                    let write = self.runtime.finish_overlay_test_mode_capture(v);
                    match write {
                        Some(w) => {
                            self.stage = SyncStage::OverlayWrite;
                            self.pending = Some(GlobalsAction::Write(w));
                        },
                        None => {
                            self.enter_flip();
                        },
                    }
                }
            },
            (SyncStage::OverlayWrite, GlobalsReply::Performed) => {
                if let Some(GlobalsAction::Write(w)) = self.pending {
                    self.writes = Ghost(self.writes@.push(w));
                    self.enter_flip();
                }
            },
            (SyncStage::FlipCheck, GlobalsReply::Writable(b)) => {
                if let Some(GlobalsAction::CheckWritable { .. }) = self.pending {
                    self.writable = Some(b);
                    let check = self.runtime.disable_independent_flip_page_checked(b);
                    match check {
                        IndependentFlipCheck::ReadValue { address } => {
                            self.stage = SyncStage::FlipRead;
                            self.pending = Some(GlobalsAction::ReadI32 { address });
                        },
                        _ => {
                            self.enter_override();
                        },
                    }
                }
            },
            (SyncStage::FlipRead, GlobalsReply::Value(v)) => {
                if let Some(GlobalsAction::ReadI32 { .. }) = self.pending {
                    self.value = Some(v);
                    let read = self.runtime.disable_independent_flip_value_read(v);
                    match read {
                        IndependentFlipRead::Write(w) => {
                            self.stage = SyncStage::FlipWrite;
                            self.pending = Some(GlobalsAction::Write(w));
                        },
                        _ => {
                            proof {
                                let v = self@;
                                let mode = or_zero(v.mode);
                                let writable = match v.writable {
                                    Some(b) => b,
                                    None => false,
                                };
                                assert(synced_flip_write(
                                    v.start.disable_independent_flip_patch,
                                    v.active,
                                    writable,
                                    or_zero(v.value),
                                ) is None);
                                assert(v.writes =~= synced_writes(
                                    v.start,
                                    v.active,
                                    mode,
                                    writable,
                                    or_zero(v.value),
                                ));
                            }
                            self.enter_override();
                        },
                    }
                }
            },
            (SyncStage::FlipWrite, GlobalsReply::Performed) => {
                if let Some(GlobalsAction::Write(w)) = self.pending {
                    let ghost before = self.writes@;
                    self.writes = Ghost(self.writes@.push(w));
                    assert(self.writes@ =~= before + write_seq(Some(w)));
                    self.enter_override();
                }
            },
            (SyncStage::Override, GlobalsReply::Performed) => {
                if let Some(GlobalsAction::SetOverlaysEnabledOverride(_)) = self.pending {
                    self.stage = SyncStage::Finished;
                    self.pending = None;
                }
            },
            _ => {},
        }
    }

    /// Whether the sync is over.
    pub fn is_finished(&self) -> (r: bool)
        ensures
            r == (self@.stage is Finished),
    {
        match self.stage {
            SyncStage::Finished => true,
            _ => false,
        }
    }

    /// The runtime back. Once the sync is over its globals are those of
    /// `globals_after_sync` for the values read, its contexts and assignment
    /// flag are those it started with, and the overlay test mode control is
    /// forced exactly while a LUT context is active.
    pub fn finish(self) -> (r: LutBypassRuntime)
        requires
            self.wf(),
        ensures
            globals_of(r) == self@.current,
            r.contexts@ == self@.start_contexts,
            r.has_lut_assignments == self@.has_lut_assignments,
            r.overlay_test_mode_control == control_of(self@.active),
            self@.stage is Finished ==> globals_of(r) == globals_after_sync(
                self@.start,
                self@.active,
                or_zero(self@.mode),
                match self@.writable {
                    Some(b) => b,
                    None => false,
                },
                or_zero(self@.value),
            ),
    {
        self.runtime
    }
}

/// `mem` after `w` is stored, where there is a write.
pub open spec fn store(mem: Map<usize, i32>, w: Option<PatchWrite>) -> Map<usize, i32> {
    match w {
        Some(x) => mem.insert(x.address, x.value),
        None => mem,
    }
}

/// `mem` after the writes `ws` are stored in order.
pub open spec fn store_writes(mem: Map<usize, i32>, ws: Seq<PatchWrite>) -> Map<usize, i32>
    decreases ws.len(),
{
    if ws.len() == 0 {
        mem
    } else {
        store(store_writes(mem, ws.drop_last()), Some(ws.last()))
    }
}

/// One sync as the process sees it: each global is read from `mem` when it
/// is read, the disable-independent-flip page is `page_writable`, and each
/// write is stored; the globals and the memory after it.
pub open spec fn sync_on_memory(
    g: BypassGlobals,
    active: bool,
    page_writable: bool,
    mem: Map<usize, i32>,
) -> (BypassGlobals, Map<usize, i32>) {
    let c = control_of(active);
    let mode = match g.overlay_test_mode_patch {
        Some(p) => mem[p.address],
        None => 0,
    };
    let mem1 = store(mem, synced_overlay_write(g.overlay_test_mode_patch, c, mode));
    let value = match g.disable_independent_flip_patch {
        Some(q) => mem1[q.address],
        None => 0,
    };
    (
        globals_after_sync(g, active, mode, page_writable, value),
        store(mem1, synced_flip_write(g.disable_independent_flip_patch, active, page_writable, value)),
    )
}

/// A finished sync whose reads were answered from `mem` (the
/// disable-independent-flip value after the overlay write was stored), and
/// whose page check was answered `page_writable`, leaves the globals and,
/// once its writes are stored, the memory that `sync_on_memory` gives.
pub proof fn lemma_finished_sync_is_sync_on_memory(
    v: GlobalsSyncView,
    mem: Map<usize, i32>,
    page_writable: bool,
)
    requires
        sync_consistent(v),
        v.stage is Finished,
        v.mode matches Some(m) ==> (v.start.overlay_test_mode_patch matches Some(p) && m
            == mem[p.address]),
        v.writable matches Some(b) ==> b == page_writable,
        v.value matches Some(x) ==> (v.start.disable_independent_flip_patch matches Some(q) && x
            == store(
            mem,
            synced_overlay_write(
                v.start.overlay_test_mode_patch,
                control_of(v.active),
                or_zero(v.mode),
            ),
        )[q.address]),
    ensures
        v.current == sync_on_memory(v.start, v.active, page_writable, mem).0,
        store_writes(mem, v.writes) == sync_on_memory(v.start, v.active, page_writable, mem).1,
{
    let g = v.start;
    let a = v.active;
    let c = control_of(a);
    let mode = match g.overlay_test_mode_patch {
        Some(p) => mem[p.address],
        None => 0,
    };
    let ow = synced_overlay_write(g.overlay_test_mode_patch, c, mode);
    assert(ow == synced_overlay_write(g.overlay_test_mode_patch, c, or_zero(v.mode)));
    assert(synced_overlay_patch(g.overlay_test_mode_patch, c, mode) == synced_overlay_patch(
        g.overlay_test_mode_patch,
        c,
        or_zero(v.mode),
    ));
    let mem1 = store(mem, ow);
    let value = match g.disable_independent_flip_patch {
        Some(q) => mem1[q.address],
        None => 0,
    };
    let writable = match v.writable {
        Some(b) => b,
        None => false,
    };
    let fw = synced_flip_write(g.disable_independent_flip_patch, a, page_writable, value);
    assert(fw == synced_flip_write(g.disable_independent_flip_patch, a, writable, or_zero(v.value)));
    assert(synced_flip_patch(g.disable_independent_flip_patch, a, page_writable, value)
        == synced_flip_patch(g.disable_independent_flip_patch, a, writable, or_zero(v.value)));
    let ws = v.writes;
    reveal_with_fuel(store_writes, 3);
    assert(ws == write_seq(ow) + write_seq(fw));
    match ow {
        Some(x) => match fw {
            Some(y) => {
                assert(ws.drop_last() =~= seq![x]);
                assert(seq![x].drop_last() =~= Seq::<PatchWrite>::empty());
            },
            None => {
                assert(ws =~= seq![x]);
                assert(seq![x].drop_last() =~= Seq::<PatchWrite>::empty());
            },
        },
        None => match fw {
            Some(y) => {
                assert(ws =~= seq![y]);
                assert(seq![y].drop_last() =~= Seq::<PatchWrite>::empty());
            },
            None => {
                assert(ws =~= Seq::<PatchWrite>::empty());
            },
        },
    }
}

/// The globals and memory after a run of presents, each leaving a LUT
/// context active or not as `actives` says, each followed by its sync.
pub open spec fn run_presents(
    g: BypassGlobals,
    actives: Seq<bool>,
    page_writable: bool,
    mem: Map<usize, i32>,
) -> (BypassGlobals, Map<usize, i32>)
    decreases actives.len(),
{
    if actives.len() == 0 {
        (g, mem)
    } else {
        let prev = run_presents(g, actives.drop_last(), page_writable, mem);
        sync_on_memory(prev.0, actives.last(), page_writable, prev.1)
    }
}

/// Whether the last present of `actives` left a LUT context active.
pub open spec fn active_after(actives: Seq<bool>) -> bool {
    actives.len() > 0 && actives.last()
}

/// The overlay test mode global at `a` holds 5 while its patch is applied,
/// which is exactly while a LUT context is `active`, and `v0` otherwise.
spec fn overlay_follows(
    g: BypassGlobals,
    mem: Map<usize, i32>,
    a: usize,
    v0: i32,
    active: bool,
) -> bool {
    &&& g.overlay_test_mode_patch matches Some(p) && p.address == a && p.applied == active && (
    p.applied ==> p.original_mode == Some(v0))
    &&& mem.contains_key(a)
    &&& mem[a] == (if active {
        5i32
    } else {
        v0
    })
    &&& g.disable_independent_flip_patch matches Some(q) ==> q.address != a
}

proof fn lemma_overlay_step(
    g: BypassGlobals,
    mem: Map<usize, i32>,
    a: usize,
    v0: i32,
    was_active: bool,
    active: bool,
    page_writable: bool,
)
    requires
        overlay_follows(g, mem, a, v0, was_active),
    ensures
        overlay_follows(
            sync_on_memory(g, active, page_writable, mem).0,
            sync_on_memory(g, active, page_writable, mem).1,
            a,
            v0,
            active,
        ),
{
}

proof fn lemma_overlay_run(
    g: BypassGlobals,
    actives: Seq<bool>,
    page_writable: bool,
    mem: Map<usize, i32>,
    a: usize,
    v0: i32,
)
    requires
        overlay_follows(g, mem, a, v0, false),
    ensures
        overlay_follows(
            run_presents(g, actives, page_writable, mem).0,
            run_presents(g, actives, page_writable, mem).1,
            a,
            v0,
            active_after(actives),
        ),
    decreases actives.len(),
{
    if actives.len() > 0 {
        let rest = actives.drop_last();
        lemma_overlay_run(g, rest, page_writable, mem, a, v0);
        let prev = run_presents(g, rest, page_writable, mem);
        lemma_overlay_step(prev.0, prev.1, a, v0, active_after(rest), actives.last(), page_writable);
    }
}

/// Over any run of presents, dwmcore's overlay test mode global reads 5
/// after every present that leaves a LUT-drawn context, and the value it
/// had before the run after every present that leaves none (the
/// disable-independent-flip global, if any, lying elsewhere).
pub proof fn lemma_overlay_test_mode_follows_contexts(
    g: BypassGlobals,
    actives: Seq<bool>,
    page_writable: bool,
    mem: Map<usize, i32>,
    v0: i32,
)
    requires
        g.overlay_test_mode_patch matches Some(p) && !p.applied && mem.contains_key(p.address)
            && mem[p.address] == v0,
        g.disable_independent_flip_patch matches Some(q) ==> q.address
            != g.overlay_test_mode_patch->0.address,
    ensures
        run_presents(g, actives, page_writable, mem).1[g.overlay_test_mode_patch->0.address] == (
        if active_after(actives) {
            5i32
        } else {
            v0
        }),
        run_presents(g, actives, page_writable, mem).0.overlay_test_mode_patch->0.applied
            == active_after(actives),
{
    lemma_overlay_run(g, actives, page_writable, mem, g.overlay_test_mode_patch->0.address, v0);
}

/// Whether the disable-independent-flip patch at `b` can be applied: its
/// page is writable and its value `d0` is 0 or 1.
pub open spec fn flip_patch_usable(page_writable: bool, d0: i32) -> bool {
    page_writable && (d0 == 0 || d0 == 1)
}

/// The disable-independent-flip global at `b` holds 1 while its patch is
/// applied, which is exactly while a LUT context is `active` and the patch
/// is usable, and `d0` otherwise.
spec fn flip_follows(
    g: BypassGlobals,
    mem: Map<usize, i32>,
    b: usize,
    d0: i32,
    page_writable: bool,
    active: bool,
) -> bool {
    &&& g.disable_independent_flip_patch matches Some(q) && q.address == b && q.applied == (active
        && flip_patch_usable(page_writable, d0)) && (q.applied ==> q.original_value == Some(d0))
        && (q.rejected ==> !flip_patch_usable(page_writable, d0))
    &&& mem.contains_key(b)
    &&& mem[b] == (if active && flip_patch_usable(page_writable, d0) {
        1i32
    } else {
        d0
    })
    &&& g.overlay_test_mode_patch matches Some(p) ==> p.address != b
}

proof fn lemma_flip_step(
    g: BypassGlobals,
    mem: Map<usize, i32>,
    b: usize,
    d0: i32,
    page_writable: bool,
    was_active: bool,
    active: bool,
)
    requires
        flip_follows(g, mem, b, d0, page_writable, was_active),
    ensures
        flip_follows(
            sync_on_memory(g, active, page_writable, mem).0,
            sync_on_memory(g, active, page_writable, mem).1,
            b,
            d0,
            page_writable,
            active,
        ),
        sync_on_memory(g, active, page_writable, mem).0.overlays_enabled_override == (if active {
            Some(flip_patch_usable(page_writable, d0))
        } else {
            None
        }),
{
}

proof fn lemma_flip_run(
    g: BypassGlobals,
    actives: Seq<bool>,
    page_writable: bool,
    mem: Map<usize, i32>,
    b: usize,
    d0: i32,
)
    requires
        flip_follows(g, mem, b, d0, page_writable, false),
    ensures
        flip_follows(
            run_presents(g, actives, page_writable, mem).0,
            run_presents(g, actives, page_writable, mem).1,
            b,
            d0,
            page_writable,
            active_after(actives),
        ),
        actives.len() > 0 ==> run_presents(g, actives, page_writable, mem).0.overlays_enabled_override
            == (if actives.last() {
            Some(flip_patch_usable(page_writable, d0))
        } else {
            None
        }),
    decreases actives.len(),
{
    if actives.len() > 0 {
        let rest = actives.drop_last();
        lemma_flip_run(g, rest, page_writable, mem, b, d0);
        let prev = run_presents(g, rest, page_writable, mem);
        lemma_flip_step(prev.0, prev.1, b, d0, page_writable, active_after(rest), actives.last());
    }
}

/// Over any run of presents, dwmcore's disable-independent-flip global
/// reads 1 after every present that leaves a LUT-drawn context, provided its
/// page is writable and it held 0 or 1 before the run; otherwise, and after
/// every present that leaves no such context, it holds its value from
/// before the run, never written where the patch was refused. After each
/// present the overlays-enabled override is `Some` of whether the patch is
/// applied while a LUT context is active, and `None` otherwise (the overlay
/// test mode global, if any, lying elsewhere).
pub proof fn lemma_disable_independent_flip_follows_contexts(
    g: BypassGlobals,
    actives: Seq<bool>,
    page_writable: bool,
    mem: Map<usize, i32>,
    d0: i32,
)
    requires
        g.disable_independent_flip_patch matches Some(q) && !q.applied && !q.rejected
            && mem.contains_key(q.address) && mem[q.address] == d0,
        g.overlay_test_mode_patch matches Some(p) ==> p.address
            != g.disable_independent_flip_patch->0.address,
    ensures
        run_presents(g, actives, page_writable, mem).1[g.disable_independent_flip_patch->0.address]
            == (if active_after(actives) && flip_patch_usable(page_writable, d0) {
            1i32
        } else {
            d0
        }),
        actives.len() > 0 ==> run_presents(g, actives, page_writable, mem).0.overlays_enabled_override
            == (if actives.last() {
            Some(flip_patch_usable(page_writable, d0))
        } else {
            None
        }),
{
    lemma_flip_run(
        g,
        actives,
        page_writable,
        mem,
        g.disable_independent_flip_patch->0.address,
        d0,
    );
}

/// The LUT-drawn contexts after a run of presents, each recording its
/// context (`Some`, as a present with a plan does) or forgetting it
/// (`None`), as `contexts_after_present` says of each present.
pub open spec fn contexts_after_run(
    contexts: Map<usize, ContextLutState>,
    presents: Seq<(usize, Option<ContextLutState>)>,
) -> Map<usize, ContextLutState>
    decreases presents.len(),
{
    if presents.len() == 0 {
        contexts
    } else {
        let prev = contexts_after_run(contexts, presents.drop_last());
        match presents.last().1 {
            Some(state) => prev.insert(presents.last().0, state),
            None => prev.remove(presents.last().0),
        }
    }
}

/// Whether a LUT-drawn context is left after each present of a run.
pub open spec fn activity_of_run(
    contexts: Map<usize, ContextLutState>,
    presents: Seq<(usize, Option<ContextLutState>)>,
) -> Seq<bool> {
    Seq::new(
        presents.len(),
        |i: int| !contexts_after_run(contexts, presents.take(i + 1)).is_empty(),
    )
}

/// Over any run of presents that starts with no LUT-drawn context, each
/// followed by its sync, dwmcore's overlay test mode global reads 5 while a
/// LUT-drawn context remains and its value from before the run once none
/// does, and its patch is applied exactly while one remains (the
/// disable-independent-flip global, if any, lying elsewhere).
pub proof fn lemma_overlay_test_mode_follows_present_run(
    g: BypassGlobals,
    contexts: Map<usize, ContextLutState>,
    presents: Seq<(usize, Option<ContextLutState>)>,
    page_writable: bool,
    mem: Map<usize, i32>,
    v0: i32,
)
    requires
        contexts.is_empty(),
        g.overlay_test_mode_patch matches Some(p) && !p.applied && mem.contains_key(p.address)
            && mem[p.address] == v0,
        g.disable_independent_flip_patch matches Some(q) ==> q.address
            != g.overlay_test_mode_patch->0.address,
    ensures
        ({
            let actives = activity_of_run(contexts, presents);
            let after = run_presents(g, actives, page_writable, mem);
            let active = !contexts_after_run(contexts, presents).is_empty();
            &&& after.1[g.overlay_test_mode_patch->0.address] == (if active {
                5i32
            } else {
                v0
            })
            &&& after.0.overlay_test_mode_patch->0.applied == active
        }),
{
    let actives = activity_of_run(contexts, presents);
    lemma_overlay_test_mode_follows_contexts(g, actives, page_writable, mem, v0);
    if presents.len() > 0 {
        assert(presents.take(presents.len() as int) =~= presents);
        assert(actives.last() == !contexts_after_run(contexts, presents).is_empty());
    }
}

/// The contexts a present leaves, as `update_present` and
/// `update_present_with_lut_index` state them, are one step of a run: the
/// context is recorded where the present has a plan and forgotten where not.
pub proof fn lemma_present_is_a_run_step(
    contexts: Map<usize, ContextLutState>,
    context_address: usize,
    dxgi_format: u32,
    dirty_rect_count: usize,
    plan: Option<LutRenderPlan>,
)
    ensures
        contexts_after_present(contexts, context_address, dxgi_format, dirty_rect_count, plan)
            == contexts_after_run(
            contexts,
            seq![
                (
                    context_address,
                    match plan {
                        Some(p) => Some(
                            ContextLutState {
                                back_buffer_format: format_from_dxgi(dxgi_format),
                                lut_index: Some(p.lut_index),
                                dirty_rect_count,
                            },
                        ),
                        None => None,
                    },
                ),
            ],
        ),
{
    let presents = seq![
        (
            context_address,
            match plan {
                Some(p) => Some(
                    ContextLutState {
                        back_buffer_format: format_from_dxgi(dxgi_format),
                        lut_index: Some(p.lut_index),
                        dirty_rect_count,
                    },
                ),
                None => None,
            },
        ),
    ];
    reveal_with_fuel(contexts_after_run, 2);
    assert(presents.drop_last() =~= Seq::<(usize, Option<ContextLutState>)>::empty());
    assert(contexts_after_run(contexts, presents.drop_last()) == contexts);
}

} // verus!
