use vstd::prelude::*;

use crate::config::MonitorIdentity;
use crate::lut_pipeline::{
    find_lut, first_matching_lut, format_color_mode, format_from_dxgi, BackBufferFormat,
    DirtyRect, LoadedLut, ShaderConstants, DXGI_FORMAT_B8G8R8A8_UNORM,
    DXGI_FORMAT_R16G16B16A16_FLOAT,
};

verus! {

/// Why a present was not drawn with a LUT.
#[derive(Debug, Clone, Copy, PartialEq, Eq, Structural)]
pub enum DrawPlanSkipReason {
    ZeroSize,
    MissingMonitorIdentity,
    UnsupportedFormat,
    MissingAssignment,
    EmptyDirtyRects,
}

impl DrawPlanSkipReason {
    /// The reason's name in diagnostic logs.
    pub fn as_str(self) -> (s: &'static str)
        ensures
            s@ == skip_reason_name(self),
    {
        match self {
            DrawPlanSkipReason::ZeroSize => "zero_size",
            DrawPlanSkipReason::MissingMonitorIdentity => "missing_monitor_identity",
            DrawPlanSkipReason::UnsupportedFormat => "unsupported_format",
            DrawPlanSkipReason::MissingAssignment => "missing_assignment",
            DrawPlanSkipReason::EmptyDirtyRects => "empty_dirty_rects",
        }
    }
}

pub open spec fn skip_reason_name(r: DrawPlanSkipReason) -> Seq<char> {
    match r {
        DrawPlanSkipReason::ZeroSize => "zero_size"@,
        DrawPlanSkipReason::MissingMonitorIdentity => "missing_monitor_identity"@,
        DrawPlanSkipReason::UnsupportedFormat => "unsupported_format"@,
        DrawPlanSkipReason::MissingAssignment => "missing_assignment"@,
        DrawPlanSkipReason::EmptyDirtyRects => "empty_dirty_rects"@,
    }
}

/// Why the renderer could not get hold of what a draw needs.
#[derive(Debug, Clone, Copy, PartialEq, Eq, Structural)]
pub enum RenderAcquireError {
    BackBuffer,
    Device,
    Context,
    Unavailable,
}

impl RenderAcquireError {
    /// The error's name in diagnostic logs.
    pub fn as_str(self) -> (s: &'static str)
        ensures
            s@ == match self {
                RenderAcquireError::BackBuffer => "back_buffer"@,
                RenderAcquireError::Device => "device"@,
                RenderAcquireError::Context => "context"@,
                RenderAcquireError::Unavailable => "unavailable"@,
            },
    {
        match self {
            RenderAcquireError::BackBuffer => "back_buffer",
            RenderAcquireError::Device => "device",
            RenderAcquireError::Context => "context",
            RenderAcquireError::Unavailable => "unavailable",
        }
    }
}

/// Why a planned LUT draw failed.
#[derive(Debug, Clone, Copy, PartialEq, Eq, Structural)]
pub enum PresentDrawFailReason {
    ResourcesCreateFailed,
    ResourcesMissing,
    LutIndexOutOfRange,
    DrawRectsEmpty,
    CopyTextureCreateFailed,
    RenderTargetViewCreateFailed,
    DrawFailed,
}

pub open spec fn fail_reason_name(r: PresentDrawFailReason) -> Seq<char> {
    match r {
        PresentDrawFailReason::ResourcesCreateFailed => "resources_create_failed"@,
        PresentDrawFailReason::ResourcesMissing => "resources_missing"@,
        PresentDrawFailReason::LutIndexOutOfRange => "lut_index_out_of_range"@,
        PresentDrawFailReason::DrawRectsEmpty => "draw_rects_empty"@,
        PresentDrawFailReason::CopyTextureCreateFailed => "copy_texture_create_failed"@,
        PresentDrawFailReason::RenderTargetViewCreateFailed => "render_target_view_create_failed"@,
        PresentDrawFailReason::DrawFailed => "draw_failed"@,
    }
}

impl PresentDrawFailReason {
    /// The reason's name in diagnostic logs.
    pub fn as_str(self) -> (s: &'static str)
        ensures
            s@ == fail_reason_name(self),
    {
        match self {
            PresentDrawFailReason::ResourcesCreateFailed => "resources_create_failed",
            PresentDrawFailReason::ResourcesMissing => "resources_missing",
            PresentDrawFailReason::LutIndexOutOfRange => "lut_index_out_of_range",
            PresentDrawFailReason::DrawRectsEmpty => "draw_rects_empty",
            PresentDrawFailReason::CopyTextureCreateFailed => "copy_texture_create_failed",
            PresentDrawFailReason::RenderTargetViewCreateFailed => "render_target_view_create_failed",
            PresentDrawFailReason::DrawFailed => "draw_failed",
        }
    }
}

/// What happened to the LUT draw of one present.
#[derive(Debug, Clone, Copy, PartialEq, Eq, Structural)]
pub enum PresentDrawStatus {
    Applied { full_redraw: bool },
    Skipped(DrawPlanSkipReason),
    Failed(PresentDrawFailReason),
}

impl PresentDrawStatus {
    /// The status's name in diagnostic logs.
    pub fn as_str(self) -> (s: &'static str)
        ensures
            s@ == match self {
                PresentDrawStatus::Applied { .. } => "applied"@,
                PresentDrawStatus::Skipped(r) => skip_reason_name(r),
                PresentDrawStatus::Failed(r) => fail_reason_name(r),
            },
    {
        match self {
            PresentDrawStatus::Applied { .. } => "applied",
            PresentDrawStatus::Skipped(reason) => reason.as_str(),
            PresentDrawStatus::Failed(reason) => reason.as_str(),
        }
    }

    /// Whether the LUT was drawn.
    pub fn lut_applied(self) -> (r: bool)
        ensures
            r == (self is Applied),
    {
        match self {
            PresentDrawStatus::Applied { .. } => true,
            _ => false,
        }
    }
}

/// The region a texture copy reads: the rectangle's area of one depth slice.
#[derive(Debug, Clone, Copy, PartialEq, Eq, Structural)]
pub struct Box3D {
    pub left: u32,
    pub top: u32,
    pub front: u32,
    pub right: u32,
    pub bottom: u32,
    pub back: u32,
}

/// A LUT draw that is ready to run.
#[derive(Debug, Clone, PartialEq, Eq)]
pub struct GpuDrawPlan {
    pub format: BackBufferFormat,
    pub lut_index: usize,
    pub constants: ShaderConstants,
    pub dirty_rects: Vec<DirtyRect>,
}

/// A present that is not drawn, and whether a LUT is still assigned to it.
#[derive(Debug, Clone, Copy, PartialEq, Eq, Structural)]
pub struct DrawPlanSkip {
    pub reason: DrawPlanSkipReason,
    pub lut_active: bool,
    pub lut_index: Option<usize>,
}

impl DrawPlanSkip {
    /// A skip for a present that no LUT applies to.
    pub fn inactive(reason: DrawPlanSkipReason) -> (s: DrawPlanSkip)
        ensures
            s == (DrawPlanSkip { reason, lut_active: false, lut_index: None }),
    {
        DrawPlanSkip { reason, lut_active: false, lut_index: None }
    }

    /// A skip for a present whose LUT stays assigned.
    pub fn active(reason: DrawPlanSkipReason, lut_index: usize) -> (s: DrawPlanSkip)
        ensures
            s == (DrawPlanSkip { reason, lut_active: true, lut_index: Some(lut_index) }),
    {
        DrawPlanSkip { reason, lut_active: true, lut_index: Some(lut_index) }
    }
}

/// The format and LUT a render target was last drawn with.
#[derive(Debug, Clone, Copy, PartialEq, Eq, Structural)]
pub struct DrawState {
    pub format: BackBufferFormat,
    pub lut_index: usize,
}

/// Whether a render target has been drawn successfully before.
#[derive(Debug, Clone, Copy, PartialEq, Eq, Structural)]
pub enum RenderTargetState {
    Bootstrapping,
    Stable(DrawState),
}

/// How a back buffer is told apart from the others.
#[derive(Debug, Clone, Copy, PartialEq, Eq, Structural)]
pub enum BackBufferId {
    PrivateData(u128),
    ComIdentity(usize),
}

/// A back buffer of one overlay swap chain.
#[derive(Debug, Clone, Copy, PartialEq, Eq, Structural)]
pub struct RenderTargetKey {
    pub overlay_swap_chain: usize,
    pub back_buffer: BackBufferId,
}

/// The remembered state of a render target and when it was last seen.
#[derive(Debug, Clone, Copy, PartialEq, Eq, Structural)]
pub struct RenderTargetStateEntry {
    pub state: RenderTargetState,
    pub last_seen: u64,
}

/// A device resource set, cached per device, swap chain and frame size.
#[derive(Debug, Clone, Copy, PartialEq, Eq, Structural)]
pub struct ResourceKey {
    pub device: usize,
    pub overlay_swap_chain: usize,
    pub width: u32,
    pub height: u32,
}

/// The order in which back-buffer identifiers sort: private-data ids first,
/// each kind by its number.
pub open spec fn back_buffer_id_less(a: BackBufferId, b: BackBufferId) -> bool {
    match (a, b) {
        (BackBufferId::PrivateData(x), BackBufferId::PrivateData(y)) => x < y,
        (BackBufferId::PrivateData(_), BackBufferId::ComIdentity(_)) => true,
        (BackBufferId::ComIdentity(_), BackBufferId::PrivateData(_)) => false,
        (BackBufferId::ComIdentity(x), BackBufferId::ComIdentity(y)) => x < y,
    }
}

/// The order in which render-target keys sort: by swap chain, then back buffer.
pub open spec fn render_target_key_less(a: RenderTargetKey, b: RenderTargetKey) -> bool {
    a.overlay_swap_chain < b.overlay_swap_chain || (a.overlay_swap_chain == b.overlay_swap_chain
        && back_buffer_id_less(a.back_buffer, b.back_buffer))
}

/// Whether entry `(ka, sa)` was seen before `(kb, sb)`, ties going to the smaller key.
pub open spec fn seen_before(ka: RenderTargetKey, sa: u64, kb: RenderTargetKey, sb: u64) -> bool {
    sa < sb || (sa == sb && render_target_key_less(ka, kb))
}

fn back_buffer_id_lt(a: BackBufferId, b: BackBufferId) -> (r: bool)
    ensures
        r == back_buffer_id_less(a, b),
{
    match (a, b) {
        (BackBufferId::PrivateData(x), BackBufferId::PrivateData(y)) => x < y,
        (BackBufferId::PrivateData(_), BackBufferId::ComIdentity(_)) => true,
        (BackBufferId::ComIdentity(_), BackBufferId::PrivateData(_)) => false,
        (BackBufferId::ComIdentity(x), BackBufferId::ComIdentity(y)) => x < y,
    }
}

fn seen_before_exec(ka: RenderTargetKey, sa: u64, kb: RenderTargetKey, sb: u64) -> (r: bool)
    ensures
        r == seen_before(ka, sa, kb, sb),
{
    sa < sb || (sa == sb && (ka.overlay_swap_chain < kb.overlay_swap_chain || (ka.overlay_swap_chain
        == kb.overlay_swap_chain && back_buffer_id_lt(ka.back_buffer, kb.back_buffer))))
}

/// One remembered render target.
#[derive(Debug, Clone, Copy, PartialEq, Eq, Structural)]
pub struct RenderTargetSlot {
    pub key: RenderTargetKey,
    pub entry: RenderTargetStateEntry,
}

pub open spec fn slots_unique(s: Seq<RenderTargetSlot>) -> bool {
    forall|i: int, j: int| 0 <= i < s.len() && 0 <= j < s.len() && i != j ==> s[i].key != s[j].key
}

pub open spec fn slots_have(s: Seq<RenderTargetSlot>, k: RenderTargetKey) -> bool {
    exists|i: int| 0 <= i < s.len() && (#[trigger] s[i]).key == k
}

pub open spec fn slot_index(s: Seq<RenderTargetSlot>, k: RenderTargetKey) -> int {
    choose|i: int| 0 <= i < s.len() && (#[trigger] s[i]).key == k
}

pub open spec fn slots_view(s: Seq<RenderTargetSlot>) -> Map<RenderTargetKey, RenderTargetStateEntry> {
    Map::new(|k: RenderTargetKey| slots_have(s, k), |k: RenderTargetKey| s[slot_index(s, k)].entry)
}

proof fn lemma_slot_index(s: Seq<RenderTargetSlot>, i: int)
    requires
        slots_unique(s),
        0 <= i < s.len(),
    ensures
        slots_have(s, s[i].key),
        slot_index(s, s[i].key) == i,
        slots_view(s).contains_key(s[i].key),
        slots_view(s)[s[i].key] == s[i].entry,
{
    assert(s[i].key == s[i].key);
    let j = slot_index(s, s[i].key);
    assert(j == i);
}

proof fn lemma_slots_update(s: Seq<RenderTargetSlot>, i: int, e: RenderTargetStateEntry)
    requires
        slots_unique(s),
        0 <= i < s.len(),
    ensures
        slots_unique(s.update(i, RenderTargetSlot { key: s[i].key, entry: e })),
        slots_view(s.update(i, RenderTargetSlot { key: s[i].key, entry: e })) =~= slots_view(s).insert(
            s[i].key,
            e,
        ),
{
    let t = s.update(i, RenderTargetSlot { key: s[i].key, entry: e });
    assert forall|a: int, b: int| 0 <= a < t.len() && 0 <= b < t.len() && a != b implies t[a].key
        != t[b].key by {
        assert(t[a].key == s[a].key);
        assert(t[b].key == s[b].key);
    }
    lemma_slot_index(t, i);
    assert forall|k: RenderTargetKey| #[trigger] slots_have(t, k) == slots_have(s, k) by {
        if slots_have(s, k) {
            let j = slot_index(s, k);
            assert(t[j].key == k);
        }
        if slots_have(t, k) {
            let j = slot_index(t, k);
            assert(s[j].key == k);
        }
    }
    assert forall|k: RenderTargetKey| slots_have(t, k) && k != s[i].key implies slots_view(t)[k]
        == slots_view(s)[k] by {
        let j = slot_index(s, k);
        assert(s[j].key == k);
        assert(j != i);
        assert(t[j] == s[j]);
        lemma_slot_index(t, j);
        lemma_slot_index(s, j);
    }
}

proof fn lemma_slots_push(s: Seq<RenderTargetSlot>, k: RenderTargetKey, e: RenderTargetStateEntry)
    requires
        slots_unique(s),
        !slots_have(s, k),
    ensures
        slots_unique(s.push(RenderTargetSlot { key: k, entry: e })),
        slots_view(s.push(RenderTargetSlot { key: k, entry: e })) =~= slots_view(s).insert(k, e),
{
    let t = s.push(RenderTargetSlot { key: k, entry: e });
    assert forall|a: int, b: int| 0 <= a < t.len() && 0 <= b < t.len() && a != b implies t[a].key
        != t[b].key by {
        if a < s.len() && b < s.len() {
            assert(t[a] == s[a] && t[b] == s[b]);
        } else if a < s.len() {
            assert(t[a] == s[a]);
            assert(s[a].key != k);
        } else {
            assert(t[b] == s[b]);
            assert(s[b].key != k);
        }
    }
    lemma_slot_index(t, s.len() as int);
    assert forall|q: RenderTargetKey| #[trigger] slots_have(t, q) == (slots_have(s, q) || q == k) by {
        if slots_have(s, q) {
            let j = slot_index(s, q);
            assert(t[j].key == q);
        }
        if slots_have(t, q) && q != k {
            let j = slot_index(t, q);
            assert(j < s.len());
            assert(s[j].key == q);
        }
    }
    assert forall|q: RenderTargetKey| slots_have(t, q) && q != k implies slots_view(t)[q]
        == slots_view(s)[q] by {
        let j = slot_index(s, q);
        assert(s[j].key == q);
        assert(t[j] == s[j]);
        lemma_slot_index(t, j);
        lemma_slot_index(s, j);
    }
}

proof fn lemma_slots_remove(s: Seq<RenderTargetSlot>, i: int)
    requires
        slots_unique(s),
        0 <= i < s.len(),
    ensures
        slots_unique(s.remove(i)),
        slots_view(s.remove(i)) =~= slots_view(s).remove(s[i].key),
        !slots_have(s.remove(i), s[i].key),
{
    let t = s.remove(i);
    let k = s[i].key;
    assert forall|a: int| 0 <= a < t.len() implies #[trigger] t[a] == (if a < i {
        s[a]
    } else {
        s[a + 1]
    }) by {}
    assert forall|a: int, b: int| 0 <= a < t.len() && 0 <= b < t.len() && a != b implies t[a].key
        != t[b].key by {
        let sa = if a < i {
            a
        } else {
            a + 1
        };
        let sb = if b < i {
            b
        } else {
            b + 1
        };
        assert(t[a] == s[sa] && t[b] == s[sb]);
    }
    assert forall|q: RenderTargetKey| #[trigger] slots_have(t, q) == (slots_have(s, q) && q != k) by {
        if slots_have(t, q) {
            let j = slot_index(t, q);
            let sj = if j < i {
                j
            } else {
                j + 1
            };
            assert(t[j] == s[sj]);
            assert(s[sj].key == q);
            assert(sj != i);
        }
        if slots_have(s, q) && q != k {
            let j = slot_index(s, q);
            assert(s[j].key == q);
            assert(j != i);
            let tj = if j < i {
                j
            } else {
                j - 1
            };
            assert(t[tj] == s[j]);
        }
    }
    assert forall|q: RenderTargetKey| slots_have(t, q) implies slots_view(t)[q] == slots_view(s)[q] by {
        let j = slot_index(t, q);
        let sj = if j < i {
            j
        } else {
            j + 1
        };
        assert(t[j] == s[sj]);
        lemma_slot_index(t, j);
        lemma_slot_index(s, sj);
    }
}

/// The remembered draw state of recently drawn render targets, at most
/// `MAX_ENTRIES` of them; when full, the target seen longest ago is forgotten.
pub struct RenderTargetStates {
    slots: Vec<RenderTargetSlot>,
    sequence: u64,
}

/// Number of render targets remembered at most.
pub const RENDER_TARGET_STATE_CAPACITY: usize = 16;

/// The sequence number after one more lookup: one more, stopping at the maximum.
pub open spec fn next_sequence(s: u64) -> u64 {
    if s == u64::MAX {
        u64::MAX
    } else {
        (s + 1) as u64
    }
}

/// Whether `victim` is the remembered target seen longest ago (ties to the smaller key).
pub open spec fn is_oldest(m: Map<RenderTargetKey, RenderTargetStateEntry>, victim: RenderTargetKey) -> bool {
    &&& m.contains_key(victim)
    &&& forall|k: RenderTargetKey|
        #[trigger] m.contains_key(k) && k != victim ==> seen_before(
            victim,
            m[victim].last_seen,
            k,
            m[k].last_seen,
        )
}

impl RenderTargetStates {
    pub const MAX_ENTRIES: usize = 16;

    #[verifier::type_invariant]
    spec fn well_formed(self) -> bool {
        &&& slots_unique(self.slots@)
        &&& self.slots@.len() <= RENDER_TARGET_STATE_CAPACITY
    }

    /// The remembered targets and their entries.
    pub closed spec fn view(&self) -> Map<RenderTargetKey, RenderTargetStateEntry> {
        slots_view(self.slots@)
    }

    /// The current lookup sequence number.
    pub closed spec fn sequence(&self) -> u64 {
        self.sequence
    }

    /// How many targets are remembered.
    pub closed spec fn count(&self) -> nat {
        self.slots@.len()
    }

    /// No remembered targets, sequence zero.
    pub fn new() -> (s: RenderTargetStates)
        ensures
            s@ == Map::<RenderTargetKey, RenderTargetStateEntry>::empty(),
            s.sequence() == 0,
            s.count() == 0,
    {
        let s = RenderTargetStates { slots: Vec::new(), sequence: 0 };
        assert(s@ =~= Map::<RenderTargetKey, RenderTargetStateEntry>::empty());
        s
    }

    fn find(&self, key: RenderTargetKey) -> (r: Option<usize>)
        ensures
            match r {
                Some(i) => i < self.slots@.len() && self.slots@[i as int].key == key,
                None => !slots_have(self.slots@, key),
            },
    {
        let mut i: usize = 0;
        while i < self.slots.len()
            invariant
                i <= self.slots@.len(),
                forall|j: int| 0 <= j < i ==> (#[trigger] self.slots@[j]).key != key,
            decreases self.slots@.len() - i,
        {
            if self.slots[i].key == key {
                return Some(i);
            }
            i = i + 1;
        }
        None
    }

    /// How many targets are remembered.
    pub fn len(&self) -> (n: usize)
        ensures
            n == self.count(),
    {
        self.slots.len()
    }

    /// Whether `key` is remembered.
    pub fn contains_key(&self, key: RenderTargetKey) -> (r: bool)
        ensures
            r == self@.contains_key(key),
    {
        match self.find(key) {
            Some(i) => {
                proof {
                    use_type_invariant(self);
                    lemma_slot_index(self.slots@, i as int);
                }
                true
            },
            None => false,
        }
    }

    /// Looks up the state a render target was left in, counting this as a
    /// sighting: the sequence moves on by one (stopping at the maximum), and a
    /// remembered target is marked as seen now. An unknown target is
    /// `Bootstrapping`.
    pub fn previous_state(&mut self, key: RenderTargetKey) -> (r: RenderTargetState)
        ensures
            final(self).sequence() == next_sequence(old(self).sequence()),
            final(self).count() == old(self).count(),
            old(self)@.contains_key(key) ==> {
                &&& r == old(self)@[key].state
                &&& final(self)@ == old(self)@.insert(
                    key,
                    RenderTargetStateEntry { state: r, last_seen: final(self).sequence() },
                )
            },
            !old(self)@.contains_key(key) ==> {
                &&& r == RenderTargetState::Bootstrapping
                &&& final(self)@ == old(self)@
            },
    {
        proof {
            use_type_invariant(&*self);
        }
        let next = if self.sequence == u64::MAX {
            u64::MAX
        } else {
            self.sequence + 1
        };
        self.sequence = next;
        match self.find(key) {
            None => RenderTargetState::Bootstrapping,
            Some(i) => {
                let state = self.slots[i].entry.state;
                let slot = RenderTargetSlot {
                    key,
                    entry: RenderTargetStateEntry { state, last_seen: next },
                };
                proof {
                    lemma_slot_index(self.slots@, i as int);
                    lemma_slots_update(self.slots@, i as int, slot.entry);
                }
                let mut slots: Vec<RenderTargetSlot> = Vec::new();
                std::mem::swap(&mut slots, &mut self.slots);
                slots.set(i, slot);
                self.slots = slots;
                state
            },
        }
    }

    /// Remembers that `key` was drawn successfully in `state`, as seen at the
    /// current sequence. A new target in a full cache first forgets the target
    /// seen longest ago.
    pub fn record_success(&mut self, key: RenderTargetKey, state: DrawState)
        ensures
            final(self).sequence() == old(self).sequence(),
            old(self)@.contains_key(key) || old(self).count() < RENDER_TARGET_STATE_CAPACITY ==> {
                final(self)@ == old(self)@.insert(
                    key,
                    RenderTargetStateEntry {
                        state: RenderTargetState::Stable(state),
                        last_seen: old(self).sequence(),
                    },
                )
            },
            !old(self)@.contains_key(key) && old(self).count() >= RENDER_TARGET_STATE_CAPACITY
                ==> exists|victim: RenderTargetKey|
                #[trigger] is_oldest(old(self)@, victim) && final(self)@ == old(self)@.remove(
                    victim,
                ).insert(
                    key,
                    RenderTargetStateEntry {
                        state: RenderTargetState::Stable(state),
                        last_seen: old(self).sequence(),
                    },
                ),
            final(self).count() <= RENDER_TARGET_STATE_CAPACITY,
            old(self)@.contains_key(key) ==> final(self).count() == old(self).count(),
            !old(self)@.contains_key(key) && old(self).count() < RENDER_TARGET_STATE_CAPACITY
                ==> final(self).count() == old(self).count() + 1,
            !old(self)@.contains_key(key) && old(self).count() >= RENDER_TARGET_STATE_CAPACITY
                ==> final(self).count() == old(self).count(),
    {
        proof {
            use_type_invariant(&*self);
        }
        let entry = RenderTargetStateEntry {
            state: RenderTargetState::Stable(state),
            last_seen: self.sequence,
        };
        let found = self.find(key);
        let oldest: usize = if found.is_none() && self.slots.len() >= RENDER_TARGET_STATE_CAPACITY {
            self.oldest_index()
        } else {
            0
        };
        let mut slots: Vec<RenderTargetSlot> = Vec::new();
        std::mem::swap(&mut slots, &mut self.slots);
        assert(slots@ == old(self).slots@);
        match found {
            Some(i) => {
                proof {
                    lemma_slot_index(slots@, i as int);
                    lemma_slots_update(slots@, i as int, entry);
                }
                slots.set(i, RenderTargetSlot { key, entry });
            },
            None => {
                if slots.len() >= RENDER_TARGET_STATE_CAPACITY {
                    let ghost before = slots@;
                    let ghost victim = before[oldest as int].key;
                    proof {
                        lemma_slots_remove(before, oldest as int);
                    }
                    slots.remove(oldest);
                    proof {
                        assert(!slots_have(slots@, key)) by {
                            if slots_have(slots@, key) {
                                let j = slot_index(slots@, key);
                                let sj = if j < oldest {
                                    j
                                } else {
                                    j + 1
                                };
                                assert(slots@[j] == before[sj]);
                            }
                        }
                        lemma_slots_push(slots@, key, entry);
                    }
                    slots.push(RenderTargetSlot { key, entry });
                    proof {
                        assert(is_oldest(slots_view(before), victim));
                    }
                } else {
                    proof {
                        lemma_slots_push(slots@, key, entry);
                    }
                    slots.push(RenderTargetSlot { key, entry });
                }
            },
        }
        self.slots = slots;
    }

    fn oldest_index(&self) -> (r: usize)
        requires
            self.slots@.len() > 0,
            slots_unique(self.slots@),
        ensures
            r < self.slots@.len(),
            is_oldest(slots_view(self.slots@), self.slots@[r as int].key),
    {
        let mut best: usize = 0;
        let mut i: usize = 1;
        while i < self.slots.len()
            invariant
                1 <= i <= self.slots@.len(),
                best < i,
                slots_unique(self.slots@),
                forall|j: int|
                    0 <= j < i && j != best ==> seen_before(
                        self.slots@[best as int].key,
                        self.slots@[best as int].entry.last_seen,
                        (#[trigger] self.slots@[j]).key,
                        self.slots@[j].entry.last_seen,
                    ),
            decreases self.slots@.len() - i,
        {
            let candidate = self.slots[i];
            let current = self.slots[best];
            if seen_before_exec(
                candidate.key,
                candidate.entry.last_seen,
                current.key,
                current.entry.last_seen,
            ) {
                proof {
                    assert forall|j: int|
                        0 <= j < i + 1 && j != i implies seen_before(
                        self.slots@[i as int].key,
                        self.slots@[i as int].entry.last_seen,
                        (#[trigger] self.slots@[j]).key,
                        self.slots@[j].entry.last_seen,
                    ) by {
                        if j != best {
                            lemma_seen_before_transitive(
                                candidate.key,
                                candidate.entry.last_seen,
                                current.key,
                                current.entry.last_seen,
                                self.slots@[j].key,
                                self.slots@[j].entry.last_seen,
                            );
                        }
                    }
                }
                best = i;
            } else {
                proof {
                    assert(candidate.key != current.key);
                    lemma_seen_before_total(
                        candidate.key,
                        candidate.entry.last_seen,
                        current.key,
                        current.entry.last_seen,
                    );
                }
            }
            i = i + 1;
        }
        proof {
            let s = self.slots@;
            let m = slots_view(s);
            lemma_slot_index(s, best as int);
            assert forall|k: RenderTargetKey| #[trigger] m.contains_key(k) && k != s[best as int].key
                implies seen_before(s[best as int].key, m[s[best as int].key].last_seen, k, m[k].last_seen) by {
                let j = slot_index(s, k);
                assert(s[j].key == k);
                lemma_slot_index(s, j);
            }
        }
        best
    }
}

proof fn lemma_key_less_transitive(a: RenderTargetKey, b: RenderTargetKey, c: RenderTargetKey)
    requires
        render_target_key_less(a, b),
        render_target_key_less(b, c),
    ensures
        render_target_key_less(a, c),
{
}

proof fn lemma_seen_before_transitive(
    ka: RenderTargetKey,
    sa: u64,
    kb: RenderTargetKey,
    sb: u64,
    kc: RenderTargetKey,
    sc: u64,
)
    requires
        seen_before(ka, sa, kb, sb),
        seen_before(kb, sb, kc, sc),
    ensures
        seen_before(ka, sa, kc, sc),
{
    if sa == sb && sb == sc {
        lemma_key_less_transitive(ka, kb, kc);
    }
}

proof fn lemma_seen_before_total(ka: RenderTargetKey, sa: u64, kb: RenderTargetKey, sb: u64)
    requires
        ka != kb,
        !seen_before(ka, sa, kb, sb),
    ensures
        seen_before(kb, sb, ka, sa),
{
}

impl Default for RenderTargetStates {
    fn default() -> (s: RenderTargetStates)
        ensures
            s@ == Map::<RenderTargetKey, RenderTargetStateEntry>::empty(),
            s.sequence() == 0,
            s.count() == 0,
    {
        RenderTargetStates::new()
    }
}

/// Whether a cached device resource set survives when `current` is in use:
/// sets of other devices or swap chains stay, and for the same swap chain
/// only a set of the same size does.
pub fn keeps_device_resource(key: ResourceKey, current: ResourceKey) -> (r: bool)
    ensures
        r == (key.device != current.device || key.overlay_swap_chain != current.overlay_swap_chain
            || (key.width == current.width && key.height == current.height)),
{
    key.device != current.device || key.overlay_swap_chain != current.overlay_swap_chain || (
    key.width == current.width && key.height == current.height)
}

/// The DXGI format of the texture a back buffer of `format` is copied into.
pub open spec fn copy_texture_format(format: BackBufferFormat) -> u32 {
    match format {
        BackBufferFormat::Bgra8Unorm => DXGI_FORMAT_B8G8R8A8_UNORM,
        BackBufferFormat::Rgba16Float => DXGI_FORMAT_R16G16B16A16_FLOAT,
    }
}

/// The DXGI format of the copy texture for a back buffer of `format`.
pub fn dxgi_format_for_copy_texture(format: BackBufferFormat) -> (r: u32)
    ensures
        format_from_dxgi(r) == Some(format),
        r == copy_texture_format(format),
{
    match format {
        BackBufferFormat::Bgra8Unorm => DXGI_FORMAT_B8G8R8A8_UNORM,
        BackBufferFormat::Rgba16Float => DXGI_FORMAT_R16G16B16A16_FLOAT,
    }
}

/// `v` clamped into `[lo, hi]`.
pub open spec fn clamp_int(v: int, lo: int, hi: int) -> int {
    if v < lo {
        lo
    } else if v > hi {
        hi
    } else {
        v
    }
}

/// A dirty rectangle clamped to a `width` x `height` frame, if anything of it remains.
pub open spec fn clamped_rect(rect: DirtyRect, width: u32, height: u32) -> Option<DirtyRect> {
    let left = clamp_int(rect.left as int, 0, width as int);
    let top = clamp_int(rect.top as int, 0, height as int);
    let right = clamp_int(rect.right as int, 0, width as int);
    let bottom = clamp_int(rect.bottom as int, 0, height as int);
    if left < right && top < bottom {
        Some(
            DirtyRect {
                left: left as i32,
                top: top as i32,
                right: right as i32,
                bottom: bottom as i32,
            },
        )
    } else {
        None
    }
}

/// The rectangles of `s` that remain after clamping, clamped, in order.
pub open spec fn clamped_rects(s: Seq<DirtyRect>, width: u32, height: u32) -> Seq<DirtyRect>
    decreases s.len(),
{
    if s.len() == 0 {
        Seq::empty()
    } else {
        let rest = clamped_rects(s.drop_last(), width, height);
        match clamped_rect(s.last(), width, height) {
            Some(r) => rest.push(r),
            None => rest,
        }
    }
}

/// The whole frame as one rectangle.
pub open spec fn full_frame_rect(width: u32, height: u32) -> DirtyRect {
    DirtyRect { left: 0, top: 0, right: width as i32, bottom: height as i32 }
}

/// The rectangles a draw covers: the dirty rectangles, or the whole frame
/// when there are none, each clamped to the frame.
pub open spec fn frame_rects(dirty_rects: Seq<DirtyRect>, width: u32, height: u32) -> Seq<DirtyRect> {
    if dirty_rects.len() == 0 {
        clamped_rects(seq![full_frame_rect(width, height)], width, height)
    } else {
        clamped_rects(dirty_rects, width, height)
    }
}

fn clamp_i32(v: i32, hi: i32) -> (r: i32)
    requires
        hi >= 0,
    ensures
        r as int == clamp_int(v as int, 0, hi as int),
{
    if v < 0 {
        0
    } else if v > hi {
        hi
    } else {
        v
    }
}

/// A dirty rectangle clamped to the frame, or `None` when nothing of it is inside.
pub fn clamp_rect(rect: DirtyRect, width: u32, height: u32) -> (r: Option<DirtyRect>)
    requires
        width <= i32::MAX,
        height <= i32::MAX,
    ensures
        r == clamped_rect(rect, width, height),
{
    let w = width as i32;
    let h = height as i32;
    let left = clamp_i32(rect.left, w);
    let top = clamp_i32(rect.top, h);
    let right = clamp_i32(rect.right, w);
    let bottom = clamp_i32(rect.bottom, h);
    if left < right && top < bottom {
        Some(DirtyRect { left, top, right, bottom })
    } else {
        None
    }
}

/// The clamped rectangles a draw of a `width` x `height` frame covers; an
/// empty dirty list stands for the whole frame.
pub fn draw_rects_for_frame(dirty_rects: &[DirtyRect], width: u32, height: u32) -> (r: Vec<DirtyRect>)
    requires
        width <= i32::MAX,
        height <= i32::MAX,
    ensures
        r@ == frame_rects(dirty_rects@, width, height),
{
    let full = [DirtyRect { left: 0, top: 0, right: width as i32, bottom: height as i32 }];
    let rects: &[DirtyRect] = if dirty_rects.len() == 0 {
        &full
    } else {
        dirty_rects
    };
    proof {
        if dirty_rects@.len() == 0 {
            assert(rects@ =~= seq![full_frame_rect(width, height)]);
        }
    }
    let mut out: Vec<DirtyRect> = Vec::new();
    let mut i: usize = 0;
    while i < rects.len()
        invariant
            i <= rects@.len(),
            width <= i32::MAX,
            height <= i32::MAX,
            out@ == clamped_rects(rects@.subrange(0, i as int), width, height),
        decreases rects@.len() - i,
    {
        let clamped = clamp_rect(rects[i], width, height);
        proof {
            assert(rects@.subrange(0, i + 1).drop_last() =~= rects@.subrange(0, i as int));
        }
        match clamped {
            Some(r) => out.push(r),
            None => {},
        }
        i = i + 1;
    }
    assert(rects@.subrange(0, i as int) =~= rects@);
    out
}

/// The clamped rectangle covering the whole frame.
pub fn draw_rects_for_full_frame(width: u32, height: u32) -> (r: Vec<DirtyRect>)
    requires
        width <= i32::MAX,
        height <= i32::MAX,
    ensures
        r@ == frame_rects(Seq::empty(), width, height),
{
    let none: [DirtyRect; 0] = [];
    draw_rects_for_frame(&none, width, height)
}

/// The copy region for a rectangle inside the frame.
pub fn copy_box_for_rect(rect: DirtyRect) -> (b: Box3D)
    ensures
        b == (Box3D {
            left: rect.left as u32,
            top: rect.top as u32,
            front: 0,
            right: rect.right as u32,
            bottom: rect.bottom as u32,
            back: 1,
        }),
{
    Box3D {
        left: rect.left as u32,
        top: rect.top as u32,
        front: 0,
        right: rect.right as u32,
        bottom: rect.bottom as u32,
        back: 1,
    }
}

pub open spec fn min_i32(a: i32, b: i32) -> i32 {
    if a <= b {
        a
    } else {
        b
    }
}

pub open spec fn max_i32(a: i32, b: i32) -> i32 {
    if a >= b {
        a
    } else {
        b
    }
}

/// The smallest rectangle holding both.
pub open spec fn union_rect(a: DirtyRect, b: DirtyRect) -> DirtyRect {
    DirtyRect {
        left: min_i32(a.left, b.left),
        top: min_i32(a.top, b.top),
        right: max_i32(a.right, b.right),
        bottom: max_i32(a.bottom, b.bottom),
    }
}

/// The bounding rectangle of a non-empty list, folded from the first.
pub open spec fn bounds_of(s: Seq<DirtyRect>) -> DirtyRect
    decreases s.len(),
{
    if s.len() <= 1 {
        s[0]
    } else {
        union_rect(bounds_of(s.drop_last()), s.last())
    }
}

/// The rectangle that bounds all of `rects`, or `None` for an empty list.
pub fn bounding_rect(rects: &[DirtyRect]) -> (r: Option<DirtyRect>)
    ensures
        rects@.len() == 0 ==> r is None,
        rects@.len() > 0 ==> r == Some(bounds_of(rects@)),
{
    if rects.len() == 0 {
        return None;
    }
    let mut bounds = rects[0];
    let mut i: usize = 1;
    proof {
        assert(rects@.subrange(0, 1).len() == 1);
    }
    while i < rects.len()
        invariant
            1 <= i <= rects@.len(),
            bounds == bounds_of(rects@.subrange(0, i as int)),
        decreases rects@.len() - i,
    {
        let rect = rects[i];
        proof {
            assert(rects@.subrange(0, i + 1).drop_last() =~= rects@.subrange(0, i as int));
        }
        bounds = DirtyRect {
            left: if bounds.left <= rect.left {
                bounds.left
            } else {
                rect.left
            },
            top: if bounds.top <= rect.top {
                bounds.top
            } else {
                rect.top
            },
            right: if bounds.right >= rect.right {
                bounds.right
            } else {
                rect.right
            },
            bottom: if bounds.bottom >= rect.bottom {
                bounds.bottom
            } else {
                rect.bottom
            },
        };
        i = i + 1;
    }
    assert(rects@.subrange(0, i as int) =~= rects@);
    Some(bounds)
}

/// Whether a draw must cover the whole target: always for a target not yet
/// drawn, and otherwise when its resources or copy texture were recreated or
/// the format or LUT changed.
pub open spec fn full_redraw_needed(
    previous: RenderTargetState,
    current: DrawState,
    resources_recreated: bool,
    copy_texture_created: bool,
) -> bool {
    match previous {
        RenderTargetState::Bootstrapping => true,
        RenderTargetState::Stable(p) => resources_recreated || copy_texture_created || p != current,
    }
}

pub fn requires_full_redraw(
    previous: RenderTargetState,
    current: DrawState,
    resources_recreated: bool,
    copy_texture_created: bool,
) -> (r: bool)
    ensures
        r == full_redraw_needed(previous, current, resources_recreated, copy_texture_created),
{
    match previous {
        RenderTargetState::Bootstrapping => true,
        RenderTargetState::Stable(p) => resources_recreated || copy_texture_created || p != current,
    }
}

/// Whether the present's own dirty region must grow to the whole redrawn area:
/// only for a full redraw of a target that was drawn before, or whose
/// resources or copy texture were just recreated.
pub open spec fn present_region_expands(
    needs_full_redraw: bool,
    previous_state: RenderTargetState,
    resources_recreated: bool,
    copy_texture_created: bool,
) -> bool {
    needs_full_redraw && (resources_recreated || copy_texture_created
        || previous_state is Stable)
}

/// The dirty rectangle to hand to the original present after a full redraw:
/// the bounds of the drawn rectangles when the present region must grow,
/// `None` otherwise.
pub fn present_dirty_rect_for_full_redraw(
    needs_full_redraw: bool,
    previous_state: RenderTargetState,
    resources_recreated: bool,
    copy_texture_created: bool,
    dirty_rects: &[DirtyRect],
) -> (r: Option<DirtyRect>)
    requires
        present_region_expands(
            needs_full_redraw,
            previous_state,
            resources_recreated,
            copy_texture_created,
        ) ==> dirty_rects@.len() > 0,
    ensures
        present_region_expands(
            needs_full_redraw,
            previous_state,
            resources_recreated,
            copy_texture_created,
        ) ==> r == Some(bounds_of(dirty_rects@)),
        !present_region_expands(
            needs_full_redraw,
            previous_state,
            resources_recreated,
            copy_texture_created,
        ) ==> r is None,
{
    let stable = match previous_state {
        RenderTargetState::Stable(_) => true,
        RenderTargetState::Bootstrapping => false,
    };
    let should_expand = needs_full_redraw && (resources_recreated || copy_texture_created || stable);
    if should_expand {
        bounding_rect(dirty_rects)
    } else {
        None
    }
}

/// What preparing a draw gives: the skip, or the format, LUT index, shader
/// constants and rectangles of the draw.
pub open spec fn draw_plan_outcome(
    luts: Seq<LoadedLut>,
    monitor_identity: Option<MonitorIdentity>,
    dxgi_format: u32,
    width: u32,
    height: u32,
    dirty_rects: Seq<DirtyRect>,
) -> Result<(BackBufferFormat, int, ShaderConstants, Seq<DirtyRect>), DrawPlanSkip> {
    let format = format_from_dxgi(dxgi_format);
    let matched = if monitor_identity is Some && format is Some {
        first_matching_lut(luts, monitor_identity.unwrap(), format_color_mode(format.unwrap()))
    } else {
        None
    };
    if width == 0 || height == 0 {
        Err(
            match matched {
                Some(i) => DrawPlanSkip {
                    reason: DrawPlanSkipReason::ZeroSize,
                    lut_active: true,
                    lut_index: Some(i as usize),
                },
                None => DrawPlanSkip {
                    reason: DrawPlanSkipReason::ZeroSize,
                    lut_active: false,
                    lut_index: None,
                },
            },
        )
    } else if monitor_identity is None {
        Err(
            DrawPlanSkip {
                reason: DrawPlanSkipReason::MissingMonitorIdentity,
                lut_active: false,
                lut_index: None,
            },
        )
    } else if format is None {
        Err(
            DrawPlanSkip {
                reason: DrawPlanSkipReason::UnsupportedFormat,
                lut_active: false,
                lut_index: None,
            },
        )
    } else if matched is None {
        Err(
            DrawPlanSkip {
                reason: DrawPlanSkipReason::MissingAssignment,
                lut_active: false,
                lut_index: None,
            },
        )
    } else {
        let i = matched.unwrap();
        let rects = frame_rects(dirty_rects, width, height);
        if rects.len() == 0 {
            Err(
                DrawPlanSkip {
                    reason: DrawPlanSkipReason::EmptyDirtyRects,
                    lut_active: true,
                    lut_index: Some(i as usize),
                },
            )
        } else {
            let f = format.unwrap();
            Ok(
                (
                    f,
                    i,
                    ShaderConstants {
                        lut_size: luts[i].size,
                        hdr: if f == BackBufferFormat::Rgba16Float {
                            1u32
                        } else {
                            0u32
                        },
                    },
                    rects,
                ),
            )
        }
    }
}

/// What drawing a present with its LUT came to.
#[derive(Debug, Clone, Copy, PartialEq, Eq, Structural)]
pub struct PresentLutOutcome {
    pub lut_active: bool,
    pub present_dirty_rect: Option<DirtyRect>,
    pub draw: PresentDrawStatus,
    pub dxgi_format: Option<u32>,
    pub width: Option<u32>,
    pub height: Option<u32>,
    pub lut_index: Option<usize>,
    pub back_buffer_id: Option<BackBufferId>,
}

/// The outcome of a present whose draw plan was skipped.
pub fn outcome_from_skip(
    skip: DrawPlanSkip,
    dxgi_format: u32,
    width: u32,
    height: u32,
    back_buffer_id: Option<BackBufferId>,
) -> (o: PresentLutOutcome)
    ensures
        o == (PresentLutOutcome {
            lut_active: skip.lut_active,
            present_dirty_rect: None,
            draw: PresentDrawStatus::Skipped(skip.reason),
            dxgi_format: Some(dxgi_format),
            width: Some(width),
            height: Some(height),
            lut_index: skip.lut_index,
            back_buffer_id,
        }),
{
    PresentLutOutcome {
        lut_active: skip.lut_active,
        present_dirty_rect: None,
        draw: PresentDrawStatus::Skipped(skip.reason),
        dxgi_format: Some(dxgi_format),
        width: Some(width),
        height: Some(height),
        lut_index: skip.lut_index,
        back_buffer_id,
    }
}

/// The outcome of a planned draw that failed before the frame size was used.
pub fn outcome_planned(
    lut_index: usize,
    format: BackBufferFormat,
    fail: PresentDrawFailReason,
    back_buffer_id: Option<BackBufferId>,
) -> (o: PresentLutOutcome)
    ensures
        o == (PresentLutOutcome {
            lut_active: true,
            present_dirty_rect: None,
            draw: PresentDrawStatus::Failed(fail),
            dxgi_format: Some(copy_texture_format(format)),
            width: None,
            height: None,
            lut_index: Some(lut_index),
            back_buffer_id,
        }),
{
    PresentLutOutcome {
        lut_active: true,
        present_dirty_rect: None,
        draw: PresentDrawStatus::Failed(fail),
        dxgi_format: Some(dxgi_format_for_copy_texture(format)),
        width: None,
        height: None,
        lut_index: Some(lut_index),
        back_buffer_id,
    }
}

/// The outcome of a drawn present.
pub fn outcome_applied(
    lut_index: usize,
    format: BackBufferFormat,
    width: u32,
    height: u32,
    present_dirty_rect: Option<DirtyRect>,
    full_redraw: bool,
    back_buffer_id: Option<BackBufferId>,
) -> (o: PresentLutOutcome)
    ensures
        o == (PresentLutOutcome {
            lut_active: true,
            present_dirty_rect,
            draw: PresentDrawStatus::Applied { full_redraw },
            dxgi_format: Some(copy_texture_format(format)),
            width: Some(width),
            height: Some(height),
            lut_index: Some(lut_index),
            back_buffer_id,
        }),
{
    PresentLutOutcome {
        lut_active: true,
        present_dirty_rect,
        draw: PresentDrawStatus::Applied { full_redraw },
        dxgi_format: Some(dxgi_format_for_copy_texture(format)),
        width: Some(width),
        height: Some(height),
        lut_index: Some(lut_index),
        back_buffer_id,
    }
}

/// The outcome of a draw that failed once the frame was known.
pub fn outcome_draw_failed(
    lut_index: usize,
    format: BackBufferFormat,
    width: u32,
    height: u32,
    fail: PresentDrawFailReason,
    back_buffer_id: Option<BackBufferId>,
) -> (o: PresentLutOutcome)
    ensures
        o == (PresentLutOutcome {
            lut_active: true,
            present_dirty_rect: None,
            draw: PresentDrawStatus::Failed(fail),
            dxgi_format: Some(copy_texture_format(format)),
            width: Some(width),
            height: Some(height),
            lut_index: Some(lut_index),
            back_buffer_id,
        }),
{
    PresentLutOutcome {
        lut_active: true,
        present_dirty_rect: None,
        draw: PresentDrawStatus::Failed(fail),
        dxgi_format: Some(dxgi_format_for_copy_texture(format)),
        width: Some(width),
        height: Some(height),
        lut_index: Some(lut_index),
        back_buffer_id,
    }
}

/// Whether the device resources of a frame must be created anew: none are
/// cached under its key, or those cached were made for another number of LUTs.
pub fn must_recreate_resources(cached_lut_count: Option<usize>, lut_count: usize) -> (r: bool)
    ensures
        r == match cached_lut_count {
            Some(n) => n != lut_count,
            None => true,
        },
{
    match cached_lut_count {
        Some(n) => n != lut_count,
        None => true,
    }
}

/// The failure of a draw whose LUT index has no loaded LUT view among
/// `lut_view_count`, if it has none.
pub fn lut_index_failure(lut_index: usize, lut_view_count: usize) -> (r: Option<
    PresentDrawFailReason,
>)
    ensures
        r == (if lut_index >= lut_view_count {
            Some(PresentDrawFailReason::LutIndexOutOfRange)
        } else {
            None
        }),
{
    if lut_index >= lut_view_count {
        Some(PresentDrawFailReason::LutIndexOutOfRange)
    } else {
        None
    }
}

/// How one frame of a render target is drawn: with the state the target was
/// left in, over the planned rectangles or the whole frame, and with the
/// region the original present must then cover.
#[derive(Debug, Clone, PartialEq, Eq)]
pub struct FrameDraw {
    pub previous_state: RenderTargetState,
    pub draw_state: DrawState,
    pub full_redraw: bool,
    pub dirty_rects: Vec<DirtyRect>,
    pub present_dirty_rect: Option<DirtyRect>,
}

/// The state a render target was left in, as `states` remembers it.
pub open spec fn remembered_state(
    states: Map<RenderTargetKey, RenderTargetStateEntry>,
    key: RenderTargetKey,
) -> RenderTargetState {
    if states.contains_key(key) {
        states[key].state
    } else {
        RenderTargetState::Bootstrapping
    }
}

/// Decides how to draw the frame of render target `key` with a ready draw
/// plan, once the device resources are in place: the target's previous
/// state is looked up (counting a sighting), a full redraw replaces the
/// planned rectangles by the whole frame, and the present region grows where
/// it must. `None` when there is nothing to draw.
pub fn decide_frame_draw(
    states: &mut RenderTargetStates,
    key: RenderTargetKey,
    format: BackBufferFormat,
    lut_index: usize,
    planned_rects: Vec<DirtyRect>,
    resources_recreated: bool,
    copy_texture_created: bool,
    width: u32,
    height: u32,
) -> (d: Option<FrameDraw>)
    requires
        full_redraw_needed(
            remembered_state(old(states)@, key),
            (DrawState { format, lut_index }),
            resources_recreated,
            copy_texture_created,
        ) ==> width <= i32::MAX && height <= i32::MAX,
    ensures
        final(states).sequence() == next_sequence(old(states).sequence()),
        final(states).count() == old(states).count(),
        old(states)@.contains_key(key) ==> final(states)@ == old(states)@.insert(
            key,
            RenderTargetStateEntry {
                state: old(states)@[key].state,
                last_seen: final(states).sequence(),
            },
        ),
        !old(states)@.contains_key(key) ==> final(states)@ == old(states)@,
        ({
            let previous = remembered_state(old(states)@, key);
            let current = DrawState { format, lut_index };
            let full = full_redraw_needed(previous, current, resources_recreated, copy_texture_created);
            let rects = if full {
                frame_rects(Seq::empty(), width, height)
            } else {
                planned_rects@
            };
            match d {
                None => rects.len() == 0,
                Some(f) => {
                    &&& rects.len() > 0
                    &&& f.previous_state == previous
                    &&& f.draw_state == current
                    &&& f.full_redraw == full
                    &&& f.dirty_rects@ == rects
                    &&& present_region_expands(
                        full,
                        previous,
                        resources_recreated,
                        copy_texture_created,
                    ) ==> f.present_dirty_rect == Some(bounds_of(rects))
                    &&& !present_region_expands(
                        full,
                        previous,
                        resources_recreated,
                        copy_texture_created,
                    ) ==> f.present_dirty_rect is None
                },
            }
        }),
{
    let previous_state = states.previous_state(key);
    let draw_state = DrawState { format, lut_index };
    let full_redraw = requires_full_redraw(
        previous_state,
        draw_state,
        resources_recreated,
        copy_texture_created,
    );
    let dirty_rects = if full_redraw {
        draw_rects_for_full_frame(width, height)
    } else {
        planned_rects
    };
    if dirty_rects.len() == 0 {
        return None;
    }
    let present_dirty_rect = present_dirty_rect_for_full_redraw(
        full_redraw,
        previous_state,
        resources_recreated,
        copy_texture_created,
        dirty_rects.as_slice(),
    );
    Some(FrameDraw { previous_state, draw_state, full_redraw, dirty_rects, present_dirty_rect })
}

/// Records the result of drawing a frame: a target drawn successfully is
/// remembered as stable in the state it was drawn with.
pub fn record_frame_result(
    states: &mut RenderTargetStates,
    key: RenderTargetKey,
    draw_state: DrawState,
    drawn: bool,
)
    ensures
        !drawn ==> final(states)@ == old(states)@ && final(states).count() == old(states).count(),
        final(states).sequence() == old(states).sequence(),
        drawn && (old(states)@.contains_key(key) || old(states).count() < RENDER_TARGET_STATE_CAPACITY)
            ==> final(states)@ == old(states)@.insert(
            key,
            RenderTargetStateEntry {
                state: RenderTargetState::Stable(draw_state),
                last_seen: old(states).sequence(),
            },
        ),
        drawn && !old(states)@.contains_key(key) && old(states).count()
            >= RENDER_TARGET_STATE_CAPACITY ==> exists|victim: RenderTargetKey|
            #[trigger] is_oldest(old(states)@, victim) && final(states)@ == old(states)@.remove(
                victim,
            ).insert(
                key,
                RenderTargetStateEntry {
                    state: RenderTargetState::Stable(draw_state),
                    last_seen: old(states).sequence(),
                },
            ),
        drawn ==> final(states).count() <= RENDER_TARGET_STATE_CAPACITY,
{
    if drawn {
        states.record_success(key, draw_state);
    }
}

/// Whether planning a draw gets as far as clamping the rectangles to the
/// frame: the frame has a size, the monitor is known, the format is
/// supported and a LUT is assigned for it. Only there does the frame size
/// have to fit in an `i32`.
pub open spec fn draw_plan_clamps(
    luts: Seq<LoadedLut>,
    monitor_identity: Option<MonitorIdentity>,
    dxgi_format: u32,
    width: u32,
    height: u32,
) -> bool {
    &&& width != 0
    &&& height != 0
    &&& monitor_identity is Some
    &&& format_from_dxgi(dxgi_format) is Some
    &&& first_matching_lut(
        luts,
        monitor_identity.unwrap(),
        format_color_mode(format_from_dxgi(dxgi_format).unwrap()),
    ) is Some
}

/// Decides whether and how a present is drawn with a LUT: the frame must
/// have a size, the monitor must be known, the format supported and a LUT
/// assigned for the monitor and the format's colour mode, and some dirty
/// rectangle must lie inside the frame.
pub fn prepare_gpu_draw_plan(
    luts: &Vec<LoadedLut>,
    monitor_identity: Option<MonitorIdentity>,
    dxgi_format: u32,
    width: u32,
    height: u32,
    dirty_rects: &[DirtyRect],
) -> (r: Result<GpuDrawPlan, DrawPlanSkip>)
    requires
        draw_plan_clamps(luts@, monitor_identity, dxgi_format, width, height) ==> width
            <= i32::MAX && height <= i32::MAX,
    ensures
        match r {
            Ok(plan) => draw_plan_outcome(
                luts@,
                monitor_identity,
                dxgi_format,
                width,
                height,
                dirty_rects@,
            ) == Ok::<_, DrawPlanSkip>(
                (plan.format, plan.lut_index as int, plan.constants, plan.dirty_rects@),
            ),
            Err(skip) => draw_plan_outcome(
                luts@,
                monitor_identity,
                dxgi_format,
                width,
                height,
                dirty_rects@,
            ) == Err::<(BackBufferFormat, int, ShaderConstants, Seq<DirtyRect>), _>(skip),
        },
{
    let format = BackBufferFormat::from_dxgi_format(dxgi_format);
    let matched: Option<usize> = match (monitor_identity, format) {
        (Some(identity), Some(f)) => find_lut(luts, identity, f.color_mode()),
        _ => None,
    };
    if width == 0 || height == 0 {
        return Err(
            match matched {
                Some(i) => DrawPlanSkip::active(DrawPlanSkipReason::ZeroSize, i),
                None => DrawPlanSkip::inactive(DrawPlanSkipReason::ZeroSize),
            },
        );
    }
    if monitor_identity.is_none() {
        return Err(DrawPlanSkip::inactive(DrawPlanSkipReason::MissingMonitorIdentity));
    }
    let format = match format {
        None => return Err(DrawPlanSkip::inactive(DrawPlanSkipReason::UnsupportedFormat)),
        Some(f) => f,
    };
    let lut_index = match matched {
        None => return Err(DrawPlanSkip::inactive(DrawPlanSkipReason::MissingAssignment)),
        Some(i) => i,
    };
    let rects = draw_rects_for_frame(dirty_rects, width, height);
    if rects.len() == 0 {
        return Err(DrawPlanSkip::active(DrawPlanSkipReason::EmptyDirtyRects, lut_index));
    }
    let hdr: u32 = if format.is_hdr() {
        1
    } else {
        0
    };
    Ok(
        GpuDrawPlan {
            format,
            lut_index,
            constants: ShaderConstants { lut_size: luts[lut_index].size, hdr },
            dirty_rects: rects,
        },
    )
}

/// Runs a draw between capturing and restoring pipeline state: `capture`
/// first, then `draw`, then `restore` with what `capture` returned; the
/// draw's result is returned.
pub fn with_restored_state<State, Capture, Draw, Restore>(
    capture: Capture,
    draw: Draw,
    restore: Restore,
) -> (r: bool) where Capture: FnOnce() -> State, Draw: FnOnce() -> bool, Restore: FnOnce(&State)
    requires
        capture.requires(()),
        draw.requires(()),
        forall|s: &State| #[trigger] restore.requires((s,)),
    ensures
        draw.ensures((), r),
        exists|s: State| capture.ensures((), s) && restore.ensures((&s,), ()),
{
    let state = capture();
    let result = draw();
    restore(&state);
    result
}

} // verus!
