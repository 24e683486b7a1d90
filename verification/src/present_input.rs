use vstd::prelude::*;

use crate::config::{AdapterLuid, MonitorIdentity};
use crate::lut_pipeline::{ClipBox, DirtyRect};
use crate::profile::ProfileHypotheses;

verus! {

/// Most dirty rectangles a present may carry.
pub const MAX_DIRTY_RECTS: usize = 4096;

/// Size in bytes of a dirty rectangle in memory (four `i32`).
pub const DIRTY_RECT_SIZE: usize = 16;

/// Alignment in bytes of a dirty rectangle in memory.
pub const DIRTY_RECT_ALIGN: usize = 4;

/// Offset of the adapter LUID's low part in an overlay swap chain.
pub const OVERLAY_SWAP_CHAIN_ADAPTER_LUID_LOW_OFFSET: usize = 0x34;

/// Offset of the adapter LUID's high part in an overlay swap chain.
pub const OVERLAY_SWAP_CHAIN_ADAPTER_LUID_HIGH_OFFSET: usize = 0x38;

/// Offset of the display target id in an overlay swap chain.
pub const OVERLAY_SWAP_CHAIN_TARGET_ID_OFFSET: usize = 0x3c;

/// Region state of committed memory.
pub const MEM_COMMIT: u32 = 0x1000;

pub const PAGE_READONLY: u32 = 0x02;

pub const PAGE_READWRITE: u32 = 0x04;

pub const PAGE_WRITECOPY: u32 = 0x08;

pub const PAGE_EXECUTE: u32 = 0x10;

pub const PAGE_EXECUTE_READ: u32 = 0x20;

pub const PAGE_EXECUTE_READWRITE: u32 = 0x40;

pub const PAGE_EXECUTE_WRITECOPY: u32 = 0x80;

pub const PAGE_GUARD: u32 = 0x100;

/// The bits of a protection value that give the access rights.
pub const PAGE_PROTECTION_MASK: u32 = 0xff;

/// Why the inputs of a present could not be read.
#[derive(Debug, Clone, Copy, PartialEq, Eq, Structural)]
pub enum PresentInputError {
    MissingProfile,
    NullOverlaySwapChain,
    NullContextState,
    InvalidDirtyRectVector,
    UnreadableMemory,
}

/// `base + offset` as an address, where it does not overflow.
pub open spec fn offset_address(base: usize, offset: usize) -> Option<usize> {
    if base + offset <= usize::MAX {
        Some((base + offset) as usize)
    } else {
        None
    }
}

/// `base + offset`; an address past the end of the address space is unreadable memory.
pub fn checked_address(base: usize, offset: usize) -> (r: Result<usize, PresentInputError>)
    ensures
        match offset_address(base, offset) {
            Some(a) => r == Ok::<usize, PresentInputError>(a),
            None => r == Err::<usize, PresentInputError>(PresentInputError::UnreadableMemory),
        },
{
    match base.checked_add(offset) {
        Some(a) => Ok(a),
        None => Err(PresentInputError::UnreadableMemory),
    }
}

/// The last byte of `size` bytes at `address`, where the range is not empty,
/// not at null and does not wrap.
pub open spec fn range_last_byte(address: usize, size: usize) -> Option<usize> {
    if address == 0 || size == 0 || address + size - 1 > usize::MAX {
        None
    } else {
        Some((address + size - 1) as usize)
    }
}

/// The last byte of a range to check for readability; `None` where the
/// range is empty, at null or wraps, which makes it unreadable at once.
pub fn readable_range_last_byte(address: usize, size: usize) -> (r: Option<usize>)
    ensures
        r == range_last_byte(address, size),
{
    if address == 0 || size == 0 {
        return None;
    }
    address.checked_add(size - 1)
}

/// What the process reports about the memory region around an address.
#[derive(Debug, Clone, Copy, PartialEq, Eq, Structural)]
pub struct MemoryRegion {
    pub base_address: usize,
    pub region_size: usize,
    pub state: u32,
    pub protect: u32,
}

/// Whether access rights `rights` allow reading.
pub open spec fn readable_rights(rights: u32) -> bool {
    rights == PAGE_READONLY || rights == PAGE_READWRITE || rights == PAGE_WRITECOPY || rights
        == PAGE_EXECUTE_READ || rights == PAGE_EXECUTE_READWRITE || rights == PAGE_EXECUTE_WRITECOPY
}

/// Whether a region can be read: committed, not a guard page, with read access.
pub open spec fn region_readable(region: MemoryRegion) -> bool {
    &&& region.state == MEM_COMMIT
    &&& region.protect & PAGE_GUARD == 0
    &&& readable_rights(region.protect & PAGE_PROTECTION_MASK)
}

/// Whether `region` can be read.
pub fn is_readable_memory_region(region: &MemoryRegion) -> (r: bool)
    ensures
        r == region_readable(*region),
{
    if region.state != MEM_COMMIT || region.protect & PAGE_GUARD != 0 {
        return false;
    }
    let rights = region.protect & PAGE_PROTECTION_MASK;
    rights == PAGE_READONLY || rights == PAGE_READWRITE || rights == PAGE_WRITECOPY || rights
        == PAGE_EXECUTE_READ || rights == PAGE_EXECUTE_READWRITE || rights == PAGE_EXECUTE_WRITECOPY
}

/// The access rights that allow writing.
pub const PAGE_WRITABLE_RIGHTS: u32 = 0xcc;

/// Whether a region can be written: committed, not a guard page, with
/// some write access (read-write, write-copy, or their executable forms).
pub open spec fn region_writable(region: MemoryRegion) -> bool {
    &&& region.state == MEM_COMMIT
    &&& region.protect & PAGE_GUARD == 0
    &&& region.protect & PAGE_WRITABLE_RIGHTS != 0
}

/// Whether `region` can be written.
pub fn is_writable_memory_region(region: &MemoryRegion) -> (r: bool)
    ensures
        r == region_writable(*region),
{
    region.state == MEM_COMMIT && region.protect & PAGE_GUARD == 0 && region.protect
        & PAGE_WRITABLE_RIGHTS != 0
}

/// One step of checking that every byte up to `last` is readable.
#[derive(Debug, Clone, Copy, PartialEq, Eq, Structural)]
pub enum RangeWalk {
    Readable,
    Unreadable,
    /// Query the region at this address next.
    Continue(usize),
}

/// The step for the region reported at `address`, while bytes up to `last`
/// remain to check: an unknown or unreadable region ends the walk; a region
/// reaching `last` ends it readable; else the walk goes on after the region.
pub open spec fn range_walk_step(address: usize, last: usize, region: Option<MemoryRegion>) -> RangeWalk {
    match region {
        None => RangeWalk::Unreadable,
        Some(r) => if !region_readable(r) {
            RangeWalk::Unreadable
        } else {
            let size_less_one: int = if r.region_size == 0 {
                0
            } else {
                r.region_size - 1
            };
            let region_last = r.base_address + size_less_one;
            if region_last > usize::MAX {
                RangeWalk::Unreadable
            } else if region_last >= last {
                RangeWalk::Readable
            } else if region_last + 1 > address {
                RangeWalk::Continue((region_last + 1) as usize)
            } else {
                RangeWalk::Unreadable
            }
        },
    }
}

/// Takes in the region reported at `address` while checking bytes up to `last`.
pub fn walk_readable_range(address: usize, last: usize, region: Option<MemoryRegion>) -> (step:
    RangeWalk)
    ensures
        step == range_walk_step(address, last, region),
        step matches RangeWalk::Continue(next) ==> address < next <= last,
{
    match region {
        None => RangeWalk::Unreadable,
        Some(r) => {
            if !is_readable_memory_region(&r) {
                return RangeWalk::Unreadable;
            }
            let size_less_one = r.region_size.saturating_sub(1);
            let region_last = match r.base_address.checked_add(size_less_one) {
                Some(e) => e,
                None => return RangeWalk::Unreadable,
            };
            if region_last >= last {
                return RangeWalk::Readable;
            }
            let next = region_last + 1;
            if next > address {
                RangeWalk::Continue(next)
            } else {
                RangeWalk::Unreadable
            }
        },
    }
}

/// The three pointers of a dirty-rectangle vector, as addresses.
#[derive(Debug, Clone, Copy, PartialEq, Eq, Structural)]
pub struct RectVecLayout {
    pub start: usize,
    pub end: usize,
    pub capacity_end: usize,
}

/// Where the rectangles of a vector are and how many there are: an all-null
/// vector is empty; else the start must be non-null and aligned, the
/// pointers ordered, both lengths whole rectangles, and the count at most
/// `MAX_DIRTY_RECTS`.
pub open spec fn rect_span(v: RectVecLayout) -> Result<(usize, usize), PresentInputError> {
    if v.start == 0 && v.end == 0 && v.capacity_end == 0 {
        Ok((0usize, 0usize))
    } else if v.start == 0 || v.end < v.start || v.capacity_end < v.end || v.start % DIRTY_RECT_ALIGN
        != 0 {
        Err(PresentInputError::InvalidDirtyRectVector)
    } else if (v.end - v.start) % (DIRTY_RECT_SIZE as int) != 0 || (v.capacity_end - v.start) % (
    DIRTY_RECT_SIZE as int) != 0 {
        Err(PresentInputError::InvalidDirtyRectVector)
    } else if (v.end - v.start) / (DIRTY_RECT_SIZE as int) > MAX_DIRTY_RECTS {
        Err(PresentInputError::InvalidDirtyRectVector)
    } else {
        Ok((v.start, ((v.end - v.start) / (DIRTY_RECT_SIZE as int)) as usize))
    }
}

/// The start and the count of a vector's rectangles, or why the vector is invalid.
pub fn dirty_rect_span(v: RectVecLayout) -> (r: Result<(usize, usize), PresentInputError>)
    ensures
        r == rect_span(v),
        r matches Ok((_, count)) ==> count <= MAX_DIRTY_RECTS,
{
    if v.start == 0 && v.end == 0 && v.capacity_end == 0 {
        return Ok((0, 0));
    }
    if v.start == 0 || v.end < v.start || v.capacity_end < v.end || v.start % DIRTY_RECT_ALIGN != 0 {
        return Err(PresentInputError::InvalidDirtyRectVector);
    }
    let byte_len = v.end - v.start;
    if byte_len % DIRTY_RECT_SIZE != 0 {
        return Err(PresentInputError::InvalidDirtyRectVector);
    }
    if (v.capacity_end - v.start) % DIRTY_RECT_SIZE != 0 {
        return Err(PresentInputError::InvalidDirtyRectVector);
    }
    let count = byte_len / DIRTY_RECT_SIZE;
    if count > MAX_DIRTY_RECTS {
        return Err(PresentInputError::InvalidDirtyRectVector);
    }
    Ok((v.start, count))
}

/// A read of the process's memory that collecting present inputs needs.
#[derive(Debug, Clone, Copy, PartialEq, Eq, Structural)]
pub enum MemoryRead {
    /// One byte.
    Byte { address: usize },
    /// One pointer-sized word.
    Word { address: usize },
    /// Two `i32`.
    Point { address: usize },
    U32 { address: usize },
    I32 { address: usize },
    /// The three pointers of a rectangle vector.
    RectVec { address: usize },
    /// One dirty rectangle.
    Rect { address: usize },
    /// Whether `size` bytes at `address` are all readable.
    CheckReadable { address: usize, size: usize },
}

/// What a `MemoryRead` gave.
#[derive(Debug, Clone, Copy, PartialEq, Eq, Structural)]
pub enum MemoryValue {
    Byte(u8),
    Word(usize),
    Point(i32, i32),
    U32(u32),
    I32(i32),
    RectVec(RectVecLayout),
    Rect(DirtyRect),
    Readable(bool),
    /// The memory could not be read.
    Unreadable,
}

/// The inputs of a present, read from dwmcore's objects.
#[derive(Debug, Clone, PartialEq, Eq)]
pub struct PresentInputs {
    pub monitor_identity: Option<MonitorIdentity>,
    pub clip_box: ClipBox,
    pub dirty_rects: Vec<DirtyRect>,
    pub hardware_protected: bool,
}

/// How far collecting present inputs has come.
#[derive(Debug, Clone, Copy, PartialEq, Eq, Structural)]
pub enum ReaderStage {
    HardwareProtected,
    StateObject,
    ClipOrigin,
    LuidLow,
    LuidHigh,
    TargetId,
    RectVec,
    RangeCheck,
    Rects,
    Finished,
}

/// The state of a present input collection.
pub struct ReaderView {
    pub this: usize,
    pub overlay_swap_chain: usize,
    pub rect_vec: usize,
    pub hypotheses: ProfileHypotheses,
    pub stage: ReaderStage,
    pub pending: Option<MemoryRead>,
    pub hardware_protected: bool,
    pub clip_box: ClipBox,
    pub luid_low: u32,
    pub luid_high: i32,
    pub monitor_identity: Option<MonitorIdentity>,
    pub rect_start: usize,
    pub rect_count: usize,
    pub dirty_rects: Seq<DirtyRect>,
    pub error: Option<PresentInputError>,
}

/// `v` ended, with `error` if one is given.
pub open spec fn reader_finished(v: ReaderView, error: Option<PresentInputError>) -> ReaderView {
    ReaderView { stage: ReaderStage::Finished, pending: None, error, ..v }
}

/// `v` waiting at `stage` for the read at `offset` past `base`, or ended
/// with unreadable memory where that address overflows.
pub open spec fn reader_await(
    v: ReaderView,
    stage: ReaderStage,
    base: usize,
    offset: usize,
    read: spec_fn(usize) -> MemoryRead,
) -> ReaderView {
    match offset_address(base, offset) {
        Some(a) => ReaderView { stage, pending: Some(read(a)), ..v },
        None => reader_finished(v, Some(PresentInputError::UnreadableMemory)),
    }
}

/// The state where the rectangle vector is read next; a null vector is invalid.
pub open spec fn reader_enter_rect_vec(v: ReaderView) -> ReaderView {
    if v.rect_vec == 0 {
        reader_finished(v, Some(PresentInputError::InvalidDirtyRectVector))
    } else {
        ReaderView {
            stage: ReaderStage::RectVec,
            pending: Some(MemoryRead::RectVec { address: v.rect_vec }),
            ..v
        }
    }
}

/// The state where a part of the monitor identity at `offset` is read next;
/// where its address overflows, the identity is left unknown.
pub open spec fn reader_enter_identity_part(
    v: ReaderView,
    stage: ReaderStage,
    offset: usize,
    read: spec_fn(usize) -> MemoryRead,
) -> ReaderView {
    match offset_address(v.overlay_swap_chain, offset) {
        Some(a) => ReaderView { stage, pending: Some(read(a)), ..v },
        None => reader_enter_rect_vec(v),
    }
}

/// The state where the next rectangle is read, or the collection ends once
/// all of them were read.
pub open spec fn reader_enter_rect(v: ReaderView) -> ReaderView {
    if v.dirty_rects.len() >= v.rect_count {
        reader_finished(v, None)
    } else {
        reader_await(
            v,
            ReaderStage::Rects,
            v.rect_start,
            (v.dirty_rects.len() * DIRTY_RECT_SIZE) as usize,
            |a: usize| MemoryRead::Rect { address: a },
        )
    }
}

/// The first state of a collection: a null overlay swap chain ends it at
/// once; else the hardware-protected flag is read first.
pub open spec fn reader_start(
    this: usize,
    overlay_swap_chain: usize,
    rect_vec: usize,
    hypotheses: ProfileHypotheses,
) -> ReaderView {
    let v = ReaderView {
        this,
        overlay_swap_chain,
        rect_vec,
        hypotheses,
        stage: ReaderStage::HardwareProtected,
        pending: None,
        hardware_protected: false,
        clip_box: ClipBox { left: 0, top: 0, right: 0, bottom: 0 },
        luid_low: 0,
        luid_high: 0,
        monitor_identity: None,
        rect_start: 0,
        rect_count: 0,
        dirty_rects: Seq::empty(),
        error: None,
    };
    if overlay_swap_chain == 0 {
        reader_finished(v, Some(PresentInputError::NullOverlaySwapChain))
    } else {
        reader_await(
            v,
            ReaderStage::HardwareProtected,
            overlay_swap_chain,
            hypotheses.hardware_protected.offset,
            |a: usize| MemoryRead::Byte { address: a },
        )
    }
}

/// The state after the pending read of `v` gave `value`. A value that cannot
/// be read ends the collection with unreadable memory, except for the parts
/// of the monitor identity, which then stays unknown.
pub open spec fn reader_after(v: ReaderView, value: MemoryValue) -> ReaderView {
    let unreadable = reader_finished(v, Some(PresentInputError::UnreadableMemory));
    match v.stage {
        ReaderStage::HardwareProtected => match value {
            MemoryValue::Byte(b) => reader_await(
                ReaderView { hardware_protected: b != 0, ..v },
                ReaderStage::StateObject,
                v.this,
                v.hypotheses.clip_box.context_state_pointer_offset,
                |a: usize| MemoryRead::Word { address: a },
            ),
            _ => unreadable,
        },
        ReaderStage::StateObject => match value {
            MemoryValue::Word(object) => if object == 0 {
                reader_finished(v, Some(PresentInputError::NullContextState))
            } else {
                reader_await(
                    v,
                    ReaderStage::ClipOrigin,
                    object,
                    v.hypotheses.clip_box.offset,
                    |a: usize| MemoryRead::Point { address: a },
                )
            },
            _ => unreadable,
        },
        ReaderStage::ClipOrigin => match value {
            MemoryValue::Point(x, y) => reader_enter_identity_part(
                ReaderView { clip_box: ClipBox { left: x, top: y, right: x, bottom: y }, ..v },
                ReaderStage::LuidLow,
                OVERLAY_SWAP_CHAIN_ADAPTER_LUID_LOW_OFFSET,
                |a: usize| MemoryRead::U32 { address: a },
            ),
            _ => unreadable,
        },
        ReaderStage::LuidLow => match value {
            MemoryValue::U32(low) => reader_enter_identity_part(
                ReaderView { luid_low: low, ..v },
                ReaderStage::LuidHigh,
                OVERLAY_SWAP_CHAIN_ADAPTER_LUID_HIGH_OFFSET,
                |a: usize| MemoryRead::I32 { address: a },
            ),
            _ => reader_enter_rect_vec(v),
        },
        ReaderStage::LuidHigh => match value {
            MemoryValue::I32(high) => reader_enter_identity_part(
                ReaderView { luid_high: high, ..v },
                ReaderStage::TargetId,
                OVERLAY_SWAP_CHAIN_TARGET_ID_OFFSET,
                |a: usize| MemoryRead::U32 { address: a },
            ),
            _ => reader_enter_rect_vec(v),
        },
        ReaderStage::TargetId => match value {
            MemoryValue::U32(target_id) => reader_enter_rect_vec(
                ReaderView {
                    monitor_identity: Some(
                        MonitorIdentity {
                            adapter_luid: AdapterLuid { high_part: v.luid_high, low_part: v.luid_low },
                            target_id,
                        },
                    ),
                    ..v
                },
            ),
            _ => reader_enter_rect_vec(v),
        },
        ReaderStage::RectVec => match value {
            MemoryValue::RectVec(layout) => match rect_span(layout) {
                Err(e) => reader_finished(v, Some(e)),
                Ok((start, count)) => if count == 0 {
                    reader_finished(ReaderView { rect_start: start, rect_count: count, ..v }, None)
                } else {
                    ReaderView {
                        stage: ReaderStage::RangeCheck,
                        pending: Some(
                            MemoryRead::CheckReadable {
                                address: start,
                                size: (count * DIRTY_RECT_SIZE) as usize,
                            },
                        ),
                        rect_start: start,
                        rect_count: count,
                        ..v
                    }
                },
            },
            _ => unreadable,
        },
        ReaderStage::RangeCheck => match value {
            MemoryValue::Readable(true) => reader_enter_rect(v),
            _ => unreadable,
        },
        ReaderStage::Rects => match value {
            MemoryValue::Rect(r) => reader_enter_rect(
                ReaderView { dirty_rects: v.dirty_rects.push(r), ..v },
            ),
            _ => unreadable,
        },
        ReaderStage::Finished => v,
    }
}

/// Rectangles are read one after the other from the validated vector: the
/// next one is read at the start plus the size of those already read, and
/// only while fewer than the vector's count were read.
pub proof fn lemma_rect_reads_follow_the_vector(v: ReaderView)
    requires
        v.rect_count <= MAX_DIRTY_RECTS,
    ensures
        ({
            let next = reader_enter_rect(v);
            &&& next.pending matches Some(MemoryRead::Rect { address }) ==> v.dirty_rects.len()
                < v.rect_count && address == v.rect_start + v.dirty_rects.len() * DIRTY_RECT_SIZE
            &&& v.dirty_rects.len() >= v.rect_count ==> next.stage is Finished && next.error is None
        }),
{
}

/// A vector that is accepted holds whole, aligned rectangles between its
/// start and end, at most `MAX_DIRTY_RECTS` of them, within its capacity.
pub proof fn lemma_accepted_rect_vector_is_well_formed(v: RectVecLayout)
    requires
        rect_span(v) is Ok,
        !(v.start == 0 && v.end == 0 && v.capacity_end == 0),
    ensures
        ({
            let (start, count) = rect_span(v).unwrap();
            &&& start == v.start && start != 0 && start % DIRTY_RECT_ALIGN == 0
            &&& start + count * DIRTY_RECT_SIZE == v.end
            &&& v.end <= v.capacity_end
            &&& count <= MAX_DIRTY_RECTS
        }),
{
}

/// Collects the inputs of a present from dwmcore's objects, one memory read
/// at a time: the caller performs each read that `next_read` names and hands
/// what it gave to `supply`.
pub struct PresentInputReader {
    this: usize,
    overlay_swap_chain: usize,
    rect_vec: usize,
    hypotheses: ProfileHypotheses,
    stage: ReaderStage,
    pending: Option<MemoryRead>,
    hardware_protected: bool,
    clip_box: ClipBox,
    luid_low: u32,
    luid_high: i32,
    monitor_identity: Option<MonitorIdentity>,
    rect_start: usize,
    rect_count: usize,
    dirty_rects: Vec<DirtyRect>,
    error: Option<PresentInputError>,
}

impl PresentInputReader {
    pub closed spec fn view(&self) -> ReaderView {
        ReaderView {
            this: self.this,
            overlay_swap_chain: self.overlay_swap_chain,
            rect_vec: self.rect_vec,
            hypotheses: self.hypotheses,
            stage: self.stage,
            pending: self.pending,
            hardware_protected: self.hardware_protected,
            clip_box: self.clip_box,
            luid_low: self.luid_low,
            luid_high: self.luid_high,
            monitor_identity: self.monitor_identity,
            rect_start: self.rect_start,
            rect_count: self.rect_count,
            dirty_rects: self.dirty_rects@,
            error: self.error,
        }
    }

    #[verifier::type_invariant]
    spec fn well_formed(&self) -> bool {
        &&& self.dirty_rects@.len() <= self.rect_count
        &&& self.rect_count <= MAX_DIRTY_RECTS
        &&& self.stage is Rects ==> self.dirty_rects@.len() < self.rect_count
        &&& !(self.stage is Rects || self.stage is Finished) ==> self.dirty_rects@.len() == 0
    }

    fn finish_with(&mut self, error: Option<PresentInputError>)
        ensures
            final(self)@ == reader_finished(old(self)@, error),
    {
        proof {
            use_type_invariant(&*self);
        }
        self.stage = ReaderStage::Finished;
        self.pending = None;
        self.error = error;
    }

    /// Begins collecting the inputs of a present of context `this` on
    /// `overlay_swap_chain` with the dirty-rectangle vector at `rect_vec`.
    pub fn new(
        this: usize,
        overlay_swap_chain: usize,
        rect_vec: usize,
        hypotheses: ProfileHypotheses,
    ) -> (r: PresentInputReader)
        ensures
            r@ == reader_start(this, overlay_swap_chain, rect_vec, hypotheses),
    {
        let mut r = PresentInputReader {
            this,
            overlay_swap_chain,
            rect_vec,
            hypotheses,
            stage: ReaderStage::HardwareProtected,
            pending: None,
            hardware_protected: false,
            clip_box: ClipBox { left: 0, top: 0, right: 0, bottom: 0 },
            luid_low: 0,
            luid_high: 0,
            monitor_identity: None,
            rect_start: 0,
            rect_count: 0,
            dirty_rects: Vec::new(),
            error: None,
        };
        if overlay_swap_chain == 0 {
            r.finish_with(Some(PresentInputError::NullOverlaySwapChain));
        } else {
            match overlay_swap_chain.checked_add(hypotheses.hardware_protected.offset) {
                Some(a) => {
                    r.pending = Some(MemoryRead::Byte { address: a });
                },
                None => r.finish_with(Some(PresentInputError::UnreadableMemory)),
            }
        }
        proof {
            assert(r@ =~= reader_start(this, overlay_swap_chain, rect_vec, hypotheses));
        }
        r
    }

    /// The read to perform next, or `None` once the collection is over. No
    /// more than `MAX_DIRTY_RECTS` rectangles are ever read.
    pub fn next_read(&self) -> (r: Option<MemoryRead>)
        ensures
            r == self@.pending,
            self@.dirty_rects.len() <= self@.rect_count <= MAX_DIRTY_RECTS,
    {
        proof {
            use_type_invariant(self);
        }
        self.pending
    }

    fn enter_rect_vec(&mut self)
        requires
            old(self).dirty_rects@.len() == 0,
        ensures
            final(self)@ == reader_enter_rect_vec(old(self)@),
    {
        proof {
            use_type_invariant(&*self);
        }
        if self.rect_vec == 0 {
            self.finish_with(Some(PresentInputError::InvalidDirtyRectVector));
        } else {
            self.stage = ReaderStage::RectVec;
            self.pending = Some(MemoryRead::RectVec { address: self.rect_vec });
        }
    }

    fn enter_rect_with(&mut self, rects: Vec<DirtyRect>)
        requires
            old(self).dirty_rects@.len() == 0,
            rects@.len() <= old(self).rect_count,
        ensures
            final(self)@ == reader_enter_rect(ReaderView { dirty_rects: rects@, ..old(self)@ }),
    {
        proof {
            use_type_invariant(&*self);
        }
        let read = rects.len();
        if read >= self.rect_count {
            self.finish_with(None);
        } else {
            let offset = read * DIRTY_RECT_SIZE;
            match self.rect_start.checked_add(offset) {
                Some(a) => {
                    self.stage = ReaderStage::Rects;
                    self.pending = Some(MemoryRead::Rect { address: a });
                },
                None => self.finish_with(Some(PresentInputError::UnreadableMemory)),
            }
        }
        self.dirty_rects = rects;
    }

    /// Takes in what the read named by `next_read` gave.
    pub fn supply(&mut self, value: MemoryValue)
        ensures
            final(self)@ == reader_after(old(self)@, value),
    {
        proof {
            use_type_invariant(&*self);
        }
        match self.stage {
            ReaderStage::HardwareProtected => match value {
                MemoryValue::Byte(b) => {
                    self.hardware_protected = b != 0;
                    match self.this.checked_add(
                        self.hypotheses.clip_box.context_state_pointer_offset,
                    ) {
                        Some(a) => {
                            self.stage = ReaderStage::StateObject;
                            self.pending = Some(MemoryRead::Word { address: a });
                        },
                        None => self.finish_with(Some(PresentInputError::UnreadableMemory)),
                    }
                },
                _ => self.finish_with(Some(PresentInputError::UnreadableMemory)),
            },
            ReaderStage::StateObject => match value {
                MemoryValue::Word(object) => {
                    if object == 0 {
                        self.finish_with(Some(PresentInputError::NullContextState));
                    } else {
                        match object.checked_add(self.hypotheses.clip_box.offset) {
                            Some(a) => {
                                self.stage = ReaderStage::ClipOrigin;
                                self.pending = Some(MemoryRead::Point { address: a });
                            },
                            None => self.finish_with(Some(PresentInputError::UnreadableMemory)),
                        }
                    }
                },
                _ => self.finish_with(Some(PresentInputError::UnreadableMemory)),
            },
            ReaderStage::ClipOrigin => match value {
                MemoryValue::Point(x, y) => {
                    self.clip_box = ClipBox { left: x, top: y, right: x, bottom: y };
                    match self.overlay_swap_chain.checked_add(
                        OVERLAY_SWAP_CHAIN_ADAPTER_LUID_LOW_OFFSET,
                    ) {
                        Some(a) => {
                            self.stage = ReaderStage::LuidLow;
                            self.pending = Some(MemoryRead::U32 { address: a });
                        },
                        None => self.enter_rect_vec(),
                    }
                },
                _ => self.finish_with(Some(PresentInputError::UnreadableMemory)),
            },
            ReaderStage::LuidLow => match value {
                MemoryValue::U32(low) => {
                    self.luid_low = low;
                    match self.overlay_swap_chain.checked_add(
                        OVERLAY_SWAP_CHAIN_ADAPTER_LUID_HIGH_OFFSET,
                    ) {
                        Some(a) => {
                            self.stage = ReaderStage::LuidHigh;
                            self.pending = Some(MemoryRead::I32 { address: a });
                        },
                        None => self.enter_rect_vec(),
                    }
                },
                _ => self.enter_rect_vec(),
            },
            ReaderStage::LuidHigh => match value {
                MemoryValue::I32(high) => {
                    self.luid_high = high;
                    match self.overlay_swap_chain.checked_add(OVERLAY_SWAP_CHAIN_TARGET_ID_OFFSET) {
                        Some(a) => {
                            self.stage = ReaderStage::TargetId;
                            self.pending = Some(MemoryRead::U32 { address: a });
                        },
                        None => self.enter_rect_vec(),
                    }
                },
                _ => self.enter_rect_vec(),
            },
            ReaderStage::TargetId => match value {
                MemoryValue::U32(target_id) => {
                    self.monitor_identity = Some(
                        MonitorIdentity {
                            adapter_luid: AdapterLuid {
                                high_part: self.luid_high,
                                low_part: self.luid_low,
                            },
                            target_id,
                        },
                    );
                    self.enter_rect_vec();
                },
                _ => self.enter_rect_vec(),
            },
            ReaderStage::RectVec => match value {
                MemoryValue::RectVec(layout) => match dirty_rect_span(layout) {
                    Err(e) => self.finish_with(Some(e)),
                    Ok((start, count)) => {
                        self.rect_start = start;
                        self.rect_count = count;
                        if count == 0 {
                            self.finish_with(None);
                        } else {
                            self.stage = ReaderStage::RangeCheck;
                            self.pending = Some(
                                MemoryRead::CheckReadable {
                                    address: start,
                                    size: count * DIRTY_RECT_SIZE,
                                },
                            );
                        }
                    },
                },
                _ => self.finish_with(Some(PresentInputError::UnreadableMemory)),
            },
            ReaderStage::RangeCheck => match value {
                MemoryValue::Readable(true) => {
                    let mut rects: Vec<DirtyRect> = Vec::new();
                    std::mem::swap(&mut rects, &mut self.dirty_rects);
                    self.enter_rect_with(rects);
                },
                _ => self.finish_with(Some(PresentInputError::UnreadableMemory)),
            },
            ReaderStage::Rects => match value {
                MemoryValue::Rect(r) => {
                    let mut rects: Vec<DirtyRect> = Vec::new();
                    std::mem::swap(&mut rects, &mut self.dirty_rects);
                    rects.push(r);
                    self.enter_rect_with(rects);
                },
                _ => self.finish_with(Some(PresentInputError::UnreadableMemory)),
            },
            ReaderStage::Finished => {},
        }
        proof {
            assert(self@ =~= reader_after(old(self)@, value));
        }
    }

    /// The inputs, or why they could not be read; `None` while reads are
    /// still needed.
    pub fn finish(self) -> (r: Option<Result<PresentInputs, PresentInputError>>)
        ensures
            !(self@.stage is Finished) ==> r is None,
            self@.stage is Finished ==> match r {
                Some(Ok(inputs)) => self@.error is None && inputs.monitor_identity
                    == self@.monitor_identity && inputs.clip_box == self@.clip_box
                    && inputs.dirty_rects@ == self@.dirty_rects && inputs.hardware_protected
                    == self@.hardware_protected,
                Some(Err(e)) => self@.error == Some(e),
                None => false,
            },
    {
        match self.stage {
            ReaderStage::Finished => {},
            _ => return None,
        }
        match self.error {
            Some(e) => Some(Err(e)),
            None => Some(
                Ok(
                    PresentInputs {
                        monitor_identity: self.monitor_identity,
                        clip_box: self.clip_box,
                        dirty_rects: self.dirty_rects,
                        hardware_protected: self.hardware_protected,
                    },
                ),
            ),
        }
    }
}

} // verus!
