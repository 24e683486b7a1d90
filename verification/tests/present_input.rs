use dwm_lut::config::{AdapterLuid, MonitorIdentity};
use dwm_lut::lut_pipeline::{ClipBox, DirtyRect};
use dwm_lut::present_input::{
    checked_address, dirty_rect_span, is_readable_memory_region, readable_range_last_byte,
    walk_readable_range, MemoryRead, MemoryRegion, MemoryValue, PresentInputError, PresentInputReader,
    PresentInputs, RangeWalk, RectVecLayout, MAX_DIRTY_RECTS, MEM_COMMIT, PAGE_EXECUTE, PAGE_GUARD,
    PAGE_READONLY, PAGE_READWRITE, OVERLAY_SWAP_CHAIN_ADAPTER_LUID_HIGH_OFFSET,
    OVERLAY_SWAP_CHAIN_ADAPTER_LUID_LOW_OFFSET, OVERLAY_SWAP_CHAIN_TARGET_ID_OFFSET,
};
use dwm_lut::present_input::{
    is_writable_memory_region, PAGE_EXECUTE_READ, PAGE_EXECUTE_READWRITE, PAGE_EXECUTE_WRITECOPY,
    PAGE_WRITABLE_RIGHTS, PAGE_WRITECOPY,
};
use dwm_lut::profile::{BuildProfile, HookProfile, ProfileHypotheses};

const CONTEXT: usize = 0x10_0000;
const STATE_OBJECT: usize = 0x20_0000;
const OVERLAY_SWAP_CHAIN: usize = 0x30_0000;
const RECT_VEC: usize = 0x40_0000;
const RECTS: usize = 0x50_0000;

fn hypotheses() -> ProfileHypotheses {
    HookProfile::for_build(BuildProfile::Windows11_25H2).hypotheses
}

fn test_monitor_identity() -> MonitorIdentity {
    MonitorIdentity { adapter_luid: AdapterLuid { high_part: 0, low_part: 0x14e02 }, target_id: 4357 }
}

/// dwmcore's objects as the tests lay them out in a pretend address space.
struct FakePresentObjects {
    clip_box: ClipBox,
    dirty_rects: Vec<DirtyRect>,
    hardware_protected: bool,
    rect_vec: RectVecLayout,
    identity_readable: bool,
}

impl FakePresentObjects {
    fn new(clip_box: ClipBox, dirty_rects: Vec<DirtyRect>, hardware_protected: bool) -> Self {
        let rect_vec = if dirty_rects.is_empty() {
            RectVecLayout { start: 0, end: 0, capacity_end: 0 }
        } else {
            RectVecLayout {
                start: RECTS,
                end: RECTS + 16 * dirty_rects.len(),
                capacity_end: RECTS + 16 * dirty_rects.len(),
            }
        };
        FakePresentObjects { clip_box, dirty_rects, hardware_protected, rect_vec, identity_readable: true }
    }

    fn read(&self, read: MemoryRead) -> MemoryValue {
        let h = hypotheses();
        match read {
            MemoryRead::Byte { address } if address == OVERLAY_SWAP_CHAIN + h.hardware_protected.offset => {
                MemoryValue::Byte(u8::from(self.hardware_protected))
            }
            MemoryRead::Word { address } if address == CONTEXT + h.clip_box.context_state_pointer_offset => {
                MemoryValue::Word(STATE_OBJECT)
            }
            MemoryRead::Point { address } if address == STATE_OBJECT + h.clip_box.offset => {
                MemoryValue::Point(self.clip_box.left, self.clip_box.top)
            }
            MemoryRead::U32 { address }
                if self.identity_readable
                    && address == OVERLAY_SWAP_CHAIN + OVERLAY_SWAP_CHAIN_ADAPTER_LUID_LOW_OFFSET =>
            {
                MemoryValue::U32(test_monitor_identity().adapter_luid.low_part)
            }
            MemoryRead::I32 { address }
                if address == OVERLAY_SWAP_CHAIN + OVERLAY_SWAP_CHAIN_ADAPTER_LUID_HIGH_OFFSET =>
            {
                MemoryValue::I32(test_monitor_identity().adapter_luid.high_part)
            }
            MemoryRead::U32 { address }
                if address == OVERLAY_SWAP_CHAIN + OVERLAY_SWAP_CHAIN_TARGET_ID_OFFSET =>
            {
                MemoryValue::U32(test_monitor_identity().target_id)
            }
            MemoryRead::RectVec { address } if address == RECT_VEC => MemoryValue::RectVec(self.rect_vec),
            MemoryRead::CheckReadable { address, size } => {
                MemoryValue::Readable(address == RECTS && size <= 16 * self.dirty_rects.len())
            }
            MemoryRead::Rect { address } if address >= RECTS && (address - RECTS) % 16 == 0 => {
                match self.dirty_rects.get((address - RECTS) / 16) {
                    Some(rect) => MemoryValue::Rect(*rect),
                    None => MemoryValue::Unreadable,
                }
            }
            _ => MemoryValue::Unreadable,
        }
    }

    fn collect(&self, context: usize, overlay_swap_chain: usize, rect_vec: usize) -> Result<PresentInputs, PresentInputError> {
        let mut reader = PresentInputReader::new(context, overlay_swap_chain, rect_vec, hypotheses());
        while let Some(read) = reader.next_read() {
            reader.supply(self.read(read));
        }
        reader.finish().expect("collection is over")
    }
}

fn confirmed_inputs_fixture(hardware_protected: bool) -> FakePresentObjects {
    FakePresentObjects::new(
        ClipBox { left: 120, top: 80, right: 1920, bottom: 1080 },
        vec![DirtyRect { left: 10, top: 20, right: 30, bottom: 40 }],
        hardware_protected,
    )
}

fn check_reads_confirmed_inputs(hardware_protected: bool) {
    let fake = confirmed_inputs_fixture(hardware_protected);
    let inputs = fake.collect(CONTEXT, OVERLAY_SWAP_CHAIN, RECT_VEC).expect("present inputs should be collected");
    assert_eq!(inputs.clip_box.left, 120);
    assert_eq!(inputs.clip_box.top, 80);
    assert_eq!(inputs.monitor_identity, Some(test_monitor_identity()));
    assert_eq!(inputs.dirty_rects, fake.dirty_rects);
    assert_eq!(inputs.hardware_protected, hardware_protected);
}

fn check_rejects_vector_past_capacity() {
    let layout = RectVecLayout { start: RECTS, end: RECTS + 16, capacity_end: RECTS };
    assert_eq!(dirty_rect_span(layout), Err(PresentInputError::InvalidDirtyRectVector));
}

fn check_rejects_misaligned_vector() {
    let start = 0x1000 + 1;
    let layout = RectVecLayout { start, end: start + 16, capacity_end: start + 16 };
    assert_eq!(dirty_rect_span(layout), Err(PresentInputError::InvalidDirtyRectVector));
}

fn check_null_dirty_rect_vector() {
    let fake = confirmed_inputs_fixture(false);
    assert_eq!(
        fake.collect(CONTEXT, OVERLAY_SWAP_CHAIN, 0),
        Err(PresentInputError::InvalidDirtyRectVector)
    );
}

fn check_region_readability() {
    let readable = MemoryRegion { base_address: 0, region_size: 4096, state: MEM_COMMIT, protect: PAGE_READONLY };
    let execute_only = MemoryRegion { protect: PAGE_EXECUTE, ..readable };
    let guarded = MemoryRegion { protect: PAGE_READWRITE | PAGE_GUARD, ..readable };
    assert!(is_readable_memory_region(&readable));
    assert!(!is_readable_memory_region(&execute_only));
    assert!(!is_readable_memory_region(&guarded));
}

#[test]
fn minhook_pointer_addition_overflow_is_not_treated_as_readable_memory() {
    let error = checked_address(usize::MAX, 1).expect_err("overflowed address should be rejected");
    assert_eq!(error, PresentInputError::UnreadableMemory);
}

#[test]
fn present_pointer_addition_overflow_is_not_treated_as_readable_memory() {
    let error = checked_address(usize::MAX, 1).expect_err("overflowed address should be rejected");
    assert_eq!(error, PresentInputError::UnreadableMemory);
}

#[test]
fn collect_null_dirty_rect_vector_is_invalid_present_input() {
    check_null_dirty_rect_vector();
}

#[test]
fn minhook_null_dirty_rect_vector_is_invalid_present_input() {
    check_null_dirty_rect_vector();
}

#[test]
fn present_null_dirty_rect_vector_is_invalid_present_input() {
    check_null_dirty_rect_vector();
}

#[test]
fn minhook_memory_region_readability_requires_read_protection() {
    check_region_readability();
}

#[test]
fn present_memory_region_readability_requires_read_protection() {
    check_region_readability();
}

#[test]
fn minhook_present_input_collection_rejects_dirty_rect_vector_past_capacity() {
    check_rejects_vector_past_capacity();
}

#[test]
fn present_present_input_collection_rejects_dirty_rect_vector_past_capacity() {
    check_rejects_vector_past_capacity();
}

#[test]
fn minhook_present_input_collection_rejects_misaligned_dirty_rect_vector() {
    check_rejects_misaligned_vector();
}

#[test]
fn present_present_input_collection_rejects_misaligned_dirty_rect_vector() {
    check_rejects_misaligned_vector();
}

#[test]
fn collect_present_input_collection_reads_confirmed_inputs_without_swap_chain_accessor() {
    check_reads_confirmed_inputs(false);
}

#[test]
fn present_present_input_collection_reads_confirmed_inputs_without_swap_chain_accessor() {
    check_reads_confirmed_inputs(false);
}

#[test]
fn collect_present_input_collection_reads_confirmed_inputs_when_hardware_protected() {
    check_reads_confirmed_inputs(true);
}

#[test]
fn present_present_input_collection_reads_confirmed_inputs_when_hardware_protected() {
    check_reads_confirmed_inputs(true);
}

#[test]
fn monitor_identity_offsets_match_overlay_swap_chain_fixture() {
    assert_eq!(OVERLAY_SWAP_CHAIN_ADAPTER_LUID_LOW_OFFSET, 0x34);
    assert_eq!(OVERLAY_SWAP_CHAIN_ADAPTER_LUID_HIGH_OFFSET, 0x38);
    assert_eq!(OVERLAY_SWAP_CHAIN_TARGET_ID_OFFSET, 0x3c);
    let fake = FakePresentObjects::new(ClipBox { left: 0, top: 0, right: 1920, bottom: 1080 }, Vec::new(), false);
    let inputs = fake.collect(CONTEXT, OVERLAY_SWAP_CHAIN, RECT_VEC).expect("inputs");
    assert_eq!(inputs.monitor_identity, Some(test_monitor_identity()));
    assert!(inputs.dirty_rects.is_empty());
}

#[test]
fn unreadable_monitor_identity_is_left_unknown() {
    let mut fake = confirmed_inputs_fixture(false);
    fake.identity_readable = false;
    let inputs = fake.collect(CONTEXT, OVERLAY_SWAP_CHAIN, RECT_VEC).expect("inputs");
    assert_eq!(inputs.monitor_identity, None);
    assert_eq!(inputs.dirty_rects.len(), 1);
}

#[test]
fn null_overlay_swap_chain_fails_before_any_read() {
    let reader = PresentInputReader::new(CONTEXT, 0, RECT_VEC, hypotheses());
    assert_eq!(reader.next_read(), None);
    assert_eq!(reader.finish(), Some(Err(PresentInputError::NullOverlaySwapChain)));
}

#[test]
fn null_context_state_is_reported() {
    let mut reader = PresentInputReader::new(CONTEXT, OVERLAY_SWAP_CHAIN, RECT_VEC, hypotheses());
    assert!(matches!(reader.next_read(), Some(MemoryRead::Byte { .. })));
    reader.supply(MemoryValue::Byte(0));
    assert!(matches!(reader.next_read(), Some(MemoryRead::Word { .. })));
    reader.supply(MemoryValue::Word(0));
    assert_eq!(reader.finish(), Some(Err(PresentInputError::NullContextState)));
}

#[test]
fn unreadable_rectangles_are_reported() {
    let fake = confirmed_inputs_fixture(false);
    let mut reader = PresentInputReader::new(CONTEXT, OVERLAY_SWAP_CHAIN, RECT_VEC, hypotheses());
    while let Some(read) = reader.next_read() {
        let value = match read {
            MemoryRead::CheckReadable { .. } => MemoryValue::Readable(false),
            other => fake.read(other),
        };
        reader.supply(value);
    }
    assert_eq!(reader.finish(), Some(Err(PresentInputError::UnreadableMemory)));
}

#[test]
fn dirty_rect_vectors_are_measured_in_whole_rectangles() {
    assert_eq!(dirty_rect_span(RectVecLayout { start: 0, end: 0, capacity_end: 0 }), Ok((0, 0)));
    assert_eq!(
        dirty_rect_span(RectVecLayout { start: 0x1000, end: 0x1020, capacity_end: 0x1040 }),
        Ok((0x1000, 2))
    );
    assert_eq!(
        dirty_rect_span(RectVecLayout { start: 0x1000, end: 0x1018, capacity_end: 0x1040 }),
        Err(PresentInputError::InvalidDirtyRectVector)
    );
    let too_many = 0x1000 + 16 * (MAX_DIRTY_RECTS + 1);
    assert_eq!(
        dirty_rect_span(RectVecLayout { start: 0x1000, end: too_many, capacity_end: too_many }),
        Err(PresentInputError::InvalidDirtyRectVector)
    );
    assert_eq!(
        dirty_rect_span(RectVecLayout { start: 0, end: 0x10, capacity_end: 0x10 }),
        Err(PresentInputError::InvalidDirtyRectVector)
    );
}

#[test]
fn readable_ranges_walk_region_by_region() {
    assert_eq!(readable_range_last_byte(0, 4), None);
    assert_eq!(readable_range_last_byte(0x1000, 0), None);
    assert_eq!(readable_range_last_byte(usize::MAX, 2), None);
    assert_eq!(readable_range_last_byte(0x1000, 0x20), Some(0x101f));

    let first = MemoryRegion { base_address: 0x1000, region_size: 0x1000, state: MEM_COMMIT, protect: PAGE_READWRITE };
    assert_eq!(walk_readable_range(0x1800, 0x2800, Some(first)), RangeWalk::Continue(0x2000));
    let second = MemoryRegion { base_address: 0x2000, ..first };
    assert_eq!(walk_readable_range(0x2000, 0x2800, Some(second)), RangeWalk::Readable);
    assert_eq!(walk_readable_range(0x2000, 0x2800, None), RangeWalk::Unreadable);
    let guarded = MemoryRegion { protect: PAGE_READWRITE | PAGE_GUARD, ..second };
    assert_eq!(walk_readable_range(0x2000, 0x2800, Some(guarded)), RangeWalk::Unreadable);
}

#[test]
fn writable_region_needs_commit_write_access_and_no_guard() {
    let region = |state: u32, protect: u32| MemoryRegion { base_address: 0x1000, region_size: 0x1000, state, protect };
    assert_eq!(
        PAGE_WRITABLE_RIGHTS,
        PAGE_READWRITE | PAGE_WRITECOPY | PAGE_EXECUTE_READWRITE | PAGE_EXECUTE_WRITECOPY
    );
    assert!(is_writable_memory_region(&region(MEM_COMMIT, PAGE_READWRITE)));
    assert!(is_writable_memory_region(&region(MEM_COMMIT, PAGE_WRITECOPY)));
    assert!(is_writable_memory_region(&region(MEM_COMMIT, PAGE_EXECUTE_READWRITE)));
    assert!(is_writable_memory_region(&region(MEM_COMMIT, PAGE_EXECUTE_WRITECOPY)));
    assert!(!is_writable_memory_region(&region(MEM_COMMIT, PAGE_READONLY)));
    assert!(!is_writable_memory_region(&region(MEM_COMMIT, PAGE_EXECUTE_READ)));
    assert!(!is_writable_memory_region(&region(MEM_COMMIT, PAGE_READWRITE | PAGE_GUARD)));
    assert!(!is_writable_memory_region(&region(0x2000, PAGE_READWRITE)));
}

#[test]
fn read_monitor_identity_reads_profile_offsets() {
    let fake = confirmed_inputs_fixture(false);
    let inputs = fake.collect(CONTEXT, OVERLAY_SWAP_CHAIN, RECT_VEC).expect("inputs");
    assert_eq!(inputs.monitor_identity, Some(test_monitor_identity()));
}

#[test]
fn read_hardware_protected_reads_profile_offset() {
    let fake = confirmed_inputs_fixture(true);
    let inputs = fake.collect(CONTEXT, OVERLAY_SWAP_CHAIN, RECT_VEC).expect("inputs");
    assert!(inputs.hardware_protected);
}

#[test]
fn read_monitor_identity_rejects_offset_overflow() {
    assert_eq!(checked_address(1, usize::MAX), Err(PresentInputError::UnreadableMemory));
    // An overlay swap chain at the very end of the address space fails at
    // its first field instead of wrapping around.
    let reader = PresentInputReader::new(CONTEXT, usize::MAX, RECT_VEC, hypotheses());
    assert_eq!(reader.next_read(), None);
    assert_eq!(reader.finish(), Some(Err(PresentInputError::UnreadableMemory)));
}

#[test]
fn dirty_rects_reject_vector_past_capacity() {
    check_rejects_vector_past_capacity();
}

#[test]
fn dirty_rects_reject_misaligned_vector() {
    check_rejects_misaligned_vector();
}

#[test]
fn dirty_rects_report_unreadable_vector_memory() {
    let fake = confirmed_inputs_fixture(false);
    let mut reader = PresentInputReader::new(CONTEXT, OVERLAY_SWAP_CHAIN, RECT_VEC, hypotheses());
    while let Some(read) = reader.next_read() {
        let value = match read {
            MemoryRead::RectVec { .. } => MemoryValue::Unreadable,
            other => fake.read(other),
        };
        reader.supply(value);
    }
    assert_eq!(reader.finish(), Some(Err(PresentInputError::UnreadableMemory)));
}

#[test]
fn dirty_rects_report_unreadable_element_memory() {
    let fake = confirmed_inputs_fixture(false);
    let mut reader = PresentInputReader::new(CONTEXT, OVERLAY_SWAP_CHAIN, RECT_VEC, hypotheses());
    while let Some(read) = reader.next_read() {
        let value = match read {
            MemoryRead::Rect { .. } => MemoryValue::Unreadable,
            other => fake.read(other),
        };
        reader.supply(value);
    }
    assert_eq!(reader.finish(), Some(Err(PresentInputError::UnreadableMemory)));
}

#[test]
fn reads_confirmed_inputs() {
    check_reads_confirmed_inputs(false);
}

#[test]
fn rejects_null_dirty_rect_vector() {
    check_null_dirty_rect_vector();
}
