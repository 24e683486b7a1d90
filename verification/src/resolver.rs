use vstd::prelude::*;

use crate::versioned_profile::{AobToken, HookSignature, HookTarget, SignatureLocator};

verus! {

/// The "MZ" signature at the start of a PE image.
pub const IMAGE_DOS_SIGNATURE: u32 = 0x5A4D;

/// The "PE\0\0" signature of the NT headers.
pub const IMAGE_NT_SIGNATURE: u32 = 0x0000_4550;

/// Optional-header magic of a 32-bit image.
pub const IMAGE_OPTIONAL_HDR32_MAGIC: u32 = 0x010B;

/// Optional-header magic of a 64-bit image.
pub const IMAGE_OPTIONAL_HDR64_MAGIC: u32 = 0x020B;

/// The OS error code for a buffer too small for the answer.
pub const ERROR_INSUFFICIENT_BUFFER: i32 = 122;

/// A module loaded in the process: its name, base address and image size.
#[derive(Debug, Clone, Copy, PartialEq, Eq)]
pub struct LoadedModule {
    pub module_name: &'static str,
    pub base_address: usize,
    pub size: usize,
}

/// A virtual address in the process.
#[derive(Debug, Clone, Copy, PartialEq, Eq, Structural)]
pub struct Va(pub usize);

/// A hook target and the address it was found at.
#[derive(Debug, Clone, Copy, PartialEq, Eq, Structural)]
pub struct ResolvedFunctionVa {
    target: HookTarget,
    va: Va,
}

impl ResolvedFunctionVa {
    pub fn new(target: HookTarget, va: Va) -> (r: ResolvedFunctionVa)
        ensures
            r.spec_target() == target,
            r.spec_va() == va,
    {
        ResolvedFunctionVa { target, va }
    }

    pub closed spec fn spec_target(self) -> HookTarget {
        self.target
    }

    pub closed spec fn spec_va(self) -> Va {
        self.va
    }

    pub fn target(self) -> (t: HookTarget)
        ensures
            t == self.spec_target(),
    {
        self.target
    }

    pub fn va(self) -> (v: Va)
        ensures
            v == self.spec_va(),
    {
        self.va
    }
}

/// What identifies an image: its link timestamp and its size in memory.
#[derive(Debug, Clone, Copy, PartialEq, Eq, Structural)]
pub struct ImageIdentity {
    pub timestamp: u32,
    pub size: usize,
}

/// Why a profile could not be resolved against the loaded module.
#[derive(Debug, Clone, PartialEq, Eq)]
pub enum HookResolveError {
    ModuleNotLoaded { module_name: &'static str },
    InvalidModuleImage { module_name: &'static str, detail: &'static str },
    ModuleAccessFailed { module_name: &'static str, operation: &'static str, error_code: i32 },
    ModuleImageMismatch {
        module_name: &'static str,
        live_timestamp: u32,
        backing_timestamp: u32,
        live_size: usize,
        backing_size: usize,
    },
    ConflictingPrologue {
        target: HookTarget,
        rva: usize,
        mismatch_offset: usize,
        expected: u8,
        actual: u8,
    },
    SignatureNotFound { target: HookTarget },
    SignatureAmbiguous { target: HookTarget },
}

/// Whether `e` is an invalid-image error of `module_name` with `detail`.
pub open spec fn is_invalid_image(e: HookResolveError, module_name: &'static str, detail: Seq<char>) -> bool {
    e matches HookResolveError::InvalidModuleImage { module_name: m, detail: d } && m == module_name
        && d@ == detail
}

/// The address of `rva` in a module based at `base`, if it does not overflow.
pub fn va_from_rva(base: usize, rva: usize, module_name: &'static str) -> (r: Result<
    Va,
    HookResolveError,
>)
    ensures
        base + rva <= usize::MAX ==> r == Ok::<Va, HookResolveError>(Va((base + rva) as usize)),
        base + rva > usize::MAX ==> (r matches Err(e) && is_invalid_image(
            e,
            module_name,
            "module base + RVA overflowed"@,
        )),
{
    match base.checked_add(rva) {
        Some(a) => Ok(Va(a)),
        None => Err(
            HookResolveError::InvalidModuleImage {
                module_name,
                detail: "module base + RVA overflowed",
            },
        ),
    }
}

/// A target found by scanning the clean image, at an RVA.
#[derive(Debug, Clone, Copy, PartialEq, Eq, Structural)]
pub struct ScannedTarget {
    pub target: HookTarget,
    pub rva: usize,
}

/// The addresses of scanned targets in the module based at `base`, in scan
/// order; the first RVA that overflows the address space fails.
pub fn function_targets_from_rvas(module: LoadedModule, scanned: &[ScannedTarget]) -> (r: Result<
    Vec<ResolvedFunctionVa>,
    HookResolveError,
>)
    ensures
        match r {
            Ok(v) => v@.len() == scanned@.len() && forall|i: int|
                0 <= i < scanned@.len() ==> {
                    &&& module.base_address + (#[trigger] scanned@[i]).rva <= usize::MAX
                    &&& v@[i].spec_target() == scanned@[i].target
                    &&& v@[i].spec_va() == Va((module.base_address + scanned@[i].rva) as usize)
                },
            Err(e) => is_invalid_image(e, module.module_name, "module base + RVA overflowed"@)
                && exists|i: int|
                0 <= i < scanned@.len() && module.base_address + (#[trigger] scanned@[i]).rva
                    > usize::MAX,
        },
{
    let mut targets: Vec<ResolvedFunctionVa> = Vec::new();
    let mut i: usize = 0;
    while i < scanned.len()
        invariant
            i <= scanned@.len(),
            targets@.len() == i,
            forall|j: int|
                0 <= j < i ==> {
                    &&& module.base_address + (#[trigger] scanned@[j]).rva <= usize::MAX
                    &&& targets@[j].spec_target() == scanned@[j].target
                    &&& targets@[j].spec_va() == Va((module.base_address + scanned@[j].rva) as usize)
                },
        decreases scanned@.len() - i,
    {
        let hit = scanned[i];
        let va = match va_from_rva(module.base_address, hit.rva, module.module_name) {
            Ok(va) => va,
            Err(e) => {
                assert(module.base_address + scanned@[i as int].rva > usize::MAX);
                return Err(e);
            },
        };
        targets.push(ResolvedFunctionVa::new(hit.target, va));
        i = i + 1;
    }
    Ok(targets)
}

/// The byte pattern of a signature.
pub open spec fn locator_tokens(l: SignatureLocator) -> Seq<AobToken> {
    match l {
        SignatureLocator::Aob { tokens } => tokens@,
        SignatureLocator::RipRelativeGlobalAob { tokens, .. } => tokens@,
    }
}

fn tokens_of(l: &SignatureLocator) -> (t: &Vec<AobToken>)
    ensures
        t@ == locator_tokens(*l),
{
    match l {
        SignatureLocator::Aob { tokens } => tokens,
        SignatureLocator::RipRelativeGlobalAob { tokens, .. } => tokens,
    }
}

/// Index of the first signature of `target`, if any.
pub open spec fn first_signature_of(signatures: Seq<HookSignature>, target: HookTarget) -> Option<int> {
    if exists|i: int| 0 <= i < signatures.len() && (#[trigger] signatures[i]).target == target {
        Some(
            choose|i: int|
                0 <= i < signatures.len() && signatures[i].target == target && forall|j: int|
                    0 <= j < i ==> (#[trigger] signatures[j]).target != target,
        )
    } else {
        None
    }
}

/// Whether the pattern byte at `j` is fixed and differs from the live byte.
pub open spec fn token_mismatch(tokens: Seq<AobToken>, live: Seq<u8>, start: int, j: int) -> bool {
    tokens[j] matches AobToken::Exact(expected) && expected != live[start + j]
}

/// Offset of the first fixed pattern byte that differs from the live image, if any.
pub open spec fn first_mismatch(tokens: Seq<AobToken>, live: Seq<u8>, start: int) -> Option<int> {
    if exists|j: int| 0 <= j < tokens.len() && #[trigger] token_mismatch(tokens, live, start, j) {
        Some(
            choose|j: int|
                0 <= j < tokens.len() && token_mismatch(tokens, live, start, j) && forall|k: int|
                    0 <= k < j ==> !#[trigger] token_mismatch(tokens, live, start, k),
        )
    } else {
        None
    }
}

/// The check of a resolved target's prologue against the live image, given
/// its pattern: its address must lie at or above the module base, its
/// prologue inside the live image, and every fixed pattern byte must match.
pub open spec fn prologue_tokens_check(
    module: LoadedModule,
    target: ResolvedFunctionVa,
    tokens: Seq<AobToken>,
    live: Seq<u8>,
) -> Result<(), HookResolveError> {
    if target.spec_va().0 < module.base_address {
        Err(
            HookResolveError::InvalidModuleImage {
                module_name: module.module_name,
                detail: "resolved target address was below the live module base",
            },
        )
    } else {
        let rva = target.spec_va().0 - module.base_address;
        if rva + tokens.len() > live.len() {
            Err(
                HookResolveError::InvalidModuleImage {
                    module_name: module.module_name,
                    detail: "resolved target prologue was outside the live image",
                },
            )
        } else {
            match first_mismatch(tokens, live, rva) {
                None => Ok(()),
                Some(j) => Err(
                    HookResolveError::ConflictingPrologue {
                        target: target.spec_target(),
                        rva: rva as usize,
                        mismatch_offset: j as usize,
                        expected: tokens[j]->Exact_0,
                        actual: live[rva + j],
                    },
                ),
            }
        }
    }
}

/// The check of one resolved target against the live image: the first
/// signature of its target gives the pattern, and there must be one.
#[verifier::opaque]
pub open spec fn prologue_check(
    signatures: Seq<HookSignature>,
    module: LoadedModule,
    target: ResolvedFunctionVa,
    live: Seq<u8>,
) -> Result<(), HookResolveError> {
    match first_signature_of(signatures, target.spec_target()) {
        None => Err(
            HookResolveError::InvalidModuleImage {
                module_name: module.module_name,
                detail: "resolved target had no matching profile signature",
            },
        ),
        Some(si) => prologue_tokens_check(module, target, locator_tokens(signatures[si].locator), live),
    }
}

fn find_signature(signatures: &[HookSignature], target: HookTarget) -> (r: Option<usize>)
    ensures
        match r {
            Some(i) => first_signature_of(signatures@, target) == Some(i as int) && i
                < signatures@.len(),
            None => first_signature_of(signatures@, target) is None,
        },
{
    let mut i: usize = 0;
    while i < signatures.len()
        invariant
            i <= signatures@.len(),
            forall|j: int| 0 <= j < i ==> (#[trigger] signatures@[j]).target != target,
        decreases signatures@.len() - i,
    {
        if signatures[i].target == target {
            proof {
                let s = signatures@;
                let k = choose|k: int|
                    0 <= k < s.len() && s[k].target == target && forall|j: int|
                        0 <= j < k ==> (#[trigger] s[j]).target != target;
                assert(s[i as int].target == target);
                assert(k == i) by {
                    if k < i {
                        assert(s[k].target != target);
                    }
                    if k > i {
                        assert(s[i as int].target != target);
                    }
                }
            }
            return Some(i);
        }
        i = i + 1;
    }
    None
}

fn find_mismatch(tokens: &Vec<AobToken>, live: &[u8], start: usize) -> (r: Option<usize>)
    requires
        start + tokens@.len() <= live@.len(),
    ensures
        match r {
            Some(j) => first_mismatch(tokens@, live@, start as int) == Some(j as int) && j
                < tokens@.len() && token_mismatch(tokens@, live@, start as int, j as int),
            None => first_mismatch(tokens@, live@, start as int) is None,
        },
{
    let live_len = live.len();
    let mut j: usize = 0;
    while j < tokens.len()
        invariant
            j <= tokens@.len(),
            live_len == live@.len(),
            start + tokens@.len() <= live@.len(),
            forall|k: int| 0 <= k < j ==> !#[trigger] token_mismatch(tokens@, live@, start as int, k),
        decreases tokens@.len() - j,
    {
        match tokens[j] {
            AobToken::Exact(expected) => {
                if expected != live[start + j] {
                    proof {
                        let t = tokens@;
                        let l = live@;
                        let s = start as int;
                        assert(token_mismatch(t, l, s, j as int));
                        let k = choose|k: int|
                            0 <= k < t.len() && token_mismatch(t, l, s, k) && forall|m: int|
                                0 <= m < k ==> !#[trigger] token_mismatch(t, l, s, m);
                        assert(k == j) by {
                            if k < j {
                                assert(!token_mismatch(t, l, s, k));
                            }
                            if k > j {
                                assert(!token_mismatch(t, l, s, j as int));
                            }
                        }
                    }
                    return Some(j);
                }
            },
            AobToken::Wildcard => {},
        }
        j = j + 1;
    }
    None
}

fn check_prologue_tokens(
    module: LoadedModule,
    target: ResolvedFunctionVa,
    tokens: &Vec<AobToken>,
    live_image: &[u8],
) -> (r: Result<(), HookResolveError>)
    ensures
        r == prologue_tokens_check(module, target, tokens@, live_image@),
{
    let va = target.va().0;
    if va < module.base_address {
        return Err(
            HookResolveError::InvalidModuleImage {
                module_name: module.module_name,
                detail: "resolved target address was below the live module base",
            },
        );
    }
    let rva = va - module.base_address;
    let live_len = live_image.len();
    if rva > live_len || tokens.len() > live_len - rva {
        return Err(
            HookResolveError::InvalidModuleImage {
                module_name: module.module_name,
                detail: "resolved target prologue was outside the live image",
            },
        );
    }
    match find_mismatch(tokens, live_image, rva) {
        None => Ok(()),
        Some(j) => {
            let expected = match tokens[j] {
                AobToken::Exact(e) => e,
                AobToken::Wildcard => 0,
            };
            Err(
                HookResolveError::ConflictingPrologue {
                    target: target.target(),
                    rva,
                    mismatch_offset: j,
                    expected,
                    actual: live_image[rva + j],
                },
            )
        },
    }
}

fn check_prologue(
    signatures: &[HookSignature],
    module: LoadedModule,
    target: ResolvedFunctionVa,
    live_image: &[u8],
) -> (r: Result<(), HookResolveError>)
    ensures
        r == prologue_check(signatures@, module, target, live_image@),
{
    reveal(prologue_check);
    match find_signature(signatures, target.target()) {
        Some(si) => check_prologue_tokens(module, target, tokens_of(&signatures[si].locator), live_image),
        None => Err(
            HookResolveError::InvalidModuleImage {
                module_name: module.module_name,
                detail: "resolved target had no matching profile signature",
            },
        ),
    }
}

/// Checks every resolved target, in order, against the live image: the
/// first target that fails `prologue_check` gives the error (a live
/// prologue that differs from the clean one means someone else patched it).
pub fn validate_live_prologues(
    signatures: &[HookSignature],
    module: LoadedModule,
    targets: &[ResolvedFunctionVa],
    live_image: &[u8],
) -> (r: Result<(), HookResolveError>)
    ensures
        match r {
            Ok(()) => forall|i: int|
                0 <= i < targets@.len() ==> prologue_check(
                    signatures@,
                    module,
                    #[trigger] targets@[i],
                    live_image@,
                ) is Ok,
            Err(e) => exists|i: int|
                0 <= i < targets@.len() && prologue_check(
                    signatures@,
                    module,
                    #[trigger] targets@[i],
                    live_image@,
                ) == Err::<(), HookResolveError>(e) && forall|j: int|
                    0 <= j < i ==> prologue_check(
                        signatures@,
                        module,
                        #[trigger] targets@[j],
                        live_image@,
                    ) is Ok,
        },
{
    let mut i: usize = 0;
    while i < targets.len()
        invariant
            i <= targets@.len(),
            forall|j: int|
                0 <= j < i ==> prologue_check(
                    signatures@,
                    module,
                    #[trigger] targets@[j],
                    live_image@,
                ) is Ok,
        decreases targets@.len() - i,
    {
        match check_prologue(signatures, module, targets[i], live_image) {
            Ok(()) => {},
            Err(e) => {
                assert(prologue_check(signatures@, module, targets@[i as int], live_image@) == Err::<
                    (),
                    HookResolveError,
                >(e));
                return Err(e);
            },
        }
        i = i + 1;
    }
    Ok(())
}

/// Whether the live image and its backing file are the same build.
pub fn check_image_identities(
    module_name: &'static str,
    live: ImageIdentity,
    backing: ImageIdentity,
) -> (r: Result<(), HookResolveError>)
    ensures
        live == backing ==> r is Ok,
        live != backing ==> r == Err::<(), HookResolveError>(
            HookResolveError::ModuleImageMismatch {
                module_name,
                live_timestamp: live.timestamp,
                backing_timestamp: backing.timestamp,
                live_size: live.size,
                backing_size: backing.size,
            },
        ),
{
    if live.timestamp == backing.timestamp && live.size == backing.size {
        Ok(())
    } else {
        Err(
            HookResolveError::ModuleImageMismatch {
                module_name,
                live_timestamp: live.timestamp,
                backing_timestamp: backing.timestamp,
                live_size: live.size,
                backing_size: backing.size,
            },
        )
    }
}

/// The length of a module path that the OS wrote into a buffer of
/// `capacity` characters: none written is the OS error `last_error`; a full
/// buffer means the path was cut short.
pub fn module_path_length(
    module_name: &'static str,
    written: usize,
    capacity: usize,
    last_error: i32,
) -> (r: Result<usize, HookResolveError>)
    ensures
        written == 0 ==> (r matches Err(HookResolveError::ModuleAccessFailed {
            module_name: m,
            operation: op,
            error_code: code,
        }) && m == module_name && op@ == "path resolution"@ && code == last_error),
        written != 0 && written == capacity ==> (r matches Err(
            HookResolveError::ModuleAccessFailed { module_name: m, operation: op, error_code: code },
        ) && m == module_name && op@ == "path resolution"@ && code == ERROR_INSUFFICIENT_BUFFER),
        written != 0 && written != capacity ==> r == Ok::<usize, HookResolveError>(written),
{
    if written == 0 {
        return Err(
            HookResolveError::ModuleAccessFailed {
                module_name,
                operation: "path resolution",
                error_code: last_error,
            },
        );
    }
    if written == capacity {
        return Err(
            HookResolveError::ModuleAccessFailed {
                module_name,
                operation: "path resolution",
                error_code: ERROR_INSUFFICIENT_BUFFER,
            },
        );
    }
    Ok(written)
}

/// A read of a PE header field, at an offset from the image base.
#[derive(Debug, Clone, Copy, PartialEq, Eq, Structural)]
pub enum HeaderRead {
    U16 { offset: u64 },
    U32 { offset: u64 },
}

/// Which header field is read next.
#[derive(Debug, Clone, Copy, PartialEq, Eq, Structural)]
pub enum HeaderStage {
    DosSignature,
    PeOffset,
    NtSignature,
    Timestamp,
    OptionalMagic,
    SizeOfImage,
    Finished,
}

/// The state of reading an image's identity from its headers.
pub struct HeaderView {
    pub module_name: &'static str,
    pub stage: HeaderStage,
    pub pending: Option<HeaderRead>,
    pub pe_offset: u64,
    pub timestamp: u32,
    pub outcome: Option<Result<ImageIdentity, &'static str>>,
}

/// `v` ended with `outcome`.
pub open spec fn header_finished(v: HeaderView, outcome: Result<ImageIdentity, &'static str>) -> HeaderView {
    HeaderView { stage: HeaderStage::Finished, pending: None, outcome: Some(outcome), ..v }
}

/// The state after the pending header read of `v` gave `value` (a 16-bit
/// field given zero-extended): each signature and the optional-header magic
/// must be right, and the image size not zero.
pub open spec fn header_after(v: HeaderView, value: u32) -> HeaderView {
    match v.stage {
        HeaderStage::DosSignature => if value != IMAGE_DOS_SIGNATURE {
            header_finished(v, Err("missing MZ signature"))
        } else {
            HeaderView {
                stage: HeaderStage::PeOffset,
                pending: Some(HeaderRead::U32 { offset: 0x3C }),
                ..v
            }
        },
        HeaderStage::PeOffset => HeaderView {
            stage: HeaderStage::NtSignature,
            pending: Some(HeaderRead::U32 { offset: value as u64 }),
            pe_offset: value as u64,
            ..v
        },
        HeaderStage::NtSignature => if value != IMAGE_NT_SIGNATURE {
            header_finished(v, Err("missing PE signature"))
        } else {
            HeaderView {
                stage: HeaderStage::Timestamp,
                pending: Some(HeaderRead::U32 { offset: (v.pe_offset + 0x08) as u64 }),
                ..v
            }
        },
        HeaderStage::Timestamp => HeaderView {
            stage: HeaderStage::OptionalMagic,
            pending: Some(HeaderRead::U16 { offset: (v.pe_offset + 0x18) as u64 }),
            timestamp: value,
            ..v
        },
        HeaderStage::OptionalMagic => if value != IMAGE_OPTIONAL_HDR32_MAGIC && value
            != IMAGE_OPTIONAL_HDR64_MAGIC {
            header_finished(v, Err("unexpected optional header magic"))
        } else {
            HeaderView {
                stage: HeaderStage::SizeOfImage,
                pending: Some(HeaderRead::U32 { offset: (v.pe_offset + 0x18 + 0x38) as u64 }),
                ..v
            }
        },
        HeaderStage::SizeOfImage => if value == 0 {
            header_finished(v, Err("SizeOfImage was zero"))
        } else {
            header_finished(v, Ok(ImageIdentity { timestamp: v.timestamp, size: value as usize }))
        },
        HeaderStage::Finished => v,
    }
}

/// Reads an image's identity from its PE headers, one field at a time: the
/// caller reads each field that `next_read` names and hands it to `supply`.
pub struct ImageIdentityReader {
    module_name: &'static str,
    stage: HeaderStage,
    pending: Option<HeaderRead>,
    pe_offset: u64,
    timestamp: u32,
    outcome: Option<Result<ImageIdentity, &'static str>>,
}

impl ImageIdentityReader {
    pub closed spec fn view(&self) -> HeaderView {
        HeaderView {
            module_name: self.module_name,
            stage: self.stage,
            pending: self.pending,
            pe_offset: self.pe_offset,
            timestamp: self.timestamp,
            outcome: self.outcome,
        }
    }

    #[verifier::type_invariant]
    spec fn well_formed(&self) -> bool {
        self.pe_offset <= u32::MAX
    }

    /// Begins reading the headers of the image based at `base_address`; a
    /// null base is refused at once.
    pub fn new(module_name: &'static str, base_address: usize) -> (r: ImageIdentityReader)
        ensures
            r@.module_name == module_name,
            r@.pe_offset == 0,
            r@.timestamp == 0,
            base_address == 0 ==> r@.stage is Finished && r@.pending is None && r@.outcome
                == Some(Err::<ImageIdentity, &'static str>("null base address")),
            base_address != 0 ==> r@.stage is DosSignature && r@.pending == Some(
                HeaderRead::U16 { offset: 0 },
            ) && r@.outcome is None,
    {
        if base_address == 0 {
            ImageIdentityReader {
                module_name,
                stage: HeaderStage::Finished,
                pending: None,
                pe_offset: 0,
                timestamp: 0,
                outcome: Some(Err("null base address")),
            }
        } else {
            ImageIdentityReader {
                module_name,
                stage: HeaderStage::DosSignature,
                pending: Some(HeaderRead::U16 { offset: 0 }),
                pe_offset: 0,
                timestamp: 0,
                outcome: None,
            }
        }
    }

    /// The field to read next, or `None` once the reading is over.
    pub fn next_read(&self) -> (r: Option<HeaderRead>)
        ensures
            r == self@.pending,
    {
        self.pending
    }

    /// Takes in the field named by `next_read`.
    pub fn supply(&mut self, value: u32)
        ensures
            final(self)@ == header_after(old(self)@, value),
    {
        proof {
            use_type_invariant(&*self);
        }
        match self.stage {
            HeaderStage::DosSignature => {
                if value != IMAGE_DOS_SIGNATURE {
                    self.finish_with(Err("missing MZ signature"));
                } else {
                    self.stage = HeaderStage::PeOffset;
                    self.pending = Some(HeaderRead::U32 { offset: 0x3C });
                }
            },
            HeaderStage::PeOffset => {
                self.pe_offset = value as u64;
                self.stage = HeaderStage::NtSignature;
                self.pending = Some(HeaderRead::U32 { offset: value as u64 });
            },
            HeaderStage::NtSignature => {
                if value != IMAGE_NT_SIGNATURE {
                    self.finish_with(Err("missing PE signature"));
                } else {
                    self.stage = HeaderStage::Timestamp;
                    self.pending = Some(HeaderRead::U32 { offset: self.pe_offset + 0x08 });
                }
            },
            HeaderStage::Timestamp => {
                self.timestamp = value;
                self.stage = HeaderStage::OptionalMagic;
                self.pending = Some(HeaderRead::U16 { offset: self.pe_offset + 0x18 });
            },
            HeaderStage::OptionalMagic => {
                if value != IMAGE_OPTIONAL_HDR32_MAGIC && value != IMAGE_OPTIONAL_HDR64_MAGIC {
                    self.finish_with(Err("unexpected optional header magic"));
                } else {
                    self.stage = HeaderStage::SizeOfImage;
                    self.pending = Some(HeaderRead::U32 { offset: self.pe_offset + 0x18 + 0x38 });
                }
            },
            HeaderStage::SizeOfImage => {
                if value == 0 {
                    self.finish_with(Err("SizeOfImage was zero"));
                } else {
                    let size = value as usize;
                    self.finish_with(Ok(ImageIdentity { timestamp: self.timestamp, size }));
                }
            },
            HeaderStage::Finished => {},
        }
    }

    fn finish_with(&mut self, outcome: Result<ImageIdentity, &'static str>)
        ensures
            final(self)@ == header_finished(old(self)@, outcome),
    {
        proof {
            use_type_invariant(&*self);
        }
        self.stage = HeaderStage::Finished;
        self.pending = None;
        self.outcome = Some(outcome);
    }

    /// The identity read, or the invalid-image error; `None` while fields
    /// are still needed.
    pub fn finish(self) -> (r: Option<Result<ImageIdentity, HookResolveError>>)
        ensures
            match self@.outcome {
                None => r is None,
                Some(Ok(identity)) => r == Some(Ok::<ImageIdentity, HookResolveError>(identity)),
                Some(Err(detail)) => r matches Some(Err(e)) && e
                    == HookResolveError::InvalidModuleImage {
                    module_name: self@.module_name,
                    detail,
                },
            },
    {
        match self.outcome {
            None => None,
            Some(Ok(identity)) => Some(Ok(identity)),
            Some(Err(detail)) => Some(
                Err(HookResolveError::InvalidModuleImage { module_name: self.module_name, detail }),
            ),
        }
    }
}

/// The little-endian 16-bit value at `offset` of `image` (0 past its end).
pub open spec fn image_u16(image: Seq<u8>, offset: int) -> u32 {
    if 0 <= offset && offset + 2 <= image.len() {
        (image[offset] + image[offset + 1] * 0x100) as u32
    } else {
        0
    }
}

/// The little-endian 32-bit value at `offset` of `image` (0 past its end).
pub open spec fn image_u32(image: Seq<u8>, offset: int) -> u32 {
    if 0 <= offset && offset + 4 <= image.len() {
        (image[offset] + image[offset + 1] * 0x100 + image[offset + 2] * 0x1_0000 + image[offset
            + 3] * 0x100_0000) as u32
    } else {
        0
    }
}

/// The answer `image` gives to a header read.
pub open spec fn header_answer(image: Seq<u8>, read: HeaderRead) -> u32 {
    match read {
        HeaderRead::U16 { offset } => image_u16(image, offset as int),
        HeaderRead::U32 { offset } => image_u32(image, offset as int),
    }
}

/// A header reader in state `v` after `steps` of its reads were answered
/// from `image`.
pub open spec fn feed_image(v: HeaderView, image: Seq<u8>, steps: nat) -> HeaderView
    decreases steps,
{
    if steps == 0 {
        v
    } else {
        match v.pending {
            Some(read) => feed_image(
                header_after(v, header_answer(image, read)),
                image,
                (steps - 1) as nat,
            ),
            None => v,
        }
    }
}

/// What the PE headers of `image` say of its identity. The DOS header holds
/// `MZ` at 0 and, at 0x3C, the offset `e` of the NT headers; these start
/// with `PE\0\0`, the file header's TimeDateStamp lies at `e + 8`, the
/// optional header starts at `e + 0x18` with its magic (PE32 or PE32+) and
/// holds SizeOfImage 0x38 bytes in.
pub open spec fn pe_header_identity(image: Seq<u8>) -> Result<ImageIdentity, &'static str> {
    let e = image_u32(image, 0x3C) as int;
    let magic = image_u16(image, e + 0x18);
    if image_u16(image, 0) != 0x5A4D {
        Err("missing MZ signature")
    } else if image_u32(image, e) != 0x0000_4550 {
        Err("missing PE signature")
    } else if magic != 0x010B && magic != 0x020B {
        Err("unexpected optional header magic")
    } else if image_u32(image, e + 0x18 + 0x38) == 0 {
        Err("SizeOfImage was zero")
    } else {
        Ok(
            ImageIdentity {
                timestamp: image_u32(image, e + 8),
                size: image_u32(image, e + 0x18 + 0x38) as usize,
            },
        )
    }
}

/// A header reader that starts at the DOS signature and has each read
/// answered from `image` is over within six reads, and its outcome is what
/// the image's PE headers say: the NT headers are looked for at the offset
/// the DOS header gives, and the timestamp, the optional header's magic and
/// SizeOfImage are read relative to them.
pub proof fn lemma_header_reader_follows_pe_layout(v: HeaderView, image: Seq<u8>)
    requires
        v.stage is DosSignature,
        v.pending == Some(HeaderRead::U16 { offset: 0 }),
        v.outcome is None,
    ensures
        feed_image(v, image, 6).stage is Finished,
        feed_image(v, image, 6).pending is None,
        feed_image(v, image, 6).outcome == Some(pe_header_identity(image)),
{
    reveal_with_fuel(feed_image, 7);
}

} // verus!
