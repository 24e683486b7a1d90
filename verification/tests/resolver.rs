use dwm_lut::resolver::{
    check_image_identities, function_targets_from_rvas, module_path_length, va_from_rva,
    validate_live_prologues, HeaderRead, HookResolveError, ImageIdentity, ImageIdentityReader,
    LoadedModule, ResolvedFunctionVa, ScannedTarget, Va, ERROR_INSUFFICIENT_BUFFER,
};
use dwm_lut::versioned_profile::{AobToken, HookSignature, HookTarget, SignatureLocator, HOOK_MODULE_NAME};

fn prologue_signatures() -> Vec<HookSignature> {
    vec![HookSignature {
        target: HookTarget::Present,
        locator: SignatureLocator::Aob {
            tokens: vec![
                AobToken::Exact(0x40),
                AobToken::Exact(0x55),
                AobToken::Wildcard,
                AobToken::Exact(0x57),
            ],
        },
    }]
}

fn module(base_address: usize, size: usize) -> LoadedModule {
    LoadedModule { module_name: HOOK_MODULE_NAME, base_address, size }
}

#[test]
fn clean_image_resolution_uses_live_address_after_prologue_validation() {
    let live_image = [0x90, 0x40, 0x55, 0xAA, 0x57, 0x90];
    let module = module(0x1000_0000, live_image.len());
    let targets = function_targets_from_rvas(module, &[ScannedTarget { target: HookTarget::Present, rva: 1 }])
        .expect("base + RVA fits");
    assert_eq!(targets[0].va(), Va(module.base_address + 1));
    assert_eq!(validate_live_prologues(&prologue_signatures(), module, &targets, &live_image), Ok(()));
}

#[test]
fn clean_image_resolution_reports_modified_live_prologue() {
    let live_image = [0x90, 0xE9, 0x11, 0x22, 0x33, 0x44];
    let module = module(0x1000_0000, live_image.len());
    let targets = [ResolvedFunctionVa::new(HookTarget::Present, Va(0x1000_0001))];
    assert_eq!(
        validate_live_prologues(&prologue_signatures(), module, &targets, &live_image),
        Err(HookResolveError::ConflictingPrologue {
            target: HookTarget::Present,
            rva: 1,
            mismatch_offset: 0,
            expected: 0x40,
            actual: 0xE9,
        })
    );
}

#[test]
fn wildcard_bytes_never_conflict() {
    let live_image = [0x40, 0x55, 0x00, 0x57];
    let module = module(0x2000, live_image.len());
    let targets = [ResolvedFunctionVa::new(HookTarget::Present, Va(0x2000))];
    assert_eq!(validate_live_prologues(&prologue_signatures(), module, &targets, &live_image), Ok(()));
}

#[test]
fn prologue_checks_report_missing_signature_low_address_and_short_image() {
    let live_image = [0x40, 0x55, 0x00];
    let module = module(0x2000, live_image.len());
    let missing = [ResolvedFunctionVa::new(HookTarget::OverlaysEnabled, Va(0x2000))];
    assert_eq!(
        validate_live_prologues(&prologue_signatures(), module, &missing, &live_image),
        Err(HookResolveError::InvalidModuleImage {
            module_name: HOOK_MODULE_NAME,
            detail: "resolved target had no matching profile signature",
        })
    );
    let below = [ResolvedFunctionVa::new(HookTarget::Present, Va(0x1fff))];
    assert_eq!(
        validate_live_prologues(&prologue_signatures(), module, &below, &live_image),
        Err(HookResolveError::InvalidModuleImage {
            module_name: HOOK_MODULE_NAME,
            detail: "resolved target address was below the live module base",
        })
    );
    let outside = [ResolvedFunctionVa::new(HookTarget::Present, Va(0x2000))];
    assert_eq!(
        validate_live_prologues(&prologue_signatures(), module, &outside, &live_image),
        Err(HookResolveError::InvalidModuleImage {
            module_name: HOOK_MODULE_NAME,
            detail: "resolved target prologue was outside the live image",
        })
    );
}

#[test]
fn resolve_profile_from_clean_image_maps_function_targets_to_vas() {
    let module = module(0x2000_0000, 2);
    let targets = function_targets_from_rvas(
        module,
        &[
            ScannedTarget { target: HookTarget::Present, rva: 0 },
            ScannedTarget { target: HookTarget::OverlaysEnabled, rva: 1 },
        ],
    )
    .expect("resolution should succeed");
    assert_eq!(
        targets,
        vec![
            ResolvedFunctionVa::new(HookTarget::Present, Va(0x2000_0000)),
            ResolvedFunctionVa::new(HookTarget::OverlaysEnabled, Va(0x2000_0001)),
        ]
    );
}

#[test]
fn resolve_profile_from_clean_image_rejects_base_plus_rva_overflow() {
    let module = module(usize::MAX, 6);
    let error = function_targets_from_rvas(module, &[ScannedTarget { target: HookTarget::Present, rva: 1 }])
        .expect_err("base + RVA overflow should fail");
    assert_eq!(
        error,
        HookResolveError::InvalidModuleImage {
            module_name: HOOK_MODULE_NAME,
            detail: "module base + RVA overflowed",
        }
    );
    assert_eq!(va_from_rva(0x1000, 0x20, HOOK_MODULE_NAME), Ok(Va(0x1020)));
}

#[test]
fn image_identities_must_match() {
    let live = ImageIdentity { timestamp: 0x1234, size: 0x20_0000 };
    assert_eq!(check_image_identities(HOOK_MODULE_NAME, live, live), Ok(()));
    let backing = ImageIdentity { timestamp: 0x1235, size: 0x20_0000 };
    assert_eq!(
        check_image_identities(HOOK_MODULE_NAME, live, backing),
        Err(HookResolveError::ModuleImageMismatch {
            module_name: HOOK_MODULE_NAME,
            live_timestamp: 0x1234,
            backing_timestamp: 0x1235,
            live_size: 0x20_0000,
            backing_size: 0x20_0000,
        })
    );
}

#[test]
fn module_path_length_refuses_empty_and_truncated_paths() {
    assert_eq!(module_path_length(HOOK_MODULE_NAME, 40, 32_768, 0), Ok(40));
    assert_eq!(
        module_path_length(HOOK_MODULE_NAME, 0, 32_768, 5),
        Err(HookResolveError::ModuleAccessFailed {
            module_name: HOOK_MODULE_NAME,
            operation: "path resolution",
            error_code: 5,
        })
    );
    assert_eq!(
        module_path_length(HOOK_MODULE_NAME, 32_768, 32_768, 5),
        Err(HookResolveError::ModuleAccessFailed {
            module_name: HOOK_MODULE_NAME,
            operation: "path resolution",
            error_code: ERROR_INSUFFICIENT_BUFFER,
        })
    );
}

/// A PE header laid out in a byte buffer.
fn pe_header(magic: u16, size_of_image: u32) -> Vec<u8> {
    let mut image = vec![0u8; 0x200];
    image[0..2].copy_from_slice(&0x5A4Du16.to_le_bytes());
    image[0x3C..0x40].copy_from_slice(&0x80u32.to_le_bytes());
    image[0x80..0x84].copy_from_slice(&0x4550u32.to_le_bytes());
    image[0x88..0x8C].copy_from_slice(&0x6543_2100u32.to_le_bytes());
    image[0x98..0x9A].copy_from_slice(&magic.to_le_bytes());
    image[0xD0..0xD4].copy_from_slice(&size_of_image.to_le_bytes());
    image
}

fn read_identity(image: &[u8]) -> Result<ImageIdentity, HookResolveError> {
    let mut reader = ImageIdentityReader::new(HOOK_MODULE_NAME, 0x1000);
    while let Some(read) = reader.next_read() {
        let value = match read {
            HeaderRead::U16 { offset } => {
                let o = offset as usize;
                u16::from_le_bytes([image[o], image[o + 1]]) as u32
            }
            HeaderRead::U32 { offset } => {
                let o = offset as usize;
                u32::from_le_bytes([image[o], image[o + 1], image[o + 2], image[o + 3]])
            }
        };
        reader.supply(value);
    }
    reader.finish().expect("reading is over")
}

#[test]
fn pe_headers_give_timestamp_and_image_size() {
    assert_eq!(
        read_identity(&pe_header(0x20B, 0x20_0000)),
        Ok(ImageIdentity { timestamp: 0x6543_2100, size: 0x20_0000 })
    );
    assert_eq!(
        read_identity(&pe_header(0x10B, 0x1000)),
        Ok(ImageIdentity { timestamp: 0x6543_2100, size: 0x1000 })
    );
}

#[test]
fn malformed_pe_headers_are_invalid_images() {
    let invalid = |detail: &'static str| {
        Err(HookResolveError::InvalidModuleImage { module_name: HOOK_MODULE_NAME, detail })
    };
    assert_eq!(read_identity(&pe_header(0x30B, 0x1000)), invalid("unexpected optional header magic"));
    assert_eq!(read_identity(&pe_header(0x20B, 0)), invalid("SizeOfImage was zero"));
    let mut no_mz = pe_header(0x20B, 0x1000);
    no_mz[0] = 0;
    assert_eq!(read_identity(&no_mz), invalid("missing MZ signature"));
    let mut no_pe = pe_header(0x20B, 0x1000);
    no_pe[0x80] = 0;
    assert_eq!(read_identity(&no_pe), invalid("missing PE signature"));
    let reader = ImageIdentityReader::new(HOOK_MODULE_NAME, 0);
    assert_eq!(reader.next_read(), None);
    assert_eq!(reader.finish(), Some(invalid("null base address")));
}
