use dwm_lut::lifecycle::Lifecycle;
use dwm_lut::minhook_plan::{MinHookError, MinHookOperation};
use dwm_lut::resolver::HookResolveError;
use dwm_lut::status::{
    map_hook_error, map_payload_error_to_initialize_status,
    map_payload_error_to_replace_assignments_status, map_replace_assignments_error,
    map_resolve_status, HookError, InitializeStatus, PayloadErrorKind, ReplaceAssignmentsError,
    ReplaceAssignmentsStatus, ReplaceLutAssignmentsError, shutdown_finished_status,
    shutdown_refusal_status, ShutdownStatus,
};
use dwm_lut::versioned_profile::{DwmcoreVersion, HookTarget, ProfileSelectError, HOOK_MODULE_NAME};

#[test]
fn module_access_failure_has_distinct_initialize_status() {
    let status = map_resolve_status(&HookResolveError::ModuleAccessFailed {
        module_name: HOOK_MODULE_NAME,
        operation: "map image view",
        error_code: 5,
    });

    assert_eq!(status, InitializeStatus::DwmcoreImageAccessFailed);
}

#[test]
fn profile_select_failures_have_distinct_initialize_statuses() {
    assert_eq!(
        map_hook_error(&HookError::ProfileSelect(ProfileSelectError::UnsupportedDwmcoreVersion {
            version: DwmcoreVersion { build: 26100, revision: 0 },
        })),
        InitializeStatus::UnsupportedDwmcoreVersion
    );
    assert_eq!(
        map_hook_error(&HookError::ProfileSelect(ProfileSelectError::DwmcoreModuleNotLoaded)),
        InitializeStatus::DwmcoreModuleNotLoaded
    );
    assert_eq!(
        map_hook_error(&HookError::ProfileSelect(ProfileSelectError::DwmcoreVersionQueryFailed)),
        InitializeStatus::DwmcoreVersionQueryFailed
    );
}

#[test]
fn resolve_failures_name_the_function_that_failed() {
    assert_eq!(
        map_resolve_status(&HookResolveError::SignatureNotFound { target: HookTarget::Present }),
        InitializeStatus::PresentSignatureNotFound
    );
    assert_eq!(
        map_resolve_status(&HookResolveError::SignatureAmbiguous {
            target: HookTarget::IsCandidateDirectFlipCompatible,
        }),
        InitializeStatus::DirectFlipSignatureAmbiguous
    );
    assert_eq!(
        map_resolve_status(&HookResolveError::ConflictingPrologue {
            target: HookTarget::OverlaysEnabled,
            rva: 0x1000,
            mismatch_offset: 2,
            expected: 0x48,
            actual: 0xe9,
        }),
        InitializeStatus::OverlaysEnabledPrologueConflict
    );
    // A global has no prologue: a conflict there means the image is not the one scanned.
    assert_eq!(
        map_resolve_status(&HookResolveError::ConflictingPrologue {
            target: HookTarget::OverlayTestMode,
            rva: 0x2000,
            mismatch_offset: 0,
            expected: 0,
            actual: 1,
        }),
        InitializeStatus::DwmcoreImageInvalid
    );
    assert_eq!(
        map_resolve_status(&HookResolveError::InvalidModuleImage {
            module_name: HOOK_MODULE_NAME,
            detail: "missing MZ signature",
        }),
        InitializeStatus::DwmcoreImageInvalid
    );
}

#[test]
fn payload_and_minhook_failures_map_to_their_statuses() {
    assert_eq!(map_payload_error_to_initialize_status(PayloadErrorKind::EmptyBuffer), InitializeStatus::InvalidPayload);
    assert_eq!(map_payload_error_to_initialize_status(PayloadErrorKind::TooLarge), InitializeStatus::InvalidPayload);
    assert_eq!(
        map_payload_error_to_initialize_status(PayloadErrorKind::NoAssignments),
        InitializeStatus::PayloadHasNoAssignments
    );
    assert_eq!(map_payload_error_to_initialize_status(PayloadErrorKind::Malformed), InitializeStatus::PayloadDecodeFailed);
    assert_eq!(
        map_payload_error_to_replace_assignments_status(PayloadErrorKind::TooLarge),
        ReplaceAssignmentsStatus::InvalidPayload
    );
    assert_eq!(map_hook_error(&HookError::AlreadyInitialized), InitializeStatus::AlreadyInitialized);
    assert_eq!(
        map_hook_error(&HookError::MinHook(MinHookError::new(MinHookOperation::EnableHook, Some(4)))),
        InitializeStatus::MinHookEnableHookFailed
    );
    assert_eq!(
        map_hook_error(&HookError::MinHook(MinHookError::new(
            MinHookOperation::CreateHook(dwm_lut::profile::HookTarget::Present),
            None,
        ))),
        InitializeStatus::MinHookCreateHookFailed
    );
}

#[test]
fn replacement_failures_map_to_their_statuses() {
    assert_eq!(
        map_replace_assignments_error(&ReplaceAssignmentsError::NotInitialized),
        ReplaceAssignmentsStatus::NotInitialized
    );
    assert_eq!(
        map_replace_assignments_error(&ReplaceAssignmentsError::State(ReplaceLutAssignmentsError::NotInitialized)),
        ReplaceAssignmentsStatus::NotInitialized
    );
    assert_eq!(
        map_replace_assignments_error(&ReplaceAssignmentsError::AlreadyInProgress),
        ReplaceAssignmentsStatus::AlreadyInProgress
    );
    assert_eq!(
        map_replace_assignments_error(&ReplaceAssignmentsError::Payload(PayloadErrorKind::Malformed)),
        ReplaceAssignmentsStatus::PayloadDecodeFailed
    );
}

#[test]
fn shutdown_requests_end_by_lifecycle_phase() {
    let mut lifecycle = Lifecycle::new(32);
    assert_eq!(shutdown_refusal_status(&lifecycle.begin_shutdown()), Some(ShutdownStatus::AlreadyShutDown));

    let initialization = lifecycle.begin_initialization().expect("inactive hook initializes");
    assert_eq!(shutdown_refusal_status(&lifecycle.begin_shutdown()), Some(ShutdownStatus::AlreadyInProgress));
    initialization.commit_active(&mut lifecycle, "26100.8737");

    let start = lifecycle.begin_shutdown();
    assert_eq!(shutdown_refusal_status(&start), None);
    assert_eq!(shutdown_refusal_status(&lifecycle.begin_shutdown()), Some(ShutdownStatus::AlreadyInProgress));
}

#[test]
fn started_shutdown_reports_whether_hooks_were_disabled() {
    assert_eq!(shutdown_finished_status(true, true), ShutdownStatus::Success);
    assert_eq!(shutdown_finished_status(true, false), ShutdownStatus::MinHookDisableAllFailed);
    assert_eq!(shutdown_finished_status(false, false), ShutdownStatus::Success);
}
