use vstd::prelude::*;

use crate::lifecycle::ShutdownStart;
use crate::minhook_plan::{MinHookError, MinHookOperation};
use crate::resolver::HookResolveError;
use crate::versioned_profile::{HookTarget, ProfileSelectError};

verus! {

/// What initializing the hook reports to its caller.
#[derive(Debug, Clone, Copy, PartialEq, Eq, Structural)]
pub enum InitializeStatus {
    Success,
    NullPayload,
    AlreadyInitialized,
    InvalidPayload,
    PayloadHasNoAssignments,
    PayloadDecodeFailed,
    UnsupportedDwmcoreVersion,
    DwmcoreModuleNotLoaded,
    DwmcoreVersionQueryFailed,
    DwmcoreImageInvalid,
    DwmcoreImageAccessFailed,
    DwmcoreImageMismatch,
    PresentSignatureNotFound,
    DirectFlipSignatureNotFound,
    DirectFlipInfoEnsureIndependentFlipSignatureNotFound,
    IsDirectFlipSupportedOnTargetSignatureNotFound,
    LegacySwapChainCheckDirectFlipSignatureNotFound,
    IsAdvancedDirectFlipCompatibleSignatureNotFound,
    OverlayTestModeNotFound,
    DisableIndependentFlipNotFound,
    PresentSignatureAmbiguous,
    DirectFlipSignatureAmbiguous,
    DirectFlipInfoEnsureIndependentFlipSignatureAmbiguous,
    IsDirectFlipSupportedOnTargetSignatureAmbiguous,
    LegacySwapChainCheckDirectFlipSignatureAmbiguous,
    IsAdvancedDirectFlipCompatibleSignatureAmbiguous,
    OverlayTestModeAmbiguous,
    DisableIndependentFlipAmbiguous,
    PresentPrologueConflict,
    DirectFlipPrologueConflict,
    DirectFlipInfoEnsureIndependentFlipPrologueConflict,
    IsDirectFlipSupportedOnTargetPrologueConflict,
    LegacySwapChainCheckDirectFlipPrologueConflict,
    IsAdvancedDirectFlipCompatiblePrologueConflict,
    OverlaysEnabledPrologueConflict,
    MinHookInitializeFailed,
    MinHookCreateHookFailed,
    MinHookEnableHookFailed,
}

/// What replacing the LUT assignments reports to its caller.
#[derive(Debug, Clone, Copy, PartialEq, Eq, Structural)]
pub enum ReplaceAssignmentsStatus {
    Success,
    NullPayload,
    NotInitialized,
    AlreadyInProgress,
    RuntimeInactive,
    InvalidPayload,
    PayloadHasNoAssignments,
    PayloadDecodeFailed,
}

/// The kind of a payload decoding failure, as far as the statuses tell them apart.
#[derive(Debug, Clone, Copy, PartialEq, Eq, Structural)]
pub enum PayloadErrorKind {
    EmptyBuffer,
    TooLarge,
    NoAssignments,
    Malformed,
}

/// Why initializing the hook failed.
#[derive(Debug)]
pub enum HookError {
    AlreadyInitialized,
    ProfileSelect(ProfileSelectError),
    Payload(PayloadErrorKind),
    MinHook(MinHookError),
    Resolve(HookResolveError),
}

/// Why the hook state refused new assignments.
#[derive(Debug, Clone, Copy, PartialEq, Eq, Structural)]
pub enum ReplaceLutAssignmentsError {
    NotInitialized,
}

/// Why replacing the LUT assignments failed.
#[derive(Debug, Clone, Copy, PartialEq, Eq, Structural)]
pub enum ReplaceAssignmentsError {
    NotInitialized,
    AlreadyInProgress,
    Payload(PayloadErrorKind),
    State(ReplaceLutAssignmentsError),
}

/// The status for a signature of `target` that was not found.
pub open spec fn not_found_status(target: HookTarget) -> InitializeStatus {
    match target {
        HookTarget::Present => InitializeStatus::PresentSignatureNotFound,
        HookTarget::IsCandidateDirectFlipCompatible => InitializeStatus::DirectFlipSignatureNotFound,
        HookTarget::DirectFlipInfoEnsureIndependentFlipState => InitializeStatus::DirectFlipInfoEnsureIndependentFlipSignatureNotFound,
        HookTarget::IsDirectFlipSupportedOnTarget => InitializeStatus::IsDirectFlipSupportedOnTargetSignatureNotFound,
        HookTarget::LegacySwapChainCheckDirectFlipSupport => InitializeStatus::LegacySwapChainCheckDirectFlipSignatureNotFound,
        HookTarget::IsAdvancedDirectFlipCompatible => InitializeStatus::IsAdvancedDirectFlipCompatibleSignatureNotFound,
        HookTarget::OverlayTestMode => InitializeStatus::OverlayTestModeNotFound,
        HookTarget::DisableIndependentFlip => InitializeStatus::DisableIndependentFlipNotFound,
        HookTarget::OverlaysEnabled => InitializeStatus::DwmcoreImageInvalid,
    }
}

/// The status for a signature of `target` that matched more than once.
pub open spec fn ambiguous_status(target: HookTarget) -> InitializeStatus {
    match target {
        HookTarget::Present => InitializeStatus::PresentSignatureAmbiguous,
        HookTarget::IsCandidateDirectFlipCompatible => InitializeStatus::DirectFlipSignatureAmbiguous,
        HookTarget::DirectFlipInfoEnsureIndependentFlipState => InitializeStatus::DirectFlipInfoEnsureIndependentFlipSignatureAmbiguous,
        HookTarget::IsDirectFlipSupportedOnTarget => InitializeStatus::IsDirectFlipSupportedOnTargetSignatureAmbiguous,
        HookTarget::LegacySwapChainCheckDirectFlipSupport => InitializeStatus::LegacySwapChainCheckDirectFlipSignatureAmbiguous,
        HookTarget::IsAdvancedDirectFlipCompatible => InitializeStatus::IsAdvancedDirectFlipCompatibleSignatureAmbiguous,
        HookTarget::OverlayTestMode => InitializeStatus::OverlayTestModeAmbiguous,
        HookTarget::DisableIndependentFlip => InitializeStatus::DisableIndependentFlipAmbiguous,
        HookTarget::OverlaysEnabled => InitializeStatus::DwmcoreImageInvalid,
    }
}

/// The status for a prologue of `target` that someone else modified; the
/// globals have no prologue, so a conflict there means the image is invalid.
pub open spec fn prologue_conflict_status(target: HookTarget) -> InitializeStatus {
    match target {
        HookTarget::Present => InitializeStatus::PresentPrologueConflict,
        HookTarget::IsCandidateDirectFlipCompatible => InitializeStatus::DirectFlipPrologueConflict,
        HookTarget::DirectFlipInfoEnsureIndependentFlipState => InitializeStatus::DirectFlipInfoEnsureIndependentFlipPrologueConflict,
        HookTarget::IsDirectFlipSupportedOnTarget => InitializeStatus::IsDirectFlipSupportedOnTargetPrologueConflict,
        HookTarget::LegacySwapChainCheckDirectFlipSupport => InitializeStatus::LegacySwapChainCheckDirectFlipPrologueConflict,
        HookTarget::IsAdvancedDirectFlipCompatible => InitializeStatus::IsAdvancedDirectFlipCompatiblePrologueConflict,
        HookTarget::OverlaysEnabled => InitializeStatus::OverlaysEnabledPrologueConflict,
        HookTarget::OverlayTestMode | HookTarget::DisableIndependentFlip => InitializeStatus::DwmcoreImageInvalid,
    }
}

/// Whether a resolve error has a status: the optional `OverlaysEnabled`
/// target is skipped when it is missing or ambiguous, so those errors never
/// reach the status mapping.
pub open spec fn resolve_error_has_status(error: HookResolveError) -> bool {
    match error {
        HookResolveError::SignatureNotFound { target } => target != HookTarget::OverlaysEnabled,
        HookResolveError::SignatureAmbiguous { target } => target != HookTarget::OverlaysEnabled,
        _ => true,
    }
}

/// The status for a resolve error.
pub open spec fn resolve_status(error: HookResolveError) -> InitializeStatus {
    match error {
        HookResolveError::ModuleNotLoaded { .. } => InitializeStatus::DwmcoreModuleNotLoaded,
        HookResolveError::InvalidModuleImage { .. } => InitializeStatus::DwmcoreImageInvalid,
        HookResolveError::ModuleAccessFailed { .. } => InitializeStatus::DwmcoreImageAccessFailed,
        HookResolveError::ModuleImageMismatch { .. } => InitializeStatus::DwmcoreImageMismatch,
        HookResolveError::SignatureNotFound { target } => not_found_status(target),
        HookResolveError::SignatureAmbiguous { target } => ambiguous_status(target),
        HookResolveError::ConflictingPrologue { target, .. } => prologue_conflict_status(target),
    }
}

/// The status for a resolve error.
pub fn map_resolve_status(error: &HookResolveError) -> (s: InitializeStatus)
    requires
        resolve_error_has_status(*error),
    ensures
        s == resolve_status(*error),
{
    match error {
        HookResolveError::ModuleNotLoaded { .. } => InitializeStatus::DwmcoreModuleNotLoaded,
        HookResolveError::InvalidModuleImage { .. } => InitializeStatus::DwmcoreImageInvalid,
        HookResolveError::ModuleAccessFailed { .. } => InitializeStatus::DwmcoreImageAccessFailed,
        HookResolveError::ModuleImageMismatch { .. } => InitializeStatus::DwmcoreImageMismatch,
        HookResolveError::SignatureNotFound { target } => match target {
            HookTarget::Present => InitializeStatus::PresentSignatureNotFound,
            HookTarget::IsCandidateDirectFlipCompatible => InitializeStatus::DirectFlipSignatureNotFound,
            HookTarget::DirectFlipInfoEnsureIndependentFlipState => InitializeStatus::DirectFlipInfoEnsureIndependentFlipSignatureNotFound,
            HookTarget::IsDirectFlipSupportedOnTarget => InitializeStatus::IsDirectFlipSupportedOnTargetSignatureNotFound,
            HookTarget::LegacySwapChainCheckDirectFlipSupport => InitializeStatus::LegacySwapChainCheckDirectFlipSignatureNotFound,
            HookTarget::IsAdvancedDirectFlipCompatible => InitializeStatus::IsAdvancedDirectFlipCompatibleSignatureNotFound,
            HookTarget::OverlayTestMode => InitializeStatus::OverlayTestModeNotFound,
            HookTarget::DisableIndependentFlip => InitializeStatus::DisableIndependentFlipNotFound,
            HookTarget::OverlaysEnabled => InitializeStatus::DwmcoreImageInvalid,
        },
        HookResolveError::SignatureAmbiguous { target } => match target {
            HookTarget::Present => InitializeStatus::PresentSignatureAmbiguous,
            HookTarget::IsCandidateDirectFlipCompatible => InitializeStatus::DirectFlipSignatureAmbiguous,
            HookTarget::DirectFlipInfoEnsureIndependentFlipState => InitializeStatus::DirectFlipInfoEnsureIndependentFlipSignatureAmbiguous,
            HookTarget::IsDirectFlipSupportedOnTarget => InitializeStatus::IsDirectFlipSupportedOnTargetSignatureAmbiguous,
            HookTarget::LegacySwapChainCheckDirectFlipSupport => InitializeStatus::LegacySwapChainCheckDirectFlipSignatureAmbiguous,
            HookTarget::IsAdvancedDirectFlipCompatible => InitializeStatus::IsAdvancedDirectFlipCompatibleSignatureAmbiguous,
            HookTarget::OverlayTestMode => InitializeStatus::OverlayTestModeAmbiguous,
            HookTarget::DisableIndependentFlip => InitializeStatus::DisableIndependentFlipAmbiguous,
            HookTarget::OverlaysEnabled => InitializeStatus::DwmcoreImageInvalid,
        },
        HookResolveError::ConflictingPrologue { target, .. } => match target {
            HookTarget::Present => InitializeStatus::PresentPrologueConflict,
            HookTarget::IsCandidateDirectFlipCompatible => InitializeStatus::DirectFlipPrologueConflict,
            HookTarget::DirectFlipInfoEnsureIndependentFlipState => InitializeStatus::DirectFlipInfoEnsureIndependentFlipPrologueConflict,
            HookTarget::IsDirectFlipSupportedOnTarget => InitializeStatus::IsDirectFlipSupportedOnTargetPrologueConflict,
            HookTarget::LegacySwapChainCheckDirectFlipSupport => InitializeStatus::LegacySwapChainCheckDirectFlipPrologueConflict,
            HookTarget::IsAdvancedDirectFlipCompatible => InitializeStatus::IsAdvancedDirectFlipCompatiblePrologueConflict,
            HookTarget::OverlaysEnabled => InitializeStatus::OverlaysEnabledPrologueConflict,
            HookTarget::OverlayTestMode | HookTarget::DisableIndependentFlip => InitializeStatus::DwmcoreImageInvalid,
        },
    }
}

/// The status for a payload that could not be decoded at initialization.
pub open spec fn payload_initialize_status(kind: PayloadErrorKind) -> InitializeStatus {
    match kind {
        PayloadErrorKind::EmptyBuffer | PayloadErrorKind::TooLarge => InitializeStatus::InvalidPayload,
        PayloadErrorKind::NoAssignments => InitializeStatus::PayloadHasNoAssignments,
        PayloadErrorKind::Malformed => InitializeStatus::PayloadDecodeFailed,
    }
}

/// The status for a payload that could not be decoded at initialization.
pub fn map_payload_error_to_initialize_status(kind: PayloadErrorKind) -> (s: InitializeStatus)
    ensures
        s == payload_initialize_status(kind),
{
    match kind {
        PayloadErrorKind::EmptyBuffer | PayloadErrorKind::TooLarge => InitializeStatus::InvalidPayload,
        PayloadErrorKind::NoAssignments => InitializeStatus::PayloadHasNoAssignments,
        PayloadErrorKind::Malformed => InitializeStatus::PayloadDecodeFailed,
    }
}

/// The status for a payload that could not be decoded for a replacement.
pub open spec fn payload_replace_status(kind: PayloadErrorKind) -> ReplaceAssignmentsStatus {
    match kind {
        PayloadErrorKind::EmptyBuffer | PayloadErrorKind::TooLarge => ReplaceAssignmentsStatus::InvalidPayload,
        PayloadErrorKind::NoAssignments => ReplaceAssignmentsStatus::PayloadHasNoAssignments,
        PayloadErrorKind::Malformed => ReplaceAssignmentsStatus::PayloadDecodeFailed,
    }
}

/// The status for a payload that could not be decoded for a replacement.
pub fn map_payload_error_to_replace_assignments_status(kind: PayloadErrorKind) -> (s:
    ReplaceAssignmentsStatus)
    ensures
        s == payload_replace_status(kind),
{
    match kind {
        PayloadErrorKind::EmptyBuffer | PayloadErrorKind::TooLarge => ReplaceAssignmentsStatus::InvalidPayload,
        PayloadErrorKind::NoAssignments => ReplaceAssignmentsStatus::PayloadHasNoAssignments,
        PayloadErrorKind::Malformed => ReplaceAssignmentsStatus::PayloadDecodeFailed,
    }
}

/// Whether an initialization error has a status (see `resolve_error_has_status`).
pub open spec fn hook_error_has_status(error: HookError) -> bool {
    match error {
        HookError::Resolve(e) => resolve_error_has_status(e),
        _ => true,
    }
}

/// The status for an initialization error.
pub open spec fn hook_error_status(error: HookError) -> InitializeStatus {
    match error {
        HookError::AlreadyInitialized => InitializeStatus::AlreadyInitialized,
        HookError::ProfileSelect(e) => match e {
            ProfileSelectError::UnsupportedDwmcoreVersion { .. } => InitializeStatus::UnsupportedDwmcoreVersion,
            ProfileSelectError::DwmcoreModuleNotLoaded => InitializeStatus::DwmcoreModuleNotLoaded,
            ProfileSelectError::DwmcoreVersionQueryFailed => InitializeStatus::DwmcoreVersionQueryFailed,
        },
        HookError::Resolve(e) => resolve_status(e),
        HookError::Payload(kind) => payload_initialize_status(kind),
        HookError::MinHook(e) => match e.operation {
            MinHookOperation::Initialize => InitializeStatus::MinHookInitializeFailed,
            MinHookOperation::CreateHook(_) => InitializeStatus::MinHookCreateHookFailed,
            MinHookOperation::EnableHook => InitializeStatus::MinHookEnableHookFailed,
        },
    }
}

/// The status for an initialization error.
pub fn map_hook_error(error: &HookError) -> (s: InitializeStatus)
    requires
        hook_error_has_status(*error),
    ensures
        s == hook_error_status(*error),
{
    match error {
        HookError::AlreadyInitialized => InitializeStatus::AlreadyInitialized,
        HookError::ProfileSelect(e) => match e {
            ProfileSelectError::UnsupportedDwmcoreVersion { .. } => InitializeStatus::UnsupportedDwmcoreVersion,
            ProfileSelectError::DwmcoreModuleNotLoaded => InitializeStatus::DwmcoreModuleNotLoaded,
            ProfileSelectError::DwmcoreVersionQueryFailed => InitializeStatus::DwmcoreVersionQueryFailed,
        },
        HookError::Resolve(e) => map_resolve_status(e),
        HookError::Payload(kind) => map_payload_error_to_initialize_status(*kind),
        HookError::MinHook(e) => match e.operation {
            MinHookOperation::Initialize => InitializeStatus::MinHookInitializeFailed,
            MinHookOperation::CreateHook(_) => InitializeStatus::MinHookCreateHookFailed,
            MinHookOperation::EnableHook => InitializeStatus::MinHookEnableHookFailed,
        },
    }
}

/// The status for a failed replacement.
pub open spec fn replace_error_status(error: ReplaceAssignmentsError) -> ReplaceAssignmentsStatus {
    match error {
        ReplaceAssignmentsError::NotInitialized | ReplaceAssignmentsError::State(
            ReplaceLutAssignmentsError::NotInitialized,
        ) => ReplaceAssignmentsStatus::NotInitialized,
        ReplaceAssignmentsError::AlreadyInProgress => ReplaceAssignmentsStatus::AlreadyInProgress,
        ReplaceAssignmentsError::Payload(kind) => payload_replace_status(kind),
    }
}

/// The status for a failed replacement.
pub fn map_replace_assignments_error(error: &ReplaceAssignmentsError) -> (s: ReplaceAssignmentsStatus)
    ensures
        s == replace_error_status(*error),
{
    match error {
        ReplaceAssignmentsError::NotInitialized | ReplaceAssignmentsError::State(
            ReplaceLutAssignmentsError::NotInitialized,
        ) => ReplaceAssignmentsStatus::NotInitialized,
        ReplaceAssignmentsError::AlreadyInProgress => ReplaceAssignmentsStatus::AlreadyInProgress,
        ReplaceAssignmentsError::Payload(kind) => map_payload_error_to_replace_assignments_status(*kind),
    }
}

/// What shutting the hook down reports to its caller.
#[derive(Debug, Clone, Copy, PartialEq, Eq, Structural)]
pub enum ShutdownStatus {
    Success,
    AlreadyInProgress,
    AlreadyShutDown,
    MinHookDisableAllFailed,
}

/// The status a shutdown request ends with at once, or `None` where the
/// shutdown started: a request while another transition is under way is
/// already in progress, one for an inactive hook already shut down.
pub fn shutdown_refusal_status(start: &ShutdownStart) -> (s: Option<ShutdownStatus>)
    ensures
        s == match *start {
            ShutdownStart::Started(_) => None,
            ShutdownStart::InitializationInProgress
            | ShutdownStart::AssignmentReplacementInProgress
            | ShutdownStart::ShutdownInProgress => Some(ShutdownStatus::AlreadyInProgress),
            ShutdownStart::AlreadyInactive => Some(ShutdownStatus::AlreadyShutDown),
        },
{
    match start {
        ShutdownStart::Started(_) => None,
        ShutdownStart::InitializationInProgress
        | ShutdownStart::AssignmentReplacementInProgress
        | ShutdownStart::ShutdownInProgress => Some(ShutdownStatus::AlreadyInProgress),
        ShutdownStart::AlreadyInactive => Some(ShutdownStatus::AlreadyShutDown),
    }
}

/// The status of a started shutdown: it succeeds when there was no hook
/// runtime left to deactivate or when disabling every hook succeeded.
pub fn shutdown_finished_status(runtime_present: bool, disable_all_succeeded: bool) -> (s:
    ShutdownStatus)
    ensures
        s == if !runtime_present || disable_all_succeeded {
            ShutdownStatus::Success
        } else {
            ShutdownStatus::MinHookDisableAllFailed
        },
{
    if !runtime_present || disable_all_succeeded {
        ShutdownStatus::Success
    } else {
        ShutdownStatus::MinHookDisableAllFailed
    }
}

/// Every resolve failure of a hook function is reported with a status of
/// its own: two failures of the same kind for different functions, or of
/// different kinds, never share a status.
pub proof fn lemma_function_resolve_statuses_are_distinct(a: HookResolveError, b: HookResolveError)
    requires
        resolve_error_has_status(a),
        resolve_error_has_status(b),
        a matches HookResolveError::SignatureNotFound { .. } || a matches HookResolveError::SignatureAmbiguous { .. } || a matches HookResolveError::ConflictingPrologue { .. },
        b matches HookResolveError::SignatureNotFound { .. } || b matches HookResolveError::SignatureAmbiguous { .. } || b matches HookResolveError::ConflictingPrologue { .. },
        resolve_status(a) == resolve_status(b),
        resolve_status(a) != InitializeStatus::DwmcoreImageInvalid,
    ensures
        a matches HookResolveError::SignatureNotFound { target: ta } ==> b matches HookResolveError::SignatureNotFound { target: tb } && ta == tb,
        a matches HookResolveError::SignatureAmbiguous { target: ta } ==> b matches HookResolveError::SignatureAmbiguous { target: tb } && ta == tb,
        a matches HookResolveError::ConflictingPrologue { target: ta, .. } ==> b matches HookResolveError::ConflictingPrologue { target: tb, .. } && ta == tb,
{
}

} // verus!
