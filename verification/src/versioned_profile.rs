use vstd::prelude::*;

use crate::text::{decimal_digits, push_decimal, push_str, string_from_chars};

verus! {

/// The module whose functions are hooked.
pub const HOOK_MODULE_NAME: &'static str = "dwmcore.dll";

/// The build and revision parts of dwmcore.dll's file version (10.0.build.revision).
#[derive(Debug, Clone, Copy, PartialEq, Eq, Structural, PartialOrd, Ord)]
pub struct DwmcoreVersion {
    pub build: u32,
    pub revision: u32,
}

/// Version order: by build, then revision.
pub open spec fn version_le(a: DwmcoreVersion, b: DwmcoreVersion) -> bool {
    a.build < b.build || (a.build == b.build && a.revision <= b.revision)
}

pub open spec fn version_lt(a: DwmcoreVersion, b: DwmcoreVersion) -> bool {
    a.build < b.build || (a.build == b.build && a.revision < b.revision)
}

impl DwmcoreVersion {
    /// Whether `self` is at most `other` in version order.
    pub fn le(&self, other: &DwmcoreVersion) -> (r: bool)
        ensures
            r == version_le(*self, *other),
    {
        self.build < other.build || (self.build == other.build && self.revision <= other.revision)
    }

    /// The `build.revision` text of the version.
    pub fn to_text(&self) -> (s: String)
        ensures
            s@ == decimal_digits(self.build as nat) + seq!['.'] + decimal_digits(
                self.revision as nat,
            ),
    {
        let mut out: Vec<char> = Vec::new();
        push_decimal(&mut out, self.build as u64);
        out.push('.');
        push_decimal(&mut out, self.revision as u64);
        string_from_chars(&out)
    }
}

/// A hook profile and the lowest dwmcore.dll version it applies to.
#[derive(Debug, Clone, Copy, PartialEq, Eq, Structural)]
pub struct VersionedProfile {
    pub min_version: DwmcoreVersion,
}

/// Why no hook profile could be chosen.
#[derive(Debug, Clone, Copy, PartialEq, Eq, Structural)]
pub enum ProfileSelectError {
    UnsupportedDwmcoreVersion { version: DwmcoreVersion },
    DwmcoreModuleNotLoaded,
    DwmcoreVersionQueryFailed,
}

impl ProfileSelectError {
    /// The error's description.
    pub fn describe(&self) -> (s: String)
        ensures
            s@ == match *self {
                ProfileSelectError::UnsupportedDwmcoreVersion { version } => "dwmcore.dll FileVersion 10.0."@
                    + decimal_digits(version.build as nat) + seq!['.'] + decimal_digits(
                    version.revision as nat,
                ) + " is below the minimum supported hook profile"@,
                ProfileSelectError::DwmcoreModuleNotLoaded => "dwmcore.dll was not loaded in the target"@,
                ProfileSelectError::DwmcoreVersionQueryFailed => "failed to query dwmcore.dll FileVersion"@,
            },
    {
        let mut out: Vec<char> = Vec::new();
        match *self {
            ProfileSelectError::UnsupportedDwmcoreVersion { version } => {
                push_str(&mut out, "dwmcore.dll FileVersion 10.0.");
                push_decimal(&mut out, version.build as u64);
                out.push('.');
                push_decimal(&mut out, version.revision as u64);
                push_str(&mut out, " is below the minimum supported hook profile");
            },
            ProfileSelectError::DwmcoreModuleNotLoaded => {
                push_str(&mut out, "dwmcore.dll was not loaded in the target");
            },
            ProfileSelectError::DwmcoreVersionQueryFailed => {
                push_str(&mut out, "failed to query dwmcore.dll FileVersion");
            },
        }
        string_from_chars(&out)
    }
}

/// Why dwmcore.dll's file version could not be read.
#[derive(Debug, Clone, Copy, PartialEq, Eq, Structural)]
pub enum DwmcoreVersionError {
    ModuleNotLoaded,
    QueryFailed,
}

impl DwmcoreVersionError {
    /// The error's description.
    pub fn message(self) -> (s: &'static str)
        ensures
            s@ == match self {
                DwmcoreVersionError::ModuleNotLoaded => "dwmcore.dll was not loaded in the target"@,
                DwmcoreVersionError::QueryFailed => "failed to query dwmcore.dll FileVersion"@,
            },
    {
        match self {
            DwmcoreVersionError::ModuleNotLoaded => "dwmcore.dll was not loaded in the target",
            DwmcoreVersionError::QueryFailed => "failed to query dwmcore.dll FileVersion",
        }
    }
}

/// Signature of a `VS_FIXEDFILEINFO` block.
pub const FIXED_FILE_INFO_SIGNATURE: u32 = 0xFEEF_04BD;

/// The version that a `VS_FIXEDFILEINFO` block states: refused unless the
/// block's signature is right; build is the high and revision the low 16
/// bits of the least significant file-version word.
pub fn version_from_fixed_file_info(signature: u32, file_version_ls: u32) -> (r: Result<
    DwmcoreVersion,
    DwmcoreVersionError,
>)
    ensures
        signature != FIXED_FILE_INFO_SIGNATURE ==> r == Err::<DwmcoreVersion, _>(
            DwmcoreVersionError::QueryFailed,
        ),
        signature == FIXED_FILE_INFO_SIGNATURE ==> r == Ok::<_, DwmcoreVersionError>(
            DwmcoreVersion { build: file_version_ls / 0x10000, revision: file_version_ls % 0x10000 },
        ),
{
    if signature != FIXED_FILE_INFO_SIGNATURE {
        return Err(DwmcoreVersionError::QueryFailed);
    }
    let build = file_version_ls >> 16;
    let revision = file_version_ls & 0xFFFF;
    assert(build == file_version_ls / 0x10000) by (bit_vector)
        requires
            build == file_version_ls >> 16,
    ;
    assert(revision == file_version_ls % 0x10000) by (bit_vector)
        requires
            revision == file_version_ls & 0xFFFF,
    ;
    Ok(DwmcoreVersion { build, revision })
}

/// The registered profiles, oldest first.
pub open spec fn registered_profiles() -> Seq<VersionedProfile> {
    seq![
        VersionedProfile { min_version: DwmcoreVersion { build: 26100, revision: 1 } },
        VersionedProfile { min_version: DwmcoreVersion { build: 26100, revision: 1591 } },
        VersionedProfile { min_version: DwmcoreVersion { build: 26100, revision: 2161 } },
        VersionedProfile { min_version: DwmcoreVersion { build: 26100, revision: 2454 } },
        VersionedProfile { min_version: DwmcoreVersion { build: 26100, revision: 3912 } },
        VersionedProfile { min_version: DwmcoreVersion { build: 26100, revision: 4484 } },
        VersionedProfile { min_version: DwmcoreVersion { build: 26100, revision: 7309 } },
        VersionedProfile { min_version: DwmcoreVersion { build: 26100, revision: 7705 } },
        VersionedProfile { min_version: DwmcoreVersion { build: 26100, revision: 8737 } },
    ]
}

/// Whether versions are strictly ascending.
pub open spec fn strictly_ascending(s: Seq<VersionedProfile>) -> bool {
    forall|i: int, j: int|
        0 <= i < j < s.len() ==> version_lt(#[trigger] s[i].min_version, #[trigger] s[j].min_version)
}

/// The registered profiles, by ascending minimum version.
pub fn versioned_profiles() -> (v: Vec<VersionedProfile>)
    ensures
        v@ == registered_profiles(),
        strictly_ascending(v@),
{
    let v = vec![
        VersionedProfile { min_version: DwmcoreVersion { build: 26100, revision: 1 } },
        VersionedProfile { min_version: DwmcoreVersion { build: 26100, revision: 1591 } },
        VersionedProfile { min_version: DwmcoreVersion { build: 26100, revision: 2161 } },
        VersionedProfile { min_version: DwmcoreVersion { build: 26100, revision: 2454 } },
        VersionedProfile { min_version: DwmcoreVersion { build: 26100, revision: 3912 } },
        VersionedProfile { min_version: DwmcoreVersion { build: 26100, revision: 4484 } },
        VersionedProfile { min_version: DwmcoreVersion { build: 26100, revision: 7309 } },
        VersionedProfile { min_version: DwmcoreVersion { build: 26100, revision: 7705 } },
        VersionedProfile { min_version: DwmcoreVersion { build: 26100, revision: 8737 } },
    ];
    assert(v@ =~= registered_profiles());
    v
}

/// The profile to use for `version` among `profiles`: the one with the
/// highest minimum version that is at most `version`.
pub open spec fn selected_profile(profiles: Seq<VersionedProfile>, version: DwmcoreVersion, i: int) -> bool {
    &&& 0 <= i < profiles.len()
    &&& version_le(profiles[i].min_version, version)
    &&& forall|j: int|
        0 <= j < profiles.len() && version_le(#[trigger] profiles[j].min_version, version)
            ==> version_le(profiles[j].min_version, profiles[i].min_version)
}

/// Chooses, among strictly ascending `profiles`, the one with the highest
/// minimum version not above `version`; refuses versions below every profile.
pub fn select_profile_from(profiles: &Vec<VersionedProfile>, version: DwmcoreVersion) -> (r: Result<
    VersionedProfile,
    ProfileSelectError,
>)
    requires
        strictly_ascending(profiles@),
    ensures
        match r {
            Ok(p) => exists|i: int| #[trigger]
                selected_profile(profiles@, version, i) && profiles@[i] == p,
            Err(e) => e == ProfileSelectError::UnsupportedDwmcoreVersion { version } && forall|j: int|
                0 <= j < profiles@.len() ==> !version_le(#[trigger] profiles@[j].min_version, version),
        },
{
    let mut best: Option<usize> = None;
    let mut i: usize = 0;
    while i < profiles.len()
        invariant
            i <= profiles@.len(),
            strictly_ascending(profiles@),
            match best {
                Some(b) => b < i && version_le(profiles@[b as int].min_version, version) && forall|j: int|
                    0 <= j < i && version_le(#[trigger] profiles@[j].min_version, version) ==> j <= b,
                None => forall|j: int|
                    0 <= j < i ==> !version_le(#[trigger] profiles@[j].min_version, version),
            },
        decreases profiles@.len() - i,
    {
        if profiles[i].min_version.le(&version) {
            best = Some(i);
        }
        i = i + 1;
    }
    match best {
        None => Err(ProfileSelectError::UnsupportedDwmcoreVersion { version }),
        Some(b) => {
            proof {
                assert forall|j: int|
                    0 <= j < profiles@.len() && version_le(#[trigger] profiles@[j].min_version, version)
                    implies version_le(profiles@[j].min_version, profiles@[b as int].min_version) by {
                    if j < b {
                        assert(version_lt(profiles@[j].min_version, profiles@[b as int].min_version));
                    }
                }
                assert(selected_profile(profiles@, version, b as int));
            }
            Ok(profiles[b])
        },
    }
}

/// Chooses the registered profile for a dwmcore.dll version: the one with the
/// highest minimum version not above it.
pub fn select_versioned_profile(version: DwmcoreVersion) -> (r: Result<
    VersionedProfile,
    ProfileSelectError,
>)
    ensures
        match r {
            Ok(p) => exists|i: int| #[trigger]
                selected_profile(registered_profiles(), version, i) && registered_profiles()[i] == p,
            Err(e) => e == ProfileSelectError::UnsupportedDwmcoreVersion { version } && forall|j: int|
                0 <= j < registered_profiles().len() ==> !version_le(
                    #[trigger] registered_profiles()[j].min_version,
                    version,
                ),
        },
{
    let profiles = versioned_profiles();
    select_profile_from(&profiles, version)
}

/// A function or global the hook locates in dwmcore.dll.
#[derive(Debug, Clone, Copy, PartialEq, Eq, Structural)]
pub enum HookTarget {
    Present,
    IsCandidateDirectFlipCompatible,
    DirectFlipInfoEnsureIndependentFlipState,
    IsDirectFlipSupportedOnTarget,
    LegacySwapChainCheckDirectFlipSupport,
    IsAdvancedDirectFlipCompatible,
    OverlayTestMode,
    DisableIndependentFlip,
    OverlaysEnabled,
}

impl HookTarget {
    /// The target's name in logs and reports.
    pub fn label(self) -> (s: &'static str)
        ensures
            s@ == hook_target_label(self),
    {
        match self {
            HookTarget::Present => "Present",
            HookTarget::IsCandidateDirectFlipCompatible => "IsCandidateDirectFlipCompatible",
            HookTarget::DirectFlipInfoEnsureIndependentFlipState => "CDirectFlipInfo::EnsureIndependentFlipState",
            HookTarget::IsDirectFlipSupportedOnTarget => "COverlayContext::IsDirectFlipSupportedOnTarget",
            HookTarget::LegacySwapChainCheckDirectFlipSupport => "CLegacySwapChain::CheckDirectFlipSupport",
            HookTarget::IsAdvancedDirectFlipCompatible => "CGlobalCompositionSurfaceInfo::IsAdvancedDirectFlipCompatible",
            HookTarget::OverlayTestMode => "OverlayTestMode",
            HookTarget::DisableIndependentFlip => "DisableIndependentFlip",
            HookTarget::OverlaysEnabled => "COverlayContext::OverlaysEnabled",
        }
    }

    /// Whether the target is a function to detour (the others are globals).
    pub fn is_function_hook_target(self) -> (r: bool)
        ensures
            r == !(self == HookTarget::OverlayTestMode || self == HookTarget::DisableIndependentFlip),
    {
        match self {
            HookTarget::OverlayTestMode | HookTarget::DisableIndependentFlip => false,
            _ => true,
        }
    }

    /// Whether hooking cannot go on without this target.
    pub fn is_required_signature(self) -> (r: bool)
        ensures
            r == (self == HookTarget::Present || self == HookTarget::OverlayTestMode),
    {
        match self {
            HookTarget::Present | HookTarget::OverlayTestMode => true,
            _ => false,
        }
    }
}

pub open spec fn hook_target_label(t: HookTarget) -> Seq<char> {
    match t {
        HookTarget::Present => "Present"@,
        HookTarget::IsCandidateDirectFlipCompatible => "IsCandidateDirectFlipCompatible"@,
        HookTarget::DirectFlipInfoEnsureIndependentFlipState => "CDirectFlipInfo::EnsureIndependentFlipState"@,
        HookTarget::IsDirectFlipSupportedOnTarget => "COverlayContext::IsDirectFlipSupportedOnTarget"@,
        HookTarget::LegacySwapChainCheckDirectFlipSupport => "CLegacySwapChain::CheckDirectFlipSupport"@,
        HookTarget::IsAdvancedDirectFlipCompatible => "CGlobalCompositionSurfaceInfo::IsAdvancedDirectFlipCompatible"@,
        HookTarget::OverlayTestMode => "OverlayTestMode"@,
        HookTarget::DisableIndependentFlip => "DisableIndependentFlip"@,
        HookTarget::OverlaysEnabled => "COverlayContext::OverlaysEnabled"@,
    }
}

/// One byte of a byte pattern: a fixed value or any value.
#[derive(Debug, Clone, Copy, PartialEq, Eq, Structural)]
pub enum AobToken {
    Exact(u8),
    Wildcard,
}

/// How a target is found in the module image.
#[derive(Debug, Clone, PartialEq, Eq)]
pub enum SignatureLocator {
    Aob { tokens: Vec<AobToken> },
    RipRelativeGlobalAob {
        tokens: Vec<AobToken>,
        displacement_offset: usize,
        instruction_size: usize,
    },
}

/// A target and how to find it.
#[derive(Debug, Clone, PartialEq, Eq)]
pub struct HookSignature {
    pub target: HookTarget,
    pub locator: SignatureLocator,
}

/// The vtable calls from an overlay swap chain to its back-buffer resource.
#[derive(Debug, Clone, Copy, PartialEq, Eq, Structural)]
pub struct SwapChainVtablePath {
    pub container_vtable_index: usize,
    pub resource_vtable_index: usize,
}

/// Where an overlay swap chain keeps its monitor's adapter LUID and target id.
#[derive(Debug, Clone, Copy, PartialEq, Eq, Structural)]
pub struct MonitorIdentityOffsets {
    pub adapter_luid_low_offset: usize,
    pub adapter_luid_high_offset: usize,
    pub target_id_offset: usize,
}

/// What the hook needs to know about one dwmcore.dll build.
#[derive(Debug, Clone, PartialEq, Eq)]
pub struct HookProfile {
    pub signatures: Vec<HookSignature>,
    pub swap_chain: SwapChainVtablePath,
    pub hardware_protected_offset: usize,
    pub monitor_identity: MonitorIdentityOffsets,
}

} // verus!
