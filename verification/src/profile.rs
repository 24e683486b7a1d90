use vstd::prelude::*;

verus! {

/// The Windows builds a hook profile exists for.
#[derive(Debug, Clone, Copy, PartialEq, Eq, Structural)]
pub enum BuildProfile {
    Windows11_25H2,
}

/// A function or global the hook locates in dwmcore.dll.
#[derive(Debug, Clone, Copy, PartialEq, Eq, Structural)]
pub enum HookTarget {
    Present,
    IsCandidateDirectFlipCompatible,
    OverlaysEnabled,
    WindowContextIsCandidateDirectFlipCompatible,
    CompSwapChainIsCandidateDirectFlipCompatible,
    CompSwapChainIsCandidateIndependentFlipCompatible,
    CompVisualIsCandidateForPromotion,
    OverlayTestMode,
}

pub open spec fn hook_target_label(t: HookTarget) -> Seq<char> {
    match t {
        HookTarget::Present => "Present"@,
        HookTarget::IsCandidateDirectFlipCompatible => "IsCandidateDirectFlipCompatible"@,
        HookTarget::OverlaysEnabled => "OverlaysEnabled"@,
        HookTarget::WindowContextIsCandidateDirectFlipCompatible => "CWindowContext::IsCandidateDirectFlipCompatible"@,
        HookTarget::CompSwapChainIsCandidateDirectFlipCompatible => "CCompSwapChain::IsCandidateDirectFlipCompatible"@,
        HookTarget::CompSwapChainIsCandidateIndependentFlipCompatible => "CCompSwapChain::IsCandidateIndependentFlipCompatible"@,
        HookTarget::CompVisualIsCandidateForPromotion => "CCompVisual::IsCandidateForPromotion"@,
        HookTarget::OverlayTestMode => "OverlayTestMode"@,
    }
}

impl HookTarget {
    /// The target's name in logs and reports.
    pub fn label(self) -> (s: &'static str)
        ensures
            s@ == hook_target_label(self),
    {
        match self {
            HookTarget::Present => "Present",
            HookTarget::IsCandidateDirectFlipCompatible => "IsCandidateDirectFlipCompatible",
            HookTarget::OverlaysEnabled => "OverlaysEnabled",
            HookTarget::WindowContextIsCandidateDirectFlipCompatible => "CWindowContext::IsCandidateDirectFlipCompatible",
            HookTarget::CompSwapChainIsCandidateDirectFlipCompatible => "CCompSwapChain::IsCandidateDirectFlipCompatible",
            HookTarget::CompSwapChainIsCandidateIndependentFlipCompatible => "CCompSwapChain::IsCandidateIndependentFlipCompatible",
            HookTarget::CompVisualIsCandidateForPromotion => "CCompVisual::IsCandidateForPromotion",
            HookTarget::OverlayTestMode => "OverlayTestMode",
        }
    }

    /// Whether the target is a function to detour (`OverlayTestMode` is a global).
    pub fn is_function_hook_target(self) -> (r: bool)
        ensures
            r == (self != HookTarget::OverlayTestMode),
    {
        match self {
            HookTarget::OverlayTestMode => false,
            _ => true,
        }
    }
}

/// One byte of a byte pattern: a fixed value or any value.
#[derive(Debug, Clone, Copy, PartialEq, Eq, Structural)]
pub enum AobToken {
    Exact(u8),
    Wildcard,
}

/// How a target is found in a module image.
#[derive(Debug, Clone, PartialEq, Eq)]
pub enum SignatureLocator {
    Aob { module_name: &'static str, capture_key: &'static str, tokens: Vec<AobToken> },
    AobExcludingFollowingBytes {
        module_name: &'static str,
        capture_key: &'static str,
        tokens: Vec<AobToken>,
        excluded_following: Vec<Vec<u8>>,
    },
    RipRelativeGlobalAob {
        module_name: &'static str,
        capture_key: &'static str,
        tokens: Vec<AobToken>,
        displacement_offset: usize,
        instruction_size: usize,
    },
    FollowingAob {
        module_name: &'static str,
        capture_key: &'static str,
        anchor_tokens: Vec<AobToken>,
        tokens: Vec<AobToken>,
        search_range: usize,
    },
}

/// A target, how to find it, and why the pattern is believed to match.
#[derive(Debug, Clone, PartialEq, Eq)]
pub struct HookSignature {
    pub target: HookTarget,
    pub locator: SignatureLocator,
    pub note: &'static str,
}

/// The assumed vtable path from an overlay swap chain to its back buffer.
#[derive(Debug, Clone, Copy, PartialEq, Eq)]
pub struct SwapChainPathHypothesis {
    pub accessor_key: &'static str,
    pub container_vtable_index: usize,
    pub resource_vtable_index: usize,
    pub note: &'static str,
}

/// The object that holds the clip box.
#[derive(Debug, Clone, Copy, PartialEq, Eq, Structural)]
pub enum ClipBoxOwner {
    OverlayContextStateObject,
}

/// The assumed location of the clip box.
#[derive(Debug, Clone, Copy, PartialEq, Eq)]
pub struct ClipBoxPathHypothesis {
    pub accessor_key: &'static str,
    pub owner: ClipBoxOwner,
    pub context_state_pointer_offset: usize,
    pub offset: usize,
    pub note: &'static str,
}

/// The assumed location of the hardware-protected flag.
#[derive(Debug, Clone, Copy, PartialEq, Eq)]
pub struct HardwareProtectedPathHypothesis {
    pub accessor_key: &'static str,
    pub offset: usize,
    pub note: &'static str,
}

/// The memory-layout assumptions of a profile.
#[derive(Debug, Clone, Copy, PartialEq, Eq)]
pub struct ProfileHypotheses {
    pub swap_chain: SwapChainPathHypothesis,
    pub clip_box: ClipBoxPathHypothesis,
    pub hardware_protected: HardwareProtectedPathHypothesis,
}

/// What the hook needs to know about one Windows build.
#[derive(Debug, Clone, PartialEq, Eq)]
pub struct HookProfile {
    pub build: BuildProfile,
    pub module_name: &'static str,
    pub signatures: Vec<HookSignature>,
    pub hypotheses: ProfileHypotheses,
}

pub open spec fn present_aob_spec() -> Seq<AobToken> {
    seq![
        AobToken::Exact(0x40),
        AobToken::Exact(0x55),
        AobToken::Exact(0x53),
        AobToken::Exact(0x56),
        AobToken::Exact(0x57),
        AobToken::Exact(0x41),
        AobToken::Exact(0x54),
        AobToken::Exact(0x41),
        AobToken::Exact(0x55),
        AobToken::Exact(0x41),
        AobToken::Exact(0x56),
        AobToken::Exact(0x41),
        AobToken::Exact(0x57),
        AobToken::Exact(0x48),
        AobToken::Exact(0x8D),
        AobToken::Exact(0x6C),
        AobToken::Exact(0x24),
        AobToken::Exact(0xF9),
        AobToken::Exact(0x48),
        AobToken::Exact(0x81),
        AobToken::Exact(0xEC),
        AobToken::Exact(0xF8),
        AobToken::Exact(0x00),
        AobToken::Exact(0x00),
        AobToken::Exact(0x00),
        AobToken::Exact(0x48),
        AobToken::Exact(0x8B),
        AobToken::Exact(0x05),
        AobToken::Wildcard,
        AobToken::Wildcard,
        AobToken::Wildcard,
        AobToken::Wildcard,
        AobToken::Exact(0x48),
        AobToken::Exact(0x33),
        AobToken::Exact(0xC4),
        AobToken::Exact(0x48),
        AobToken::Exact(0x89),
        AobToken::Exact(0x45),
        AobToken::Exact(0xEF),
        AobToken::Exact(0x4C),
        AobToken::Exact(0x8B),
        AobToken::Exact(0x65),
        AobToken::Wildcard,
        AobToken::Exact(0x48),
        AobToken::Exact(0x8B),
        AobToken::Exact(0xD9),
    ]
}

fn present_aob() -> (v: Vec<AobToken>)
    ensures
        v@ == present_aob_spec(),
{
    let v = vec![
        AobToken::Exact(0x40),
        AobToken::Exact(0x55),
        AobToken::Exact(0x53),
        AobToken::Exact(0x56),
        AobToken::Exact(0x57),
        AobToken::Exact(0x41),
        AobToken::Exact(0x54),
        AobToken::Exact(0x41),
        AobToken::Exact(0x55),
        AobToken::Exact(0x41),
        AobToken::Exact(0x56),
        AobToken::Exact(0x41),
        AobToken::Exact(0x57),
        AobToken::Exact(0x48),
        AobToken::Exact(0x8D),
        AobToken::Exact(0x6C),
        AobToken::Exact(0x24),
        AobToken::Exact(0xF9),
        AobToken::Exact(0x48),
        AobToken::Exact(0x81),
        AobToken::Exact(0xEC),
        AobToken::Exact(0xF8),
        AobToken::Exact(0x00),
        AobToken::Exact(0x00),
        AobToken::Exact(0x00),
        AobToken::Exact(0x48),
        AobToken::Exact(0x8B),
        AobToken::Exact(0x05),
        AobToken::Wildcard,
        AobToken::Wildcard,
        AobToken::Wildcard,
        AobToken::Wildcard,
        AobToken::Exact(0x48),
        AobToken::Exact(0x33),
        AobToken::Exact(0xC4),
        AobToken::Exact(0x48),
        AobToken::Exact(0x89),
        AobToken::Exact(0x45),
        AobToken::Exact(0xEF),
        AobToken::Exact(0x4C),
        AobToken::Exact(0x8B),
        AobToken::Exact(0x65),
        AobToken::Wildcard,
        AobToken::Exact(0x48),
        AobToken::Exact(0x8B),
        AobToken::Exact(0xD9),
    ];
    assert(v@ =~= present_aob_spec());
    v
}

pub open spec fn direct_flip_aob_spec() -> Seq<AobToken> {
    seq![
        AobToken::Exact(0x48),
        AobToken::Exact(0x8B),
        AobToken::Exact(0xC4),
        AobToken::Exact(0x48),
        AobToken::Exact(0x89),
        AobToken::Exact(0x58),
        AobToken::Exact(0x08),
        AobToken::Exact(0x48),
        AobToken::Exact(0x89),
        AobToken::Exact(0x68),
        AobToken::Exact(0x10),
        AobToken::Exact(0x48),
        AobToken::Exact(0x89),
        AobToken::Exact(0x70),
        AobToken::Exact(0x18),
        AobToken::Exact(0x48),
        AobToken::Exact(0x89),
        AobToken::Exact(0x78),
        AobToken::Exact(0x20),
        AobToken::Exact(0x41),
        AobToken::Exact(0x56),
        AobToken::Exact(0x48),
        AobToken::Exact(0x83),
        AobToken::Exact(0xEC),
        AobToken::Exact(0x20),
        AobToken::Exact(0x33),
        AobToken::Exact(0xDB),
    ]
}

fn direct_flip_aob() -> (v: Vec<AobToken>)
    ensures
        v@ == direct_flip_aob_spec(),
{
    let v = vec![
        AobToken::Exact(0x48),
        AobToken::Exact(0x8B),
        AobToken::Exact(0xC4),
        AobToken::Exact(0x48),
        AobToken::Exact(0x89),
        AobToken::Exact(0x58),
        AobToken::Exact(0x08),
        AobToken::Exact(0x48),
        AobToken::Exact(0x89),
        AobToken::Exact(0x68),
        AobToken::Exact(0x10),
        AobToken::Exact(0x48),
        AobToken::Exact(0x89),
        AobToken::Exact(0x70),
        AobToken::Exact(0x18),
        AobToken::Exact(0x48),
        AobToken::Exact(0x89),
        AobToken::Exact(0x78),
        AobToken::Exact(0x20),
        AobToken::Exact(0x41),
        AobToken::Exact(0x56),
        AobToken::Exact(0x48),
        AobToken::Exact(0x83),
        AobToken::Exact(0xEC),
        AobToken::Exact(0x20),
        AobToken::Exact(0x33),
        AobToken::Exact(0xDB),
    ];
    assert(v@ =~= direct_flip_aob_spec());
    v
}

pub open spec fn overlays_enabled_aob_spec() -> Seq<AobToken> {
    seq![
        AobToken::Exact(0x83),
        AobToken::Exact(0x3D),
        AobToken::Wildcard,
        AobToken::Wildcard,
        AobToken::Wildcard,
        AobToken::Wildcard,
        AobToken::Exact(0x05),
        AobToken::Exact(0x74),
        AobToken::Exact(0x09),
        AobToken::Exact(0x83),
        AobToken::Exact(0x79),
        AobToken::Exact(0x28),
        AobToken::Exact(0x01),
        AobToken::Exact(0x0F),
        AobToken::Exact(0x97),
        AobToken::Exact(0xC0),
        AobToken::Exact(0xC3),
    ]
}

fn overlays_enabled_aob() -> (v: Vec<AobToken>)
    ensures
        v@ == overlays_enabled_aob_spec(),
{
    let v = vec![
        AobToken::Exact(0x83),
        AobToken::Exact(0x3D),
        AobToken::Wildcard,
        AobToken::Wildcard,
        AobToken::Wildcard,
        AobToken::Wildcard,
        AobToken::Exact(0x05),
        AobToken::Exact(0x74),
        AobToken::Exact(0x09),
        AobToken::Exact(0x83),
        AobToken::Exact(0x79),
        AobToken::Exact(0x28),
        AobToken::Exact(0x01),
        AobToken::Exact(0x0F),
        AobToken::Exact(0x97),
        AobToken::Exact(0xC0),
        AobToken::Exact(0xC3),
    ];
    assert(v@ =~= overlays_enabled_aob_spec());
    v
}

pub open spec fn window_context_direct_flip_aob_spec() -> Seq<AobToken> {
    seq![
        AobToken::Exact(0x48),
        AobToken::Exact(0x89),
        AobToken::Exact(0x5C),
        AobToken::Exact(0x24),
        AobToken::Exact(0x08),
        AobToken::Exact(0x48),
        AobToken::Exact(0x89),
        AobToken::Exact(0x74),
        AobToken::Exact(0x24),
        AobToken::Exact(0x10),
        AobToken::Exact(0x57),
        AobToken::Exact(0x48),
        AobToken::Exact(0x83),
        AobToken::Exact(0xEC),
        AobToken::Exact(0x20),
        AobToken::Exact(0x41),
        AobToken::Exact(0x8B),
        AobToken::Exact(0xD9),
        AobToken::Exact(0x48),
        AobToken::Exact(0x8B),
        AobToken::Exact(0xF2),
        AobToken::Exact(0x4C),
        AobToken::Exact(0x8B),
        AobToken::Exact(0x01),
        AobToken::Exact(0x48),
        AobToken::Exact(0x8B),
        AobToken::Exact(0xF9),
    ]
}

fn window_context_direct_flip_aob() -> (v: Vec<AobToken>)
    ensures
        v@ == window_context_direct_flip_aob_spec(),
{
    let v = vec![
        AobToken::Exact(0x48),
        AobToken::Exact(0x89),
        AobToken::Exact(0x5C),
        AobToken::Exact(0x24),
        AobToken::Exact(0x08),
        AobToken::Exact(0x48),
        AobToken::Exact(0x89),
        AobToken::Exact(0x74),
        AobToken::Exact(0x24),
        AobToken::Exact(0x10),
        AobToken::Exact(0x57),
        AobToken::Exact(0x48),
        AobToken::Exact(0x83),
        AobToken::Exact(0xEC),
        AobToken::Exact(0x20),
        AobToken::Exact(0x41),
        AobToken::Exact(0x8B),
        AobToken::Exact(0xD9),
        AobToken::Exact(0x48),
        AobToken::Exact(0x8B),
        AobToken::Exact(0xF2),
        AobToken::Exact(0x4C),
        AobToken::Exact(0x8B),
        AobToken::Exact(0x01),
        AobToken::Exact(0x48),
        AobToken::Exact(0x8B),
        AobToken::Exact(0xF9),
    ];
    assert(v@ =~= window_context_direct_flip_aob_spec());
    v
}

pub open spec fn comp_swap_chain_direct_flip_aob_spec() -> Seq<AobToken> {
    seq![
        AobToken::Exact(0x48),
        AobToken::Exact(0x8B),
        AobToken::Exact(0xC4),
        AobToken::Exact(0x48),
        AobToken::Exact(0x89),
        AobToken::Exact(0x58),
        AobToken::Exact(0x08),
        AobToken::Exact(0x48),
        AobToken::Exact(0x89),
        AobToken::Exact(0x68),
        AobToken::Exact(0x10),
        AobToken::Exact(0x48),
        AobToken::Exact(0x89),
        AobToken::Exact(0x70),
        AobToken::Exact(0x18),
        AobToken::Exact(0x48),
        AobToken::Exact(0x89),
        AobToken::Exact(0x78),
        AobToken::Exact(0x20),
        AobToken::Exact(0x41),
        AobToken::Exact(0x56),
        AobToken::Exact(0x48),
        AobToken::Exact(0x83),
        AobToken::Exact(0xEC),
        AobToken::Exact(0x20),
        AobToken::Exact(0x33),
        AobToken::Exact(0xDB),
        AobToken::Exact(0x41),
        AobToken::Exact(0x8B),
        AobToken::Exact(0xF0),
    ]
}

fn comp_swap_chain_direct_flip_aob() -> (v: Vec<AobToken>)
    ensures
        v@ == comp_swap_chain_direct_flip_aob_spec(),
{
    let v = vec![
        AobToken::Exact(0x48),
        AobToken::Exact(0x8B),
        AobToken::Exact(0xC4),
        AobToken::Exact(0x48),
        AobToken::Exact(0x89),
        AobToken::Exact(0x58),
        AobToken::Exact(0x08),
        AobToken::Exact(0x48),
        AobToken::Exact(0x89),
        AobToken::Exact(0x68),
        AobToken::Exact(0x10),
        AobToken::Exact(0x48),
        AobToken::Exact(0x89),
        AobToken::Exact(0x70),
        AobToken::Exact(0x18),
        AobToken::Exact(0x48),
        AobToken::Exact(0x89),
        AobToken::Exact(0x78),
        AobToken::Exact(0x20),
        AobToken::Exact(0x41),
        AobToken::Exact(0x56),
        AobToken::Exact(0x48),
        AobToken::Exact(0x83),
        AobToken::Exact(0xEC),
        AobToken::Exact(0x20),
        AobToken::Exact(0x33),
        AobToken::Exact(0xDB),
        AobToken::Exact(0x41),
        AobToken::Exact(0x8B),
        AobToken::Exact(0xF0),
    ];
    assert(v@ =~= comp_swap_chain_direct_flip_aob_spec());
    v
}

pub open spec fn comp_visual_promotion_aob_spec() -> Seq<AobToken> {
    seq![
        AobToken::Exact(0x48),
        AobToken::Exact(0x89),
        AobToken::Exact(0x5C),
        AobToken::Exact(0x24),
        AobToken::Exact(0x10),
        AobToken::Exact(0x48),
        AobToken::Exact(0x89),
        AobToken::Exact(0x74),
        AobToken::Exact(0x24),
        AobToken::Exact(0x18),
        AobToken::Exact(0x57),
        AobToken::Exact(0x48),
        AobToken::Exact(0x83),
        AobToken::Exact(0xEC),
        AobToken::Exact(0x20),
        AobToken::Exact(0x48),
        AobToken::Exact(0x8B),
        AobToken::Exact(0x01),
        AobToken::Exact(0x41),
        AobToken::Exact(0x8B),
        AobToken::Exact(0xD1),
        AobToken::Exact(0x48),
        AobToken::Exact(0x8B),
        AobToken::Exact(0xF1),
    ]
}

fn comp_visual_promotion_aob() -> (v: Vec<AobToken>)
    ensures
        v@ == comp_visual_promotion_aob_spec(),
{
    let v = vec![
        AobToken::Exact(0x48),
        AobToken::Exact(0x89),
        AobToken::Exact(0x5C),
        AobToken::Exact(0x24),
        AobToken::Exact(0x10),
        AobToken::Exact(0x48),
        AobToken::Exact(0x89),
        AobToken::Exact(0x74),
        AobToken::Exact(0x24),
        AobToken::Exact(0x18),
        AobToken::Exact(0x57),
        AobToken::Exact(0x48),
        AobToken::Exact(0x83),
        AobToken::Exact(0xEC),
        AobToken::Exact(0x20),
        AobToken::Exact(0x48),
        AobToken::Exact(0x8B),
        AobToken::Exact(0x01),
        AobToken::Exact(0x41),
        AobToken::Exact(0x8B),
        AobToken::Exact(0xD1),
        AobToken::Exact(0x48),
        AobToken::Exact(0x8B),
        AobToken::Exact(0xF1),
    ];
    assert(v@ =~= comp_visual_promotion_aob_spec());
    v
}

pub open spec fn comp_swap_chain_independent_flip_aob_spec() -> Seq<AobToken> {
    seq![
        AobToken::Exact(0x48),
        AobToken::Exact(0x8D),
        AobToken::Exact(0x05),
    ]
}

fn comp_swap_chain_independent_flip_aob() -> (v: Vec<AobToken>)
    ensures
        v@ == comp_swap_chain_independent_flip_aob_spec(),
{
    let v = vec![
        AobToken::Exact(0x48),
        AobToken::Exact(0x8D),
        AobToken::Exact(0x05),
    ];
    assert(v@ =~= comp_swap_chain_independent_flip_aob_spec());
    v
}

/// Whether `l` is a plain pattern search in dwmcore.dll under `key` for `tokens`.
pub open spec fn is_aob(l: SignatureLocator, key: Seq<char>, tokens: Seq<AobToken>) -> bool {
    l matches SignatureLocator::Aob { module_name, capture_key, tokens: t } && module_name@
        == "dwmcore.dll"@ && capture_key@ == key && t@ == tokens
}

/// The 25H2 profile's signatures, in the order they are resolved.
pub open spec fn windows_11_25h2_signatures_match(s: Seq<HookSignature>) -> bool {
    &&& s.len() == 8
    &&& s[0].target == HookTarget::Present
    &&& is_aob(s[0].locator, "present_25h2"@, present_aob_spec())
    &&& s[1].target == HookTarget::IsCandidateDirectFlipCompatible
    &&& s[1].locator matches SignatureLocator::AobExcludingFollowingBytes {
        module_name,
        capture_key,
        tokens,
        excluded_following,
    } && module_name@ == "dwmcore.dll"@ && capture_key@ == "direct_flip_compat_25h2"@ && tokens@
        == direct_flip_aob_spec() && excluded_following@.len() == 1 && excluded_following@[0]@
        == seq![0x41u8, 0x8Bu8, 0xF0u8]
    &&& s[2].target == HookTarget::OverlaysEnabled
    &&& is_aob(s[2].locator, "overlays_enabled_25h2"@, overlays_enabled_aob_spec())
    &&& s[3].target == HookTarget::WindowContextIsCandidateDirectFlipCompatible
    &&& is_aob(s[3].locator, "window_direct_flip_compat_25h2"@, window_context_direct_flip_aob_spec())
    &&& s[4].target == HookTarget::CompSwapChainIsCandidateDirectFlipCompatible
    &&& is_aob(
        s[4].locator,
        "comp_swap_chain_direct_flip_compat_25h2"@,
        comp_swap_chain_direct_flip_aob_spec(),
    )
    &&& s[5].target == HookTarget::CompVisualIsCandidateForPromotion
    &&& is_aob(s[5].locator, "comp_visual_promotion_25h2"@, comp_visual_promotion_aob_spec())
    &&& s[6].target == HookTarget::CompSwapChainIsCandidateIndependentFlipCompatible
    &&& s[6].locator matches SignatureLocator::FollowingAob {
        module_name,
        capture_key,
        anchor_tokens,
        tokens,
        search_range,
    } && module_name@ == "dwmcore.dll"@ && capture_key@
        == "comp_swap_chain_independent_flip_compat_25h2"@ && anchor_tokens@
        == overlays_enabled_aob_spec() && tokens@ == comp_swap_chain_independent_flip_aob_spec()
        && search_range == 500
    &&& s[7].target == HookTarget::OverlayTestMode
    &&& s[7].locator matches SignatureLocator::RipRelativeGlobalAob {
        module_name,
        capture_key,
        tokens,
        displacement_offset,
        instruction_size,
    } && module_name@ == "dwmcore.dll"@ && capture_key@ == "overlay_test_mode_25h2"@ && tokens@
        == overlays_enabled_aob_spec() && displacement_offset == 2 && instruction_size == 7
}

/// The 25H2 profile's memory-layout assumptions.
pub open spec fn windows_11_25h2_hypotheses_match(h: ProfileHypotheses) -> bool {
    &&& h.swap_chain.accessor_key@ == "overlay_swap_chain_back_buffer_vtbl_24_19"@
    &&& h.swap_chain.container_vtable_index == 24
    &&& h.swap_chain.resource_vtable_index == 19
    &&& h.clip_box.accessor_key@ == "overlay_context_state_clip_origin_0x4d0"@
    &&& h.clip_box.owner == ClipBoxOwner::OverlayContextStateObject
    &&& h.clip_box.context_state_pointer_offset == 0
    &&& h.clip_box.offset == 0x4D0
    &&& h.hardware_protected.accessor_key@ == "overlay_swap_chain_hardware_protected_0x4c"@
    &&& h.hardware_protected.offset == 0x4c
}

fn windows_11_25h2() -> (p: HookProfile)
    ensures
        p.build == BuildProfile::Windows11_25H2,
        p.module_name@ == "dwmcore.dll"@,
        windows_11_25h2_signatures_match(p.signatures@),
        windows_11_25h2_hypotheses_match(p.hypotheses),
{
    let excluded = vec![vec![0x41u8, 0x8Bu8, 0xF0u8]];
    let signatures = vec![
        HookSignature {
            target: HookTarget::Present,
            locator: SignatureLocator::Aob {
                module_name: "dwmcore.dll",
                capture_key: "present_25h2",
                tokens: present_aob(),
            },
            note: "Matches the 25H2 COverlayContext::Present prologue.",
        },
        HookSignature {
            target: HookTarget::IsCandidateDirectFlipCompatible,
            locator: SignatureLocator::AobExcludingFollowingBytes {
                module_name: "dwmcore.dll",
                capture_key: "direct_flip_compat_25h2",
                tokens: direct_flip_aob(),
                excluded_following: excluded,
            },
            note: "Matches the 25H2 direct-flip compatibility gate while excluding the CCompSwapChain prologue that shares the same prefix.",
        },
        HookSignature {
            target: HookTarget::OverlaysEnabled,
            locator: SignatureLocator::Aob {
                module_name: "dwmcore.dll",
                capture_key: "overlays_enabled_25h2",
                tokens: overlays_enabled_aob(),
            },
            note: "Matches the 25H2 overlay enablement check and preserves the nearby RIP-relative global access.",
        },
        HookSignature {
            target: HookTarget::WindowContextIsCandidateDirectFlipCompatible,
            locator: SignatureLocator::Aob {
                module_name: "dwmcore.dll",
                capture_key: "window_direct_flip_compat_25h2",
                tokens: window_context_direct_flip_aob(),
            },
            note: "Matches the 25H2 CWindowContext direct-flip gate, closing promotion paths outside COverlayContext.",
        },
        HookSignature {
            target: HookTarget::CompSwapChainIsCandidateDirectFlipCompatible,
            locator: SignatureLocator::Aob {
                module_name: "dwmcore.dll",
                capture_key: "comp_swap_chain_direct_flip_compat_25h2",
                tokens: comp_swap_chain_direct_flip_aob(),
            },
            note: "Matches the 25H2 CCompSwapChain direct-flip gate, suppressing promotion after DWM refactors.",
        },
        HookSignature {
            target: HookTarget::CompVisualIsCandidateForPromotion,
            locator: SignatureLocator::Aob {
                module_name: "dwmcore.dll",
                capture_key: "comp_visual_promotion_25h2",
                tokens: comp_visual_promotion_aob(),
            },
            note: "Matches the 25H2 CCompVisual promotion gate.",
        },
        HookSignature {
            target: HookTarget::CompSwapChainIsCandidateIndependentFlipCompatible,
            locator: SignatureLocator::FollowingAob {
                module_name: "dwmcore.dll",
                capture_key: "comp_swap_chain_independent_flip_compat_25h2",
                anchor_tokens: overlays_enabled_aob(),
                tokens: comp_swap_chain_independent_flip_aob(),
                search_range: 500,
            },
            note: "Matches the 25H2 CCompSwapChain independent-flip gate located near the OverlaysEnabled global access.",
        },
        HookSignature {
            target: HookTarget::OverlayTestMode,
            locator: SignatureLocator::RipRelativeGlobalAob {
                module_name: "dwmcore.dll",
                capture_key: "overlay_test_mode_25h2",
                tokens: overlays_enabled_aob(),
                displacement_offset: 2,
                instruction_size: 7,
            },
            note: "Resolves the RIP-relative OverlayTestMode global referenced by the 25H2 OverlaysEnabled check.",
        },
    ];
    HookProfile {
        build: BuildProfile::Windows11_25H2,
        module_name: "dwmcore.dll",
        signatures,
        hypotheses: ProfileHypotheses {
            swap_chain: SwapChainPathHypothesis {
                accessor_key: "overlay_swap_chain_back_buffer_vtbl_24_19",
                container_vtable_index: 24,
                resource_vtable_index: 19,
                note: "25H2 path: call IOverlaySwapChain vtable[24], then returned object vtable[19], then QueryInterface for ID3D11Texture2D.",
            },
            clip_box: ClipBoxPathHypothesis {
                accessor_key: "overlay_context_state_clip_origin_0x4d0",
                owner: ClipBoxOwner::OverlayContextStateObject,
                context_state_pointer_offset: 0,
                offset: 0x4D0,
                note: "Initial 25H2 hypothesis: read the overlay-context state object pointer from COverlayContext + 0, then read the clip origin from state object + 0x4d0.",
            },
            hardware_protected: HardwareProtectedPathHypothesis {
                accessor_key: "overlay_swap_chain_hardware_protected_0x4c",
                offset: 0x4c,
                note: "Initial 25H2 hypothesis: read the hardware-protected flag from IOverlaySwapChain at offset 0x4c.",
            },
        },
    }
}

impl HookProfile {
    /// The profile of a Windows build.
    pub fn for_build(build: BuildProfile) -> (p: HookProfile)
        ensures
            p.build == build,
            build == BuildProfile::Windows11_25H2 ==> {
                &&& p.module_name@ == "dwmcore.dll"@
                &&& windows_11_25h2_signatures_match(p.signatures@)
                &&& windows_11_25h2_hypotheses_match(p.hypotheses)
            },
    {
        match build {
            BuildProfile::Windows11_25H2 => windows_11_25h2(),
        }
    }
}

} // verus!
