use vstd::prelude::*;

use crate::profile::HookTarget;

verus! {

/// MinHook's success status.
pub const MH_OK: i32 = 0;

/// MinHook's status for an initialization that another user already made.
pub const MH_ERROR_ALREADY_INITIALIZED: i32 = 1;

/// The target address that asks MinHook to enable every created hook (a null pointer).
pub const MH_ALL_HOOKS: usize = 0;

/// The MinHook library the hooks were registered with.
#[derive(Debug, Clone, PartialEq, Eq)]
pub struct MinHookState {
    pub module_name: &'static str,
    pub module_handle: usize,
    pub owns_initialization: bool,
}

/// The MinHook operation that failed.
#[derive(Debug, Clone, Copy, PartialEq, Eq, Structural)]
pub enum MinHookOperation {
    Initialize,
    CreateHook(HookTarget),
    EnableHook,
}

/// A cleanup operation that can fail after the fact.
#[derive(Debug, Clone, Copy, PartialEq, Eq, Structural)]
pub enum MinHookCleanupOperation {
    DisableHook,
    RemoveHook,
}

/// A cleanup call that did not return `MH_OK`.
#[derive(Debug, Clone, Copy, PartialEq, Eq, Structural)]
pub struct MinHookCleanupFailure {
    pub operation: MinHookCleanupOperation,
    pub target: HookTarget,
    pub status: i32,
}

/// A failed MinHook operation with its status, and the cleanup calls that
/// failed after it.
#[derive(Debug, Clone, PartialEq, Eq)]
pub struct MinHookError {
    pub operation: MinHookOperation,
    pub status: Option<i32>,
    pub cleanup_failures: Vec<MinHookCleanupFailure>,
}

/// A hook MinHook created: its target and the address it patches.
#[derive(Debug, Clone, Copy, PartialEq, Eq, Structural)]
pub struct RegisteredHook {
    pub target: HookTarget,
    pub target_address: usize,
}

/// A function to hook: its target, the signature capture that found it, and its address.
#[derive(Debug, Clone, Copy, PartialEq, Eq)]
pub struct HookRegistrationTarget {
    pub target: HookTarget,
    pub capture_key: &'static str,
    pub address: usize,
}

/// The hooks to register in a module, in registration order.
#[derive(Debug, Clone, PartialEq, Eq)]
pub struct HookRegistrationPlan {
    pub module_name: &'static str,
    pub module_base_address: usize,
    pub module_size: usize,
    pub targets: Vec<HookRegistrationTarget>,
}

/// A MinHook call that a registration or an unregistration needs next. A
/// `RemoveHook` that returns `MH_OK` also clears the target's original slot.
#[derive(Debug, Clone, Copy, PartialEq, Eq, Structural)]
pub enum MinHookCall {
    CreateHook { target: HookTarget, address: usize },
    EnableHook { address: usize },
    DisableHook { target: HookTarget, address: usize },
    RemoveHook { target: HookTarget, address: usize },
}

/// What to tear down of MinHook after an unregistration or a failed registration.
#[derive(Debug, Clone, Copy, PartialEq, Eq, Structural)]
pub struct MinHookTeardown {
    pub uninitialize: bool,
    pub free_module: bool,
}

/// Whether any of `failures` is a failed hook removal.
pub open spec fn has_remove_failure(failures: Seq<MinHookCleanupFailure>) -> bool {
    exists|i: int| 0 <= i < failures.len() && (#[trigger] failures[i]).operation
        == MinHookCleanupOperation::RemoveHook
}

/// Whether any of `failures` is a failed hook removal.
pub fn cleanup_has_remove_hook_failure(failures: &[MinHookCleanupFailure]) -> (r: bool)
    ensures
        r == has_remove_failure(failures@),
{
    let mut i: usize = 0;
    while i < failures.len()
        invariant
            i <= failures@.len(),
            forall|j: int|
                0 <= j < i ==> (#[trigger] failures@[j]).operation
                    != MinHookCleanupOperation::RemoveHook,
        decreases failures@.len() - i,
    {
        if failures[i].operation == MinHookCleanupOperation::RemoveHook {
            assert(failures@[i as int].operation == MinHookCleanupOperation::RemoveHook);
            return true;
        }
        i = i + 1;
    }
    false
}

impl MinHookError {
    /// Whether a hook could not be removed during cleanup, so that MinHook
    /// must stay loaded.
    pub fn has_remove_hook_cleanup_failure(&self) -> (r: bool)
        ensures
            r == has_remove_failure(self.cleanup_failures@),
    {
        cleanup_has_remove_hook_failure(self.cleanup_failures.as_slice())
    }

    /// A failure of `operation` without cleanup failures.
    pub fn new(operation: MinHookOperation, status: Option<i32>) -> (e: MinHookError)
        ensures
            e.operation == operation,
            e.status == status,
            e.cleanup_failures@.len() == 0,
    {
        MinHookError { operation, status, cleanup_failures: Vec::new() }
    }

    /// A failure of `operation` followed by failed cleanup calls.
    pub fn with_cleanup_failures(
        operation: MinHookOperation,
        status: Option<i32>,
        cleanup_failures: Vec<MinHookCleanupFailure>,
    ) -> (e: MinHookError)
        ensures
            e.operation == operation,
            e.status == status,
            e.cleanup_failures@ == cleanup_failures@,
    {
        MinHookError { operation, status, cleanup_failures }
    }
}

/// Whether this library owns MinHook's initialization after `MH_Initialize`
/// returned `status`: it does on `MH_OK`, shares it on
/// `MH_ERROR_ALREADY_INITIALIZED`, and any other status is an error.
pub fn initialization_ownership(status: i32) -> (r: Result<bool, MinHookError>)
    ensures
        match r {
            Ok(owns) => (status == MH_OK || status == MH_ERROR_ALREADY_INITIALIZED) && owns == (
            status == MH_OK),
            Err(e) => status != MH_OK && status != MH_ERROR_ALREADY_INITIALIZED && e.operation
                == MinHookOperation::Initialize && e.status == Some(status)
                && e.cleanup_failures@.len() == 0,
        },
{
    if status != MH_OK && status != MH_ERROR_ALREADY_INITIALIZED {
        return Err(MinHookError::new(MinHookOperation::Initialize, Some(status)));
    }
    Ok(status == MH_OK)
}

/// What to tear down after cleanup that ended with `failures`: nothing while
/// a hook could not be removed (it may still run through MinHook); else the
/// module is freed, and MinHook uninitialized where this library initialized it.
pub fn teardown_after_cleanup(owns_initialization: bool, failures: &[MinHookCleanupFailure]) -> (t:
    MinHookTeardown)
    ensures
        t.free_module == !has_remove_failure(failures@),
        t.uninitialize == (!has_remove_failure(failures@) && owns_initialization),
{
    let keep = cleanup_has_remove_hook_failure(failures);
    MinHookTeardown { uninitialize: !keep && owns_initialization, free_module: !keep }
}

/// The failing MinHook operation of a registration and its status.
#[derive(Debug, Clone, Copy, PartialEq, Eq, Structural)]
pub struct RegistrationFailure {
    pub operation: MinHookOperation,
    pub status: i32,
}

/// The state of a registration: the plan's targets, the hooks created so
/// far, whether they were enabled, the failure that stopped it, how many
/// created hooks were removed since, and the removals that failed.
pub struct RegistrationView {
    pub targets: Seq<HookRegistrationTarget>,
    pub created: Seq<RegisteredHook>,
    pub enabled: bool,
    pub failure: Option<RegistrationFailure>,
    pub removed: nat,
    pub cleanup_failures: Seq<MinHookCleanupFailure>,
}

/// The hook that registering `t` creates.
pub open spec fn hook_for(t: HookRegistrationTarget) -> RegisteredHook {
    RegisteredHook { target: t.target, target_address: t.address }
}

/// The call a registration in state `v` needs next: create the targets in
/// plan order, then enable all hooks at once; after a failure, remove the
/// created hooks, the last created first. `None` once it is over.
pub open spec fn registration_next_call(v: RegistrationView) -> Option<MinHookCall> {
    match v.failure {
        None => if v.created.len() < v.targets.len() {
            Some(
                MinHookCall::CreateHook {
                    target: v.targets[v.created.len() as int].target,
                    address: v.targets[v.created.len() as int].address,
                },
            )
        } else if !v.enabled {
            Some(MinHookCall::EnableHook { address: MH_ALL_HOOKS })
        } else {
            None
        },
        Some(_) => if v.removed < v.created.len() {
            let h = v.created[v.created.len() - 1 - v.removed];
            Some(MinHookCall::RemoveHook { target: h.target, address: h.target_address })
        } else {
            None
        },
    }
}

/// The registration state after the pending call of `v` returned `status`.
pub open spec fn registration_after(v: RegistrationView, status: i32) -> RegistrationView {
    match registration_next_call(v) {
        Some(MinHookCall::CreateHook { target, address }) => if status == MH_OK {
            RegistrationView {
                created: v.created.push(RegisteredHook { target, target_address: address }),
                ..v
            }
        } else {
            RegistrationView {
                failure: Some(
                    RegistrationFailure { operation: MinHookOperation::CreateHook(target), status },
                ),
                ..v
            }
        },
        Some(MinHookCall::EnableHook { .. }) => if status == MH_OK {
            RegistrationView { enabled: true, ..v }
        } else {
            RegistrationView {
                failure: Some(
                    RegistrationFailure { operation: MinHookOperation::EnableHook, status },
                ),
                ..v
            }
        },
        Some(MinHookCall::RemoveHook { target, .. }) => RegistrationView {
            removed: v.removed + 1,
            cleanup_failures: if status == MH_OK {
                v.cleanup_failures
            } else {
                v.cleanup_failures.push(
                    MinHookCleanupFailure {
                        operation: MinHookCleanupOperation::RemoveHook,
                        target,
                        status,
                    },
                )
            },
            ..v
        },
        _ => v,
    }
}

/// Registers a plan's hooks with MinHook, one call at a time: the caller
/// makes each call that `next_call` names and hands its status to `returned`.
pub struct HookRegistration {
    targets: Vec<HookRegistrationTarget>,
    created: Vec<RegisteredHook>,
    enabled: bool,
    failure: Option<RegistrationFailure>,
    removed: usize,
    cleanup_failures: Vec<MinHookCleanupFailure>,
}

impl HookRegistration {
    pub closed spec fn view(&self) -> RegistrationView {
        RegistrationView {
            targets: self.targets@,
            created: self.created@,
            enabled: self.enabled,
            failure: self.failure,
            removed: self.removed as nat,
            cleanup_failures: self.cleanup_failures@,
        }
    }

    #[verifier::type_invariant]
    spec fn well_formed(&self) -> bool {
        &&& self.created@.len() <= self.targets@.len()
        &&& forall|i: int|
            0 <= i < self.created@.len() ==> #[trigger] self.created@[i] == hook_for(
                self.targets@[i],
            )
        &&& self.enabled ==> self.failure is None && self.created@.len() == self.targets@.len()
        &&& self.failure is None ==> self.removed == 0 && self.cleanup_failures@.len() == 0
        &&& self.removed <= self.created@.len()
        &&& forall|i: int|
            0 <= i < self.cleanup_failures@.len() ==> (#[trigger] self.cleanup_failures@[i]).operation
                == MinHookCleanupOperation::RemoveHook
    }

    /// A registration of the plan's targets that has made no call yet.
    pub fn new(plan: &HookRegistrationPlan) -> (r: HookRegistration)
        ensures
            r@.targets == plan.targets@,
            r@.created.len() == 0,
            !r@.enabled,
            r@.failure is None,
            r@.removed == 0,
            r@.cleanup_failures.len() == 0,
    {
        HookRegistration {
            targets: plan.targets.clone(),
            created: Vec::new(),
            enabled: false,
            failure: None,
            removed: 0,
            cleanup_failures: Vec::new(),
        }
    }

    /// The MinHook call to make next, or `None` once the registration is
    /// over. The state is always consistent: the created hooks are the plan's
    /// first targets in plan order, and every cleanup failure is a failed removal.
    pub fn next_call(&self) -> (c: Option<MinHookCall>)
        ensures
            c == registration_next_call(self@),
            self@.created.len() <= self@.targets.len(),
            forall|i: int|
                0 <= i < self@.created.len() ==> #[trigger] self@.created[i] == hook_for(
                    self@.targets[i],
                ),
            self@.enabled ==> self@.failure is None && self@.created.len() == self@.targets.len(),
            self@.removed <= self@.created.len(),
            forall|i: int|
                0 <= i < self@.cleanup_failures.len() ==> (#[trigger] self@.cleanup_failures[i]).operation
                    == MinHookCleanupOperation::RemoveHook,
    {
        proof {
            use_type_invariant(self);
        }
        match self.failure {
            None => {
                if self.created.len() < self.targets.len() {
                    let t = self.targets[self.created.len()];
                    Some(MinHookCall::CreateHook { target: t.target, address: t.address })
                } else if !self.enabled {
                    Some(MinHookCall::EnableHook { address: MH_ALL_HOOKS })
                } else {
                    None
                }
            },
            Some(_) => {
                if self.removed < self.created.len() {
                    let h = self.created[self.created.len() - 1 - self.removed];
                    Some(MinHookCall::RemoveHook { target: h.target, address: h.target_address })
                } else {
                    None
                }
            },
        }
    }

    /// Takes in the status that the call named by `next_call` returned.
    pub fn returned(&mut self, status: i32)
        ensures
            final(self)@ == registration_after(old(self)@, status),
    {
        proof {
            use_type_invariant(&*self);
        }
        let call = self.next_call();
        match call {
            Some(MinHookCall::CreateHook { target, address }) => {
                if status == MH_OK {
                    let mut created: Vec<RegisteredHook> = Vec::new();
                    std::mem::swap(&mut created, &mut self.created);
                    created.push(RegisteredHook { target, target_address: address });
                    self.created = created;
                } else {
                    self.failure = Some(
                        RegistrationFailure { operation: MinHookOperation::CreateHook(target), status },
                    );
                }
            },
            Some(MinHookCall::EnableHook { .. }) => {
                if status == MH_OK {
                    self.enabled = true;
                } else {
                    self.failure = Some(
                        RegistrationFailure { operation: MinHookOperation::EnableHook, status },
                    );
                }
            },
            Some(MinHookCall::RemoveHook { target, .. }) => {
                let created_count = self.created.len();
                assert(self.removed < created_count);
                let next_removed = self.removed + 1;
                if status != MH_OK {
                    let mut failures: Vec<MinHookCleanupFailure> = Vec::new();
                    std::mem::swap(&mut failures, &mut self.cleanup_failures);
                    failures.push(
                        MinHookCleanupFailure {
                            operation: MinHookCleanupOperation::RemoveHook,
                            target,
                            status,
                        },
                    );
                    self.cleanup_failures = failures;
                }
                self.removed = next_removed;
            },
            _ => {},
        }
        proof {
            assert(self@ =~= registration_after(old(self)@, status));
        }
    }

    /// The registered hooks in plan order, or the failure with the removals
    /// that failed during cleanup; `None` while calls are still needed.
    pub fn finish(self) -> (r: Option<Result<Vec<RegisteredHook>, MinHookError>>)
        ensures
            registration_next_call(self@) is Some ==> r is None,
            registration_next_call(self@) is None ==> match r {
                Some(Ok(hooks)) => self@.failure is None && hooks@ == self@.created,
                Some(Err(e)) => self@.failure matches Some(f) && e.operation == f.operation
                    && e.status == Some(f.status) && e.cleanup_failures@ == self@.cleanup_failures,
                None => false,
            },
    {
        if self.next_call().is_some() {
            return None;
        }
        match self.failure {
            None => Some(Ok(self.created)),
            Some(f) => Some(
                Err(MinHookError::with_cleanup_failures(f.operation, Some(f.status), self.cleanup_failures)),
            ),
        }
    }
}

/// A registration that is over without a failure registered every target of
/// the plan, in plan order, and enabled them.
pub proof fn lemma_successful_registration_covers_plan(v: RegistrationView)
    requires
        v.created.len() <= v.targets.len(),
        forall|i: int| 0 <= i < v.created.len() ==> #[trigger] v.created[i] == hook_for(v.targets[i]),
        registration_next_call(v) is None,
        v.failure is None,
    ensures
        v.enabled,
        v.created == v.targets.map_values(|t: HookRegistrationTarget| hook_for(t)),
{
    assert(v.created =~= v.targets.map_values(|t: HookRegistrationTarget| hook_for(t)));
}

/// A registration that is over after a failure removed every hook it had
/// created: nothing it created is left behind.
pub proof fn lemma_failed_registration_removes_created_hooks(v: RegistrationView)
    requires
        v.removed <= v.created.len(),
        registration_next_call(v) is None,
        v.failure is Some,
    ensures
        v.removed == v.created.len(),
{
}

/// The state of an unregistration: the hooks, how many were disabled and
/// removed so far, and the calls that failed.
pub struct UnregistrationView {
    pub hooks: Seq<RegisteredHook>,
    pub disabled: nat,
    pub removed: nat,
    pub failures: Seq<MinHookCleanupFailure>,
}

/// The call an unregistration in state `v` needs next: disable every hook,
/// the last registered first, then remove every hook in the same order.
pub open spec fn unregistration_next_call(v: UnregistrationView) -> Option<MinHookCall> {
    if v.disabled < v.hooks.len() {
        let h = v.hooks[v.hooks.len() - 1 - v.disabled];
        Some(MinHookCall::DisableHook { target: h.target, address: h.target_address })
    } else if v.removed < v.hooks.len() {
        let h = v.hooks[v.hooks.len() - 1 - v.removed];
        Some(MinHookCall::RemoveHook { target: h.target, address: h.target_address })
    } else {
        None
    }
}

/// The unregistration state after the pending call of `v` returned `status`:
/// every call is made whatever the others returned, and each failure is kept.
pub open spec fn unregistration_after(v: UnregistrationView, status: i32) -> UnregistrationView {
    match unregistration_next_call(v) {
        Some(MinHookCall::DisableHook { target, .. }) => UnregistrationView {
            disabled: v.disabled + 1,
            failures: if status == MH_OK {
                v.failures
            } else {
                v.failures.push(
                    MinHookCleanupFailure {
                        operation: MinHookCleanupOperation::DisableHook,
                        target,
                        status,
                    },
                )
            },
            ..v
        },
        Some(MinHookCall::RemoveHook { target, .. }) => UnregistrationView {
            removed: v.removed + 1,
            failures: if status == MH_OK {
                v.failures
            } else {
                v.failures.push(
                    MinHookCleanupFailure {
                        operation: MinHookCleanupOperation::RemoveHook,
                        target,
                        status,
                    },
                )
            },
            ..v
        },
        _ => v,
    }
}

/// Disables and removes registered hooks, one MinHook call at a time.
pub struct HookUnregistration {
    hooks: Vec<RegisteredHook>,
    disabled: usize,
    removed: usize,
    failures: Vec<MinHookCleanupFailure>,
}

impl HookUnregistration {
    pub closed spec fn view(&self) -> UnregistrationView {
        UnregistrationView {
            hooks: self.hooks@,
            disabled: self.disabled as nat,
            removed: self.removed as nat,
            failures: self.failures@,
        }
    }

    #[verifier::type_invariant]
    spec fn well_formed(&self) -> bool {
        &&& self.disabled <= self.hooks@.len()
        &&& self.removed <= self.hooks@.len()
        &&& self.removed > 0 ==> self.disabled == self.hooks@.len()
    }

    /// An unregistration of `hooks` that has made no call yet.
    pub fn new(hooks: &[RegisteredHook]) -> (u: HookUnregistration)
        ensures
            u@.hooks == hooks@,
            u@.disabled == 0,
            u@.removed == 0,
            u@.failures.len() == 0,
    {
        let mut copy: Vec<RegisteredHook> = Vec::new();
        let mut i: usize = 0;
        while i < hooks.len()
            invariant
                i <= hooks@.len(),
                copy@ == hooks@.subrange(0, i as int),
            decreases hooks@.len() - i,
        {
            copy.push(hooks[i]);
            i = i + 1;
            assert(copy@ =~= hooks@.subrange(0, i as int));
        }
        assert(copy@ =~= hooks@);
        HookUnregistration { hooks: copy, disabled: 0, removed: 0, failures: Vec::new() }
    }

    /// The MinHook call to make next, or `None` once every hook was disabled and removed.
    pub fn next_call(&self) -> (c: Option<MinHookCall>)
        ensures
            c == unregistration_next_call(self@),
    {
        proof {
            use_type_invariant(self);
        }
        if self.disabled < self.hooks.len() {
            let h = self.hooks[self.hooks.len() - 1 - self.disabled];
            Some(MinHookCall::DisableHook { target: h.target, address: h.target_address })
        } else if self.removed < self.hooks.len() {
            let h = self.hooks[self.hooks.len() - 1 - self.removed];
            Some(MinHookCall::RemoveHook { target: h.target, address: h.target_address })
        } else {
            None
        }
    }

    /// Takes in the status that the call named by `next_call` returned.
    pub fn returned(&mut self, status: i32)
        ensures
            final(self)@ == unregistration_after(old(self)@, status),
    {
        proof {
            use_type_invariant(&*self);
        }
        let call = self.next_call();
        match call {
            Some(MinHookCall::DisableHook { target, .. }) => {
                let hook_count = self.hooks.len();
                assert(self.disabled < hook_count);
                let next_disabled = self.disabled + 1;
                if status != MH_OK {
                    let mut failures: Vec<MinHookCleanupFailure> = Vec::new();
                    std::mem::swap(&mut failures, &mut self.failures);
                    failures.push(
                        MinHookCleanupFailure {
                            operation: MinHookCleanupOperation::DisableHook,
                            target,
                            status,
                        },
                    );
                    self.failures = failures;
                }
                self.disabled = next_disabled;
            },
            Some(MinHookCall::RemoveHook { target, .. }) => {
                let next_removed = self.removed + 1;
                if status != MH_OK {
                    let mut failures: Vec<MinHookCleanupFailure> = Vec::new();
                    std::mem::swap(&mut failures, &mut self.failures);
                    failures.push(
                        MinHookCleanupFailure {
                            operation: MinHookCleanupOperation::RemoveHook,
                            target,
                            status,
                        },
                    );
                    self.failures = failures;
                }
                self.removed = next_removed;
            },
            _ => {},
        }
        proof {
            assert(self@ =~= unregistration_after(old(self)@, status));
        }
    }

    /// The cleanup calls that failed, in the order they were made; `None`
    /// while calls are still needed.
    pub fn finish(self) -> (r: Option<Vec<MinHookCleanupFailure>>)
        ensures
            unregistration_next_call(self@) is Some ==> r is None,
            unregistration_next_call(self@) is None ==> (r matches Some(f) && f@ == self@.failures),
    {
        if self.next_call().is_some() {
            return None;
        }
        Some(self.failures)
    }
}

/// An unregistration that is over disabled and then removed every hook.
pub proof fn lemma_finished_unregistration_covers_every_hook(v: UnregistrationView)
    requires
        v.disabled <= v.hooks.len(),
        v.removed <= v.hooks.len(),
        unregistration_next_call(v) is None,
    ensures
        v.disabled == v.hooks.len(),
        v.removed == v.hooks.len(),
{
}

} // verus!
