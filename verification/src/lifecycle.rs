use vstd::prelude::*;
use vstd::string::StringSliceAdditionalSpecFns;

verus! {

/// Where the hook runtime is in its life.
#[derive(Debug, Clone, Copy, PartialEq, Eq, Structural)]
pub enum LifecyclePhase {
    Inactive,
    Initializing,
    Running,
    ReplacingAssignments,
    ShuttingDown,
}

/// The hook status that the exported snapshot reports.
#[derive(Debug, Clone, Copy, PartialEq, Eq, Structural)]
pub enum HookStatus {
    Inactive,
    Transitioning,
    Active,
}

/// The status that other processes read: a sequence number that is even
/// whenever the snapshot is complete, the hook status, and the active profile
/// name in storage of a fixed size.
#[derive(Debug, Clone, PartialEq, Eq)]
pub struct StatusSnapshot {
    pub sequence: u32,
    pub hook_status: HookStatus,
    pub profile_name_len: u32,
    pub profile_name: Vec<u8>,
}

/// The sequence number after one more publication, which moves it by two.
pub open spec fn sequence_after_publish(sequence: u32) -> u32 {
    ((sequence as int + 2) % 0x1_0000_0000) as u32
}

/// The UTF-8 bytes of a profile name, if one is given.
pub open spec fn name_bytes(profile_name: Option<&str>) -> Option<Seq<u8>> {
    match profile_name {
        Some(name) => Some(name.spec_bytes()),
        None => None,
    }
}

/// Whether a profile name fits the snapshot: not empty and at most `max` bytes.
pub open spec fn name_fits(name: Seq<u8>, max: usize) -> bool {
    0 < name.len() <= max
}

/// `max` zero bytes.
pub open spec fn zeros(count: int) -> Seq<u8> {
    Seq::new(count as nat, |i: int| 0u8)
}

/// `snapshot` is the publication, after `previous_sequence`, of `status` and
/// `name`: a name that does not fit leaves the name empty and reports
/// `Inactive`; storage past the name is zero.
pub open spec fn is_publication(
    previous_sequence: u32,
    status: HookStatus,
    name: Option<Seq<u8>>,
    max: usize,
    snapshot: StatusSnapshot,
) -> bool {
    let fits = name matches Some(bytes) && name_fits(bytes, max);
    &&& snapshot.sequence == sequence_after_publish(previous_sequence)
    &&& snapshot.hook_status == (if name is Some && !fits {
        HookStatus::Inactive
    } else {
        status
    })
    &&& snapshot.profile_name_len == (if fits {
        name.unwrap().len()
    } else {
        0
    })
    &&& snapshot.profile_name@ == (if fits {
        name.unwrap() + zeros(max - name.unwrap().len())
    } else {
        zeros(max as int)
    })
}

/// Whether the runtime serves presents in `phase`.
pub open spec fn phase_is_active(phase: LifecyclePhase) -> bool {
    phase is Running || phase is ReplacingAssignments
}

/// Proof that an initialization was begun; it ends in `commit_active` or
/// `finish_inactive`.
#[derive(Debug)]
pub struct InitializationTransition {
    started: bool,
}

/// Proof that an assignment replacement was begun.
#[derive(Debug)]
pub struct ReplaceAssignmentsTransition {
    started: bool,
}

/// Proof that a shutdown was begun.
#[derive(Debug)]
pub struct ShutdownTransition {
    started: bool,
}

/// The answer to a shutdown request.
#[derive(Debug)]
pub enum ShutdownStart {
    Started(ShutdownTransition),
    InitializationInProgress,
    AssignmentReplacementInProgress,
    ShutdownInProgress,
    AlreadyInactive,
}

/// The answer to a request to replace the assignments.
#[derive(Debug)]
pub enum ReplaceAssignmentsStart {
    Started(ReplaceAssignmentsTransition),
    RuntimeInactive,
    AlreadyInProgress,
}

/// Which answer a shutdown request gets in `phase`.
pub open spec fn shutdown_answer(phase: LifecyclePhase, start: ShutdownStart) -> bool {
    match phase {
        LifecyclePhase::Running => start is Started,
        LifecyclePhase::Initializing => start is InitializationInProgress,
        LifecyclePhase::ReplacingAssignments => start is AssignmentReplacementInProgress,
        LifecyclePhase::ShuttingDown => start is ShutdownInProgress,
        LifecyclePhase::Inactive => start is AlreadyInactive,
    }
}

/// Which answer a replacement request gets in `phase`.
pub open spec fn replace_answer(phase: LifecyclePhase, start: ReplaceAssignmentsStart) -> bool {
    match phase {
        LifecyclePhase::Running => start is Started,
        LifecyclePhase::Inactive => start is RuntimeInactive,
        _ => start is AlreadyInProgress,
    }
}

/// The hook's lifecycle and the status it exports.
pub struct Lifecycle {
    phase: LifecyclePhase,
    status: StatusSnapshot,
    max_profile_name_bytes: usize,
}

impl Lifecycle {
    /// The current phase.
    pub closed spec fn current_phase(&self) -> LifecyclePhase {
        self.phase
    }

    /// The exported status.
    pub closed spec fn current_status(&self) -> StatusSnapshot {
        self.status
    }

    /// How many bytes of profile name the snapshot holds.
    pub closed spec fn name_capacity(&self) -> usize {
        self.max_profile_name_bytes
    }

    #[verifier::type_invariant]
    spec fn well_formed(&self) -> bool {
        &&& self.status.sequence % 2 == 0
        &&& self.status.profile_name@.len() == self.max_profile_name_bytes
        &&& self.max_profile_name_bytes <= u32::MAX
    }

    /// An inactive lifecycle whose snapshot holds names of up to
    /// `max_profile_name_bytes` bytes.
    pub fn new(max_profile_name_bytes: usize) -> (l: Lifecycle)
        requires
            max_profile_name_bytes <= u32::MAX,
        ensures
            l.current_phase() == LifecyclePhase::Inactive,
            l.name_capacity() == max_profile_name_bytes,
            l.current_status().sequence == 0,
            l.current_status().hook_status == HookStatus::Inactive,
            l.current_status().profile_name_len == 0,
            l.current_status().profile_name@ == zeros(max_profile_name_bytes as int),
    {
        let profile_name = zero_bytes(max_profile_name_bytes);
        Lifecycle {
            phase: LifecyclePhase::Inactive,
            status: StatusSnapshot {
                sequence: 0,
                hook_status: HookStatus::Inactive,
                profile_name_len: 0,
                profile_name,
            },
            max_profile_name_bytes,
        }
    }

    /// The current phase.
    pub fn phase(&self) -> (p: LifecyclePhase)
        ensures
            p == self.current_phase(),
    {
        self.phase
    }

    /// The exported status; its sequence number is always even.
    pub fn status(&self) -> (s: &StatusSnapshot)
        ensures
            *s == self.current_status(),
            s.sequence % 2 == 0,
            s.profile_name@.len() == self.name_capacity(),
    {
        proof {
            use_type_invariant(self);
        }
        &self.status
    }

    /// Publishes `status` with `profile_name`; the sequence number moves by two.
    pub fn publish_status(&mut self, status: HookStatus, profile_name: Option<&str>)
        ensures
            is_publication(
                old(self).current_status().sequence,
                status,
                name_bytes(profile_name),
                old(self).name_capacity(),
                final(self).current_status(),
            ),
            final(self).current_phase() == old(self).current_phase(),
            final(self).name_capacity() == old(self).name_capacity(),
    {
        proof {
            use_type_invariant(&*self);
        }
        let max = self.max_profile_name_bytes;
        let mut hook_status = status;
        let mut profile_name_len: u32 = 0;
        let mut storage = zero_bytes(max);
        match profile_name {
            Some(name) => {
                let bytes = name.as_bytes();
                if bytes.len() == 0 || bytes.len() > max {
                    hook_status = HookStatus::Inactive;
                } else {
                    profile_name_len = bytes.len() as u32;
                    copy_prefix(&mut storage, bytes);
                    assert(zeros(max as int).subrange(bytes@.len() as int, max as int) =~= zeros(
                        max - bytes@.len(),
                    ));
                }
            },
            None => {},
        }
        let previous = self.status.sequence;
        let sequence: u32 = if previous >= 0xFFFF_FFFE {
            previous - 0xFFFF_FFFE
        } else {
            previous + 2
        };
        assert(sequence == sequence_after_publish(previous) && sequence % 2 == 0);
        self.status = StatusSnapshot { sequence, hook_status, profile_name_len, profile_name: storage };
    }

    fn set_lifecycle_and_status(
        &mut self,
        phase: LifecyclePhase,
        status: HookStatus,
        profile_name: Option<&str>,
    )
        ensures
            final(self).current_phase() == phase,
            is_publication(
                old(self).current_status().sequence,
                status,
                name_bytes(profile_name),
                old(self).name_capacity(),
                final(self).current_status(),
            ),
            final(self).name_capacity() == old(self).name_capacity(),
    {
        self.publish_status(status, profile_name);
        proof {
            use_type_invariant(&*self);
        }
        self.phase = phase;
    }

    /// Whether the runtime serves presents: running or replacing assignments.
    pub fn is_runtime_active(&self) -> (r: bool)
        ensures
            r == phase_is_active(self.current_phase()),
    {
        match self.phase {
            LifecyclePhase::Running | LifecyclePhase::ReplacingAssignments => true,
            _ => false,
        }
    }

    /// Starts an initialization, which only an inactive runtime can do; the
    /// status then reports a transition.
    pub fn begin_initialization(&mut self) -> (t: Option<InitializationTransition>)
        ensures
            t is Some <==> old(self).current_phase() == LifecyclePhase::Inactive,
            t is Some ==> final(self).current_phase() == LifecyclePhase::Initializing
                && is_publication(
                old(self).current_status().sequence,
                HookStatus::Transitioning,
                None,
                old(self).name_capacity(),
                final(self).current_status(),
            ),
            t is None ==> final(self).current_phase() == old(self).current_phase()
                && final(self).current_status() == old(self).current_status(),
            final(self).name_capacity() == old(self).name_capacity(),
    {
        match self.phase {
            LifecyclePhase::Inactive => {},
            _ => return None,
        }
        self.set_lifecycle_and_status(LifecyclePhase::Initializing, HookStatus::Transitioning, None);
        Some(InitializationTransition { started: true })
    }

    /// Starts replacing the assignments of a running runtime.
    pub fn begin_replace_assignments(&mut self) -> (start: ReplaceAssignmentsStart)
        ensures
            replace_answer(old(self).current_phase(), start),
            start is Started ==> final(self).current_phase() == LifecyclePhase::ReplacingAssignments
                && is_publication(
                old(self).current_status().sequence,
                HookStatus::Transitioning,
                None,
                old(self).name_capacity(),
                final(self).current_status(),
            ),
            !(start is Started) ==> final(self).current_phase() == old(self).current_phase()
                && final(self).current_status() == old(self).current_status(),
            final(self).name_capacity() == old(self).name_capacity(),
    {
        match self.phase {
            LifecyclePhase::Running => {
                self.set_lifecycle_and_status(
                    LifecyclePhase::ReplacingAssignments,
                    HookStatus::Transitioning,
                    None,
                );
                ReplaceAssignmentsStart::Started(ReplaceAssignmentsTransition { started: true })
            },
            LifecyclePhase::Inactive => ReplaceAssignmentsStart::RuntimeInactive,
            _ => ReplaceAssignmentsStart::AlreadyInProgress,
        }
    }

    /// Starts shutting down a running runtime; otherwise says what stands in the way.
    pub fn begin_shutdown(&mut self) -> (start: ShutdownStart)
        ensures
            shutdown_answer(old(self).current_phase(), start),
            start is Started ==> final(self).current_phase() == LifecyclePhase::ShuttingDown
                && is_publication(
                old(self).current_status().sequence,
                HookStatus::Transitioning,
                None,
                old(self).name_capacity(),
                final(self).current_status(),
            ),
            !(start is Started) ==> final(self).current_phase() == old(self).current_phase()
                && final(self).current_status() == old(self).current_status(),
            final(self).name_capacity() == old(self).name_capacity(),
    {
        match self.phase {
            LifecyclePhase::Running => {
                self.set_lifecycle_and_status(
                    LifecyclePhase::ShuttingDown,
                    HookStatus::Transitioning,
                    None,
                );
                ShutdownStart::Started(ShutdownTransition { started: true })
            },
            LifecyclePhase::Initializing => ShutdownStart::InitializationInProgress,
            LifecyclePhase::ReplacingAssignments => ShutdownStart::AssignmentReplacementInProgress,
            LifecyclePhase::ShuttingDown => ShutdownStart::ShutdownInProgress,
            LifecyclePhase::Inactive => ShutdownStart::AlreadyInactive,
        }
    }

    /// Puts the lifecycle back to inactive, whatever it was doing.
    pub fn reset(&mut self)
        ensures
            final(self).current_phase() == LifecyclePhase::Inactive,
            is_publication(
                old(self).current_status().sequence,
                HookStatus::Inactive,
                None,
                old(self).name_capacity(),
                final(self).current_status(),
            ),
            final(self).name_capacity() == old(self).name_capacity(),
    {
        self.set_lifecycle_and_status(LifecyclePhase::Inactive, HookStatus::Inactive, None);
    }

    fn complete_active(&mut self, profile_name: &str)
        ensures
            final(self).current_phase() == LifecyclePhase::Running,
            is_publication(
                old(self).current_status().sequence,
                HookStatus::Active,
                Some(profile_name.spec_bytes()),
                old(self).name_capacity(),
                final(self).current_status(),
            ),
            final(self).name_capacity() == old(self).name_capacity(),
    {
        self.set_lifecycle_and_status(LifecyclePhase::Running, HookStatus::Active, Some(profile_name));
    }
}

impl InitializationTransition {
    /// Ends the initialization with the runtime running `profile_name`.
    pub fn commit_active(self, lifecycle: &mut Lifecycle, profile_name: &str)
        ensures
            final(lifecycle).current_phase() == LifecyclePhase::Running,
            is_publication(
                old(lifecycle).current_status().sequence,
                HookStatus::Active,
                Some(profile_name.spec_bytes()),
                old(lifecycle).name_capacity(),
                final(lifecycle).current_status(),
            ),
            final(lifecycle).name_capacity() == old(lifecycle).name_capacity(),
    {
        lifecycle.complete_active(profile_name);
    }

    /// Ends the initialization with the runtime inactive.
    pub fn finish_inactive(self, lifecycle: &mut Lifecycle)
        ensures
            final(lifecycle).current_phase() == LifecyclePhase::Inactive,
            is_publication(
                old(lifecycle).current_status().sequence,
                HookStatus::Inactive,
                None,
                old(lifecycle).name_capacity(),
                final(lifecycle).current_status(),
            ),
            final(lifecycle).name_capacity() == old(lifecycle).name_capacity(),
    {
        lifecycle.reset();
    }
}

impl ReplaceAssignmentsTransition {
    /// Ends the replacement with the runtime running `profile_name`.
    pub fn commit_active(self, lifecycle: &mut Lifecycle, profile_name: &str)
        ensures
            final(lifecycle).current_phase() == LifecyclePhase::Running,
            is_publication(
                old(lifecycle).current_status().sequence,
                HookStatus::Active,
                Some(profile_name.spec_bytes()),
                old(lifecycle).name_capacity(),
                final(lifecycle).current_status(),
            ),
            final(lifecycle).name_capacity() == old(lifecycle).name_capacity(),
    {
        lifecycle.complete_active(profile_name);
    }

    /// Ends the replacement with the runtime inactive.
    pub fn finish_inactive(self, lifecycle: &mut Lifecycle)
        ensures
            final(lifecycle).current_phase() == LifecyclePhase::Inactive,
            is_publication(
                old(lifecycle).current_status().sequence,
                HookStatus::Inactive,
                None,
                old(lifecycle).name_capacity(),
                final(lifecycle).current_status(),
            ),
            final(lifecycle).name_capacity() == old(lifecycle).name_capacity(),
    {
        lifecycle.reset();
    }
}

impl ShutdownTransition {
    /// Ends the shutdown with the runtime inactive.
    pub fn finish_inactive(self, lifecycle: &mut Lifecycle)
        ensures
            final(lifecycle).current_phase() == LifecyclePhase::Inactive,
            is_publication(
                old(lifecycle).current_status().sequence,
                HookStatus::Inactive,
                None,
                old(lifecycle).name_capacity(),
                final(lifecycle).current_status(),
            ),
            final(lifecycle).name_capacity() == old(lifecycle).name_capacity(),
    {
        lifecycle.reset();
    }
}

/// While an initialization, a replacement or a shutdown is under way, no
/// other one can start: initialization is refused, a replacement is told one
/// is in progress, and a shutdown is told which one.
pub proof fn lemma_transitions_exclude_each_other(
    phase: LifecyclePhase,
    replace: ReplaceAssignmentsStart,
    shutdown: ShutdownStart,
)
    requires
        phase is Initializing || phase is ReplacingAssignments || phase is ShuttingDown,
    ensures
        phase != LifecyclePhase::Inactive,
        replace_answer(phase, replace) ==> replace is AlreadyInProgress,
        shutdown_answer(phase, shutdown) ==> !(shutdown is Started) && !(shutdown is AlreadyInactive),
{
}

/// Publications keep the sequence number even: an even number stays even
/// when it moves by two, across the wrap at 2^32 too.
pub proof fn lemma_publication_keeps_sequence_even(sequence: u32)
    requires
        sequence % 2 == 0,
    ensures
        sequence_after_publish(sequence) % 2 == 0,
        sequence_after_publish(sequence) != sequence,
{
}

/// Publishing a status with a profile name that fits (not empty, at most
/// the storage size) over an even sequence number gives an even sequence
/// two further on (wrapping at 2^32), the status itself, the name's length,
/// and storage that starts with the name's bytes and is zero after them.
/// Without a name the status is published with an empty name.
pub proof fn lemma_publication_layout(
    previous_sequence: u32,
    status: HookStatus,
    name: Option<Seq<u8>>,
    max: usize,
    snapshot: StatusSnapshot,
)
    requires
        previous_sequence % 2 == 0,
        is_publication(previous_sequence, status, name, max, snapshot),
        name matches Some(bytes) ==> name_fits(bytes, max),
    ensures
        snapshot.sequence == sequence_after_publish(previous_sequence),
        snapshot.sequence % 2 == 0,
        snapshot.hook_status == status,
        match name {
            Some(bytes) => {
                &&& snapshot.profile_name_len == bytes.len()
                &&& snapshot.profile_name@.len() == max
                &&& snapshot.profile_name@.subrange(0, bytes.len() as int) == bytes
                &&& forall|i: int|
                    bytes.len() <= i < max ==> #[trigger] snapshot.profile_name@[i] == 0
            },
            None => {
                &&& snapshot.profile_name_len == 0
                &&& snapshot.profile_name@ == zeros(max as int)
            },
        },
{
    match name {
        Some(bytes) => {
            assert(snapshot.profile_name@.subrange(0, bytes.len() as int) =~= bytes);
        },
        None => {},
    }
}

fn zero_bytes(count: usize) -> (v: Vec<u8>)
    ensures
        v@ == zeros(count as int),
{
    let mut v: Vec<u8> = Vec::new();
    let mut i: usize = 0;
    while i < count
        invariant
            i <= count,
            v@ == zeros(i as int),
        decreases count - i,
    {
        v.push(0u8);
        i = i + 1;
        assert(v@ =~= zeros(i as int));
    }
    v
}

fn copy_prefix(storage: &mut Vec<u8>, bytes: &[u8])
    requires
        bytes@.len() <= old(storage)@.len(),
    ensures
        final(storage)@ == bytes@ + old(storage)@.subrange(
            bytes@.len() as int,
            old(storage)@.len() as int,
        ),
{
    let ghost original = storage@;
    let mut i: usize = 0;
    while i < bytes.len()
        invariant
            i <= bytes@.len(),
            bytes@.len() <= original.len(),
            storage@.len() == original.len(),
            forall|j: int| 0 <= j < i ==> storage@[j] == bytes@[j],
            forall|j: int| i <= j < original.len() ==> storage@[j] == original[j],
        decreases bytes@.len() - i,
    {
        storage.set(i, bytes[i]);
        i = i + 1;
    }
    assert(storage@ =~= bytes@ + original.subrange(bytes@.len() as int, original.len() as int));
}

} // verus!
