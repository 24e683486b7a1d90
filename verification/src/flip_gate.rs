use vstd::prelude::*;

use crate::config::{LutAssignment, MonitorIdentity};

verus! {

/// Whether one of `assignments` targets the monitor `identity`.
pub open spec fn identity_assigned(assignments: Seq<LutAssignment>, identity: MonitorIdentity) -> bool {
    exists|i: int| 0 <= i < assignments.len() && #[trigger] assignments[i].target.identity == identity
}

/// Whether the flip gate has anything to guard: the runtime is active and
/// holds at least one LUT assignment. Only then is the monitor of a
/// present worth reading.
pub fn flip_gate_armed(runtime_active: bool, assignments: Option<&[LutAssignment]>) -> (r: bool)
    ensures
        r == (runtime_active && match assignments {
            Some(a) => a@.len() > 0,
            None => false,
        }),
{
    if !runtime_active {
        return false;
    }
    match assignments {
        Some(a) => a.len() > 0,
        None => false,
    }
}

/// Whether a direct-flip, independent-flip or overlay query for a present
/// is answered "no": the flip gate is armed and the monitor of
/// the present (`None` when there is no hook profile or it was not found)
/// has a LUT assigned. Such a present stays on the composed path, where
/// the LUT is drawn.
pub fn should_block(
    runtime_active: bool,
    assignments: Option<&[LutAssignment]>,
    identity: Option<MonitorIdentity>,
) -> (r: bool)
    ensures
        r == (runtime_active && match assignments {
            Some(a) => match identity {
                Some(id) => identity_assigned(a@, id),
                None => false,
            },
            None => false,
        }),
{
    if !flip_gate_armed(runtime_active, assignments) {
        return false;
    }
    let a = match assignments {
        Some(a) => a,
        None => return false,
    };
    let id = match identity {
        Some(id) => id,
        None => return false,
    };
    let mut i: usize = 0;
    while i < a.len()
        invariant
            runtime_active,
            assignments == Some(a),
            identity == Some(id),
            0 <= i <= a@.len(),
            forall|j: int| 0 <= j < i ==> #[trigger] a@[j].target.identity != id,
        decreases a@.len() - i,
    {
        if a[i].target.identity == id {
            assert(a@[i as int].target.identity == id);
            return true;
        }
        i = i + 1;
    }
    false
}

} // verus!
