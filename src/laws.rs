use vstd::prelude::*;

use crate::bootstrap::{handles_at, teardown_of, HandleKind, Phase};
use crate::selection::{has_graphics, is_first_match, satisfies, FamilyDescriptor};

verus! {

/// Selection is deterministic: for one enumeration and one predicate there is
/// at most one first match, so no later family can be chosen over an earlier
/// one that qualifies.
pub proof fn lemma_first_match_unique(
    devices: Seq<Seq<FamilyDescriptor>>,
    target_supplied: bool,
    d1: int,
    f1: int,
    d2: int,
    f2: int,
)
    requires
        is_first_match(devices, target_supplied, d1, f1),
        is_first_match(devices, target_supplied, d2, f2),
    ensures
        d1 == d2 && f1 == f2,
{
    if d1 < d2 || (d1 == d2 && f1 < f2) {
        assert(!satisfies(devices[d1][f1], target_supplied));
    } else if d2 < d1 || (d1 == d2 && f2 < f1) {
        assert(!satisfies(devices[d2][f2], target_supplied));
    }
}

/// With a presentation target, a family qualifies only if it reports
/// presentation support on that target; without one, presentation support is
/// not asked for and graphics execution alone decides.
pub proof fn lemma_presentation_requirement(family: FamilyDescriptor)
    ensures
        satisfies(family, true) ==> family.presentation == Some(true),
        satisfies(family, false) == has_graphics(family),
{
}

/// Handles are torn down in reverse creation order: every handle is destroyed
/// before each handle created earlier than it.
pub proof fn lemma_teardown_reverses_creation(created: Seq<HandleKind>, i: int, j: int)
    requires
        0 <= i < j < created.len(),
    ensures
        teardown_of(created)[created.len() - 1 - j] == created[j],
        teardown_of(created)[created.len() - 1 - i] == created[i],
        created.len() - 1 - j < created.len() - 1 - i,
{
}

/// Destroying distinct handles in creation order is never a valid teardown
/// once there are two or more of them.
pub proof fn lemma_creation_order_is_not_teardown(created: Seq<HandleKind>)
    requires
        created.len() >= 2,
        created.no_duplicates(),
    ensures
        created != teardown_of(created),
{
    assert(teardown_of(created)[0] == created[created.len() - 1]);
    assert(created[0] != created[created.len() - 1]);
}

/// After a complete start-up the device goes first, then the diagnostics
/// messenger, and the instance last.
pub proof fn lemma_full_teardown()
    ensures
        teardown_of(handles_at(Phase::LogicalDeviceCreated)) == seq![
            HandleKind::LogicalDevice,
            HandleKind::DiagnosticsMessenger,
            HandleKind::Instance,
        ],
{
    assert(teardown_of(handles_at(Phase::LogicalDeviceCreated)) =~= seq![
        HandleKind::LogicalDevice,
        HandleKind::DiagnosticsMessenger,
        HandleKind::Instance,
    ]);
}

} // verus!
