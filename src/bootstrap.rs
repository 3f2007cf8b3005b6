use vstd::prelude::*;

use crate::error::BootError;

verus! {

/// The start-up phases, in the only order they are reached.
#[derive(Debug, Clone, Copy, PartialEq, Eq, Structural)]
pub enum Phase {
    Uninitialized,
    InstanceCreated,
    DiagnosticsAttached,
    PhysicalDeviceSelected,
    LogicalDeviceCreated,
}

/// The next piece of driver work, or the end of start-up.
#[derive(Debug, Clone, Copy, PartialEq, Eq, Structural)]
pub enum Action {
    CreateInstance,
    AttachDiagnostics,
    SelectDevice,
    CreateDevice,
    Finished,
    Stop,
}

/// A handle that must be destroyed at teardown.
#[derive(Debug, Clone, Copy, PartialEq, Eq, Structural)]
pub enum HandleKind {
    Instance,
    DiagnosticsMessenger,
    LogicalDevice,
}

pub open spec fn rank(p: Phase) -> nat {
    match p {
        Phase::Uninitialized => 0,
        Phase::InstanceCreated => 1,
        Phase::DiagnosticsAttached => 2,
        Phase::PhysicalDeviceSelected => 3,
        Phase::LogicalDeviceCreated => 4,
    }
}

pub open spec fn successor(p: Phase) -> Phase {
    match p {
        Phase::Uninitialized => Phase::InstanceCreated,
        Phase::InstanceCreated => Phase::DiagnosticsAttached,
        Phase::DiagnosticsAttached => Phase::PhysicalDeviceSelected,
        Phase::PhysicalDeviceSelected => Phase::LogicalDeviceCreated,
        Phase::LogicalDeviceCreated => Phase::LogicalDeviceCreated,
    }
}

/// The work that leads out of a phase.
pub open spec fn work_after(p: Phase) -> Action {
    match p {
        Phase::Uninitialized => Action::CreateInstance,
        Phase::InstanceCreated => Action::AttachDiagnostics,
        Phase::DiagnosticsAttached => Action::SelectDevice,
        Phase::PhysicalDeviceSelected => Action::CreateDevice,
        Phase::LogicalDeviceCreated => Action::Finished,
    }
}

/// The error a failure of each piece of work is reported as.
pub open spec fn failure_of(a: Action) -> BootError {
    match a {
        Action::SelectDevice => BootError::NoSuitableDevice,
        Action::CreateDevice => BootError::DeviceCreation,
        _ => BootError::Initialization,
    }
}

/// The handles that exist once a phase is reached, in creation order.
pub open spec fn handles_at(p: Phase) -> Seq<HandleKind> {
    match p {
        Phase::Uninitialized => seq![],
        Phase::InstanceCreated => seq![HandleKind::Instance],
        Phase::DiagnosticsAttached => seq![HandleKind::Instance, HandleKind::DiagnosticsMessenger],
        Phase::PhysicalDeviceSelected => seq![HandleKind::Instance, HandleKind::DiagnosticsMessenger],
        Phase::LogicalDeviceCreated => seq![
            HandleKind::Instance,
            HandleKind::DiagnosticsMessenger,
            HandleKind::LogicalDevice,
        ],
    }
}

/// The only valid teardown order: the reverse of creation order.
pub open spec fn teardown_of(created: Seq<HandleKind>) -> Seq<HandleKind> {
    created.reverse()
}

/// Start-up progress: the phase reached, and the error that stopped it, if any.
/// It moves one way only, and stays put once it has failed.
pub struct Bootstrap {
    pub phase: Phase,
    pub failure: Option<BootError>,
}

impl Bootstrap {
    pub fn new() -> (r: Bootstrap)
        ensures
            r.phase == Phase::Uninitialized,
            r.failure is None,
    {
        Bootstrap { phase: Phase::Uninitialized, failure: None }
    }

    /// What to do next: the work that leads out of the current phase, or
    /// `Stop` once a step has failed.
    pub fn next_action(&self) -> (r: Action)
        ensures
            self.failure is Some ==> r == Action::Stop,
            self.failure is None ==> r == work_after(self.phase),
    {
        if self.failure.is_some() {
            return Action::Stop;
        }
        match self.phase {
            Phase::Uninitialized => Action::CreateInstance,
            Phase::InstanceCreated => Action::AttachDiagnostics,
            Phase::DiagnosticsAttached => Action::SelectDevice,
            Phase::PhysicalDeviceSelected => Action::CreateDevice,
            Phase::LogicalDeviceCreated => Action::Finished,
        }
    }

    /// Records the outcome of the work `next_action` asked for. Success moves
    /// to the next phase; failure keeps the phase and stops start-up. After a
    /// failure, or at the end, nothing changes.
    pub fn record(&mut self, outcome: Result<(), BootError>)
        ensures
            (old(self).failure is Some || old(self).phase == Phase::LogicalDeviceCreated)
                ==> *final(self) == *old(self),
            old(self).failure is None && old(self).phase != Phase::LogicalDeviceCreated ==> match outcome {
                Ok(()) => final(self).phase == successor(old(self).phase) && final(self).failure is None,
                Err(e) => final(self).phase == old(self).phase && final(self).failure == Some(e),
            },
            rank(final(self).phase) >= rank(old(self).phase),
            old(self).failure is Some ==> final(self).failure == old(self).failure,
    {
        if self.failure.is_some() {
            return;
        }
        match outcome {
            Ok(()) => {
                self.phase = match self.phase {
                    Phase::Uninitialized => Phase::InstanceCreated,
                    Phase::InstanceCreated => Phase::DiagnosticsAttached,
                    Phase::DiagnosticsAttached => Phase::PhysicalDeviceSelected,
                    Phase::PhysicalDeviceSelected => Phase::LogicalDeviceCreated,
                    Phase::LogicalDeviceCreated => Phase::LogicalDeviceCreated,
                };
            },
            Err(e) => {
                if self.phase != Phase::LogicalDeviceCreated {
                    self.failure = Some(e);
                }
            },
        }
    }

    /// The handles that exist at the current phase, in creation order.
    pub fn created_handles(&self) -> (r: Vec<HandleKind>)
        ensures
            r@ == handles_at(self.phase),
    {
        let mut v: Vec<HandleKind> = Vec::new();
        if self.phase != Phase::Uninitialized {
            v.push(HandleKind::Instance);
        }
        if self.phase != Phase::Uninitialized && self.phase != Phase::InstanceCreated {
            v.push(HandleKind::DiagnosticsMessenger);
        }
        if self.phase == Phase::LogicalDeviceCreated {
            v.push(HandleKind::LogicalDevice);
        }
        proof {
            assert(v@ =~= handles_at(self.phase));
        }
        v
    }

    /// The order in which the existing handles must be destroyed.
    pub fn teardown_order(&self) -> (r: Vec<HandleKind>)
        ensures
            r@ == teardown_of(handles_at(self.phase)),
    {
        let created = self.created_handles();
        reversed(&created)
    }
}

/// The error a failure of `action` is reported as.
pub fn failure_kind(action: Action) -> (r: BootError)
    ensures
        r == failure_of(action),
{
    match action {
        Action::SelectDevice => BootError::NoSuitableDevice,
        Action::CreateDevice => BootError::DeviceCreation,
        _ => BootError::Initialization,
    }
}

/// `v` in reverse order.
pub fn reversed(v: &Vec<HandleKind>) -> (r: Vec<HandleKind>)
    ensures
        r@ == v@.reverse(),
{
    let mut r: Vec<HandleKind> = Vec::new();
    let mut i: usize = v.len();
    while i > 0
        invariant
            i <= v@.len(),
            r@ =~= v@.subrange(i as int, v@.len() as int).reverse(),
        decreases i,
    {
        i -= 1;
        r.push(v[i]);
        assert(v@.subrange(i as int, v@.len() as int).reverse() =~= v@.subrange(
            i + 1,
            v@.len() as int,
        ).reverse().push(v@[i as int]));
    }
    assert(v@.subrange(0, v@.len() as int) =~= v@);
    r
}

/// Whether `order` is a valid teardown of handles created in `created` order.
pub fn is_valid_teardown(created: &Vec<HandleKind>, order: &Vec<HandleKind>) -> (r: bool)
    ensures
        r == (order@ == teardown_of(created@)),
{
    let rev = reversed(created);
    if rev.len() != order.len() {
        return false;
    }
    let mut i: usize = 0;
    while i < rev.len()
        invariant
            rev@ == created@.reverse(),
            rev@.len() == order@.len(),
            i <= rev@.len(),
            forall|j: int| 0 <= j < i ==> rev@[j] == order@[j],
        decreases rev@.len() - i,
    {
        if rev[i] != order[i] {
            return false;
        }
        i += 1;
    }
    assert(rev@ =~= order@);
    true
}

} // verus!
