//! Container states and how they sum up to an instance state.
use vstd::prelude::*;
use crate::text::text_eq;

verus! {

/// The state of one container, as reported by the engine or by this library.
#[derive(Clone, Copy, Debug, PartialEq, Eq, Structural)]
pub enum ContainerStatus {
    Running,
    Stopped,
    Restarting,
    Paused,
    Exited,
    Dead,
    Unknown,
    NotFound,
    Deleted,
}

/// The state of an instance, derived from the states of its containers.
#[derive(Clone, Copy, Debug, PartialEq, Eq, Structural)]
pub enum InstanceStatus {
    Running,
    Stopped,
    Restarting,
    Paused,
    Exited,
    Dead,
    Unknown,
    PartiallyRunning,
    Deleted,
}

/// How a collection of container states sums up to one instance state.
pub open spec fn aggregate(s: Seq<ContainerStatus>) -> InstanceStatus {
    if s.len() == 0 {
        InstanceStatus::Unknown
    } else if forall|i: int| 0 <= i < s.len() ==> s[i] == ContainerStatus::Running {
        InstanceStatus::Running
    } else if exists|i: int| 0 <= i < s.len() && s[i] == ContainerStatus::Running {
        InstanceStatus::PartiallyRunning
    } else {
        InstanceStatus::Stopped
    }
}

proof fn lemma_all_running_by_contents(s: Seq<ContainerStatus>)
    ensures
        (forall|i: int| 0 <= i < s.len() ==> s[i] == ContainerStatus::Running) <==> (forall|x: ContainerStatus|
            s.contains(x) ==> x == ContainerStatus::Running),
{
    if forall|x: ContainerStatus| s.contains(x) ==> x == ContainerStatus::Running {
        assert forall|i: int| 0 <= i < s.len() implies s[i] == ContainerStatus::Running by {
            assert(s.contains(s[i]));
        }
    }
}

/// The instance state is one of four, fixed by which container states occur:
/// none gives `Unknown`, all running gives `Running`, some but not all running
/// gives `PartiallyRunning`, and none running gives `Stopped`. It depends on
/// the multiset of container states alone, not on their order.
pub proof fn lemma_aggregate_totality(s: Seq<ContainerStatus>, t: Seq<ContainerStatus>)
    ensures
        aggregate(s) == InstanceStatus::Running || aggregate(s) == InstanceStatus::PartiallyRunning
            || aggregate(s) == InstanceStatus::Stopped || aggregate(s) == InstanceStatus::Unknown,
        s.len() == 0 ==> aggregate(s) == InstanceStatus::Unknown,
        s.len() > 0 && (forall|i: int| 0 <= i < s.len() ==> s[i] == ContainerStatus::Running)
            ==> aggregate(s) == InstanceStatus::Running,
        s.contains(ContainerStatus::Running) && (exists|i: int|
            0 <= i < s.len() && s[i] != ContainerStatus::Running) ==> aggregate(s)
            == InstanceStatus::PartiallyRunning,
        s.len() > 0 && !s.contains(ContainerStatus::Running) ==> aggregate(s)
            == InstanceStatus::Stopped,
        s.to_multiset() == t.to_multiset() ==> aggregate(s) == aggregate(t),
{
    if s.len() > 0 && !s.contains(ContainerStatus::Running) {
        assert(s[0] != ContainerStatus::Running);
        assert(!(exists|i: int| 0 <= i < s.len() && s[i] == ContainerStatus::Running));
    }
    if s.to_multiset() == t.to_multiset() {
        assert forall|x: ContainerStatus| s.contains(x) <==> t.contains(x) by {
            vstd::seq_lib::to_multiset_contains(s, x);
            vstd::seq_lib::to_multiset_contains(t, x);
        }
        vstd::seq_lib::to_multiset_len(s);
        vstd::seq_lib::to_multiset_len(t);
        lemma_all_running_by_contents(s);
        lemma_all_running_by_contents(t);
        assert((exists|i: int| 0 <= i < s.len() && s[i] == ContainerStatus::Running) <==> s.contains(
            ContainerStatus::Running,
        ));
        assert((exists|i: int| 0 <= i < t.len() && t[i] == ContainerStatus::Running) <==> t.contains(
            ContainerStatus::Running,
        ));
    }
}

/// Sums up the states of an instance's containers.
pub fn determine_instance_status(statuses: &Vec<ContainerStatus>) -> (r: InstanceStatus)
    ensures
        r == aggregate(statuses@),
{
    if statuses.len() == 0 {
        return InstanceStatus::Unknown;
    }
    let mut all_running = true;
    let mut any_running = false;
    let mut i: usize = 0;
    while i < statuses.len()
        invariant
            i <= statuses.len(),
            all_running == (forall|j: int| 0 <= j < i ==> statuses@[j] == ContainerStatus::Running),
            any_running == (exists|j: int| 0 <= j < i && statuses@[j] == ContainerStatus::Running),
        decreases statuses.len() - i,
    {
        if statuses[i] == ContainerStatus::Running {
            any_running = true;
        } else {
            all_running = false;
        }
        i = i + 1;
    }
    if all_running {
        InstanceStatus::Running
    } else if any_running {
        InstanceStatus::PartiallyRunning
    } else {
        InstanceStatus::Stopped
    }
}


/// The name under which a container state is shown.
pub open spec fn status_name(s: ContainerStatus) -> Seq<char> {
    match s {
        ContainerStatus::Running => "running"@,
        ContainerStatus::Stopped => "stopped"@,
        ContainerStatus::Restarting => "restarting"@,
        ContainerStatus::Paused => "paused"@,
        ContainerStatus::Exited => "exited"@,
        ContainerStatus::Dead => "dead"@,
        ContainerStatus::Unknown => "unknown"@,
        ContainerStatus::NotFound => "not found"@,
        ContainerStatus::Deleted => "deleted"@,
    }
}

/// The container state that an engine state word stands for.
pub open spec fn status_of(s: Seq<char>) -> ContainerStatus {
    if s == "running"@ {
        ContainerStatus::Running
    } else if s == "stopped"@ {
        ContainerStatus::Stopped
    } else if s == "restarting"@ {
        ContainerStatus::Restarting
    } else if s == "paused"@ {
        ContainerStatus::Paused
    } else if s == "exited"@ {
        ContainerStatus::Exited
    } else if s == "dead"@ {
        ContainerStatus::Dead
    } else {
        ContainerStatus::Unknown
    }
}

/// The state of a container as an inspection reports it: a container the
/// engine does not know is `NotFound`; of the engine's states only running
/// and exited are told apart.
pub open spec fn inspected_status(found: bool, state: Seq<char>) -> ContainerStatus {
    if !found {
        ContainerStatus::NotFound
    } else if state == "running"@ {
        ContainerStatus::Running
    } else if state == "exited"@ {
        ContainerStatus::Stopped
    } else {
        ContainerStatus::Unknown
    }
}

impl ContainerStatus {
    pub fn to_string(&self) -> (r: String)
        ensures
            r@ == status_name(*self),
    {
        match self {
            ContainerStatus::Running => "running".to_owned(),
            ContainerStatus::Stopped => "stopped".to_owned(),
            ContainerStatus::Restarting => "restarting".to_owned(),
            ContainerStatus::Paused => "paused".to_owned(),
            ContainerStatus::Exited => "exited".to_owned(),
            ContainerStatus::Dead => "dead".to_owned(),
            ContainerStatus::Unknown => "unknown".to_owned(),
            ContainerStatus::NotFound => "not found".to_owned(),
            ContainerStatus::Deleted => "deleted".to_owned(),
        }
    }

    pub fn from_str(status: &str) -> (r: ContainerStatus)
        ensures
            r == status_of(status@),
    {
        if text_eq(status, "running") {
            ContainerStatus::Running
        } else if text_eq(status, "stopped") {
            ContainerStatus::Stopped
        } else if text_eq(status, "restarting") {
            ContainerStatus::Restarting
        } else if text_eq(status, "paused") {
            ContainerStatus::Paused
        } else if text_eq(status, "exited") {
            ContainerStatus::Exited
        } else if text_eq(status, "dead") {
            ContainerStatus::Dead
        } else {
            ContainerStatus::Unknown
        }
    }

    /// The state of a container from an inspection: `found` is false where the
    /// engine answered that it has no such container, and `state` is the state
    /// word it reported otherwise.
    pub fn from_inspection(found: bool, state: &str) -> (r: ContainerStatus)
        ensures
            r == inspected_status(found, state@),
    {
        if !found {
            ContainerStatus::NotFound
        } else if text_eq(state, "running") {
            ContainerStatus::Running
        } else if text_eq(state, "exited") {
            ContainerStatus::Stopped
        } else {
            ContainerStatus::Unknown
        }
    }
}

} // verus!
