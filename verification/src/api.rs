//! Machines as the platform's API describes them: what state a machine is
//! in, how its host and its health checks fare, and whether it is ready to
//! take requests.

use crate::region::{Location, Region};
use vstd::prelude::*;

verus! {

/// The state of a machine.
#[derive(PartialEq, Eq, Structural, PartialOrd, Ord, Copy, Clone, Debug)]
pub enum MachineState {
    /// The initial status of a machine
    Created,
    /// Transitioning from `Stopped` to `Started`
    Starting,
    /// Running and network-accessible
    Started,
    /// Transitioning from `Started` to `Stopped`
    Stopping,
    /// Exited, either on its own or explicitly stopped
    Stopped,
    /// User-initiated configuration change (image, VM size, etc.) in progress
    Replacing,
    /// User asked for the Machine to be completely removed
    Destroying,
    /// No longer exists
    Destroyed,
}

impl MachineState {
    /// Check if the state indicates the machine is ready to handle requests.
    pub fn is_ready(&self) -> (ready: bool)
        ensures
            ready == (*self == MachineState::Started),
    {
        match self {
            MachineState::Started => true,
            _ => false,
        }
    }

    /// The state that a transition ends in; none for a state that is no
    /// transition.
    pub open spec fn spec_target(self) -> Option<MachineState> {
        match self {
            MachineState::Starting => Some(MachineState::Started),
            MachineState::Stopping => Some(MachineState::Stopped),
            MachineState::Replacing => Some(MachineState::Stopped),
            MachineState::Destroying => Some(MachineState::Destroyed),
            _ => None,
        }
    }

    /// If this state is a transition, the state the machine will be in if the
    /// transition completes.
    pub fn target(&self) -> (target: Option<MachineState>)
        ensures
            target == self.spec_target(),
    {
        match self {
            MachineState::Starting => Some(MachineState::Started),
            MachineState::Stopping => Some(MachineState::Stopped),
            MachineState::Replacing => Some(MachineState::Stopped),
            MachineState::Destroying => Some(MachineState::Destroyed),
            _ => None,
        }
    }

    /// Check if the state is an in-progress transition to
    /// [another state][Self::target()].
    pub fn is_transition(&self) -> (transition: bool)
        ensures
            transition == self.spec_target() is Some,
    {
        self.target().is_some()
    }
}

/// No transition ends in a transition: what a machine is headed for is a
/// state in which it rests.
pub proof fn lemma_target_rests(state: MachineState)
    ensures
        state.spec_target() is Some ==> state.spec_target().unwrap().spec_target() is None,
        state.spec_target() != Some(state),
{
}

/// The status of the hardware underlying a machine.
#[derive(PartialEq, Eq, Structural, PartialOrd, Ord, Copy, Clone, Debug)]
pub enum HostStatus {
    Okay,
    Unreachable,
    Unknown,
}

impl HostStatus {
    /// Check if the status indicates the machine is ready to handle requests.
    pub fn is_ready(&self) -> (ready: bool)
        ensures
            ready == (*self == HostStatus::Okay),
    {
        match self {
            HostStatus::Okay => true,
            _ => false,
        }
    }
}

impl Default for HostStatus {
    fn default() -> (status: HostStatus)
        ensures
            status == HostStatus::Okay,
    {
        HostStatus::Okay
    }
}

/// The status of a health check.
#[derive(PartialEq, Eq, Structural, Copy, Clone, Debug)]
pub enum CheckStatus {
    Passing,
    Warning,
    Critical,
}

impl CheckStatus {
    /// Check if the status indicates the service is ready to handle requests.
    pub fn is_ready(&self) -> (ready: bool)
        ensures
            ready == (*self == CheckStatus::Passing),
    {
        match self {
            CheckStatus::Passing => true,
            _ => false,
        }
    }
}

/// The last-observed state of a service health check on a [`Machine`].
#[derive(PartialEq, Eq, Clone, Debug)]
pub struct MachineCheckState {
    pub name: String,
    pub status: CheckStatus,
    pub output: Option<String>,
}

impl MachineCheckState {
    /// Check if the status indicates the service is ready to handle requests.
    pub fn is_ready(&self) -> (ready: bool)
        ensures
            ready == (self.status == CheckStatus::Passing),
    {
        self.status.is_ready()
    }
}

/// An application, as the list of an organization's applications shows it.
#[derive(PartialEq, Eq, Clone, Debug)]
pub struct AppEntry {
    pub id: String,
    pub name: String,
    pub machine_count: usize,
    pub network_name: String,
}

/// The applications of an organization.
#[derive(PartialEq, Eq, Clone, Debug)]
pub struct OrganizationApps {
    pub total: usize,
    pub apps: Vec<AppEntry>,
}

impl OrganizationApps {
    /// Go through the applications in the order of the list.
    pub fn iter(&self) -> (iter: core::slice::Iter<'_, AppEntry>)
        ensures
            vstd::std_specs::iter::IteratorSpec::remaining(&iter) == self.apps@.as_ref(),
    {
        let apps = self.apps.as_slice();
        proof {
            vstd::std_specs::slice::axiom_spec_slice_iter(apps);
        }
        apps.iter()
    }

    /// The number of applications listed.
    pub fn len(&self) -> (count: usize)
        ensures
            count == self.apps@.len(),
    {
        self.apps.len()
    }

    /// The application at `index` of the list.
    pub fn get(&self, index: usize) -> (app: Option<&AppEntry>)
        ensures
            app == (if index < self.apps@.len() {
                Some(&self.apps@[index as int])
            } else {
                None
            }),
    {
        if index < self.apps.len() {
            Some(&self.apps[index])
        } else {
            None
        }
    }
}

/// Whether every health check passes.
pub open spec fn all_passing(checks: Seq<MachineCheckState>) -> bool {
    forall|i: int| 0 <= i < checks.len() ==> (#[trigger] checks[i]).status == CheckStatus::Passing
}

/// A machine.
#[derive(PartialEq, Eq, Clone, Debug)]
pub struct Machine {
    /// A stable identifier for the Machine.
    pub id: String,
    /// A unique name for the Machine.
    pub name: String,
    pub state: MachineState,
    pub location: Location,
    /// An identifier for the current running/ready version of the Machine.
    pub instance_id: String,
    /// The 128 bits of the machine's private IPv6 address.
    pub private_ip: u128,
    pub checks: Vec<MachineCheckState>,
    pub host_status: HostStatus,
}

impl Machine {
    /// Checks if this machine's `state` is `started`.
    pub fn is_running(&self) -> (running: bool)
        ensures
            running == (self.state == MachineState::Started),
    {
        self.state.is_ready()
    }

    /// Checks if this machine is running on a host that is in order, and
    /// its health checks (if any) are passing.
    pub fn is_ready(&self) -> (ready: bool)
        ensures
            ready == (self.state == MachineState::Started && self.host_status == HostStatus::Okay
                && all_passing(self.checks@)),
    {
        if !self.is_running() || !self.host_status.is_ready() {
            return false;
        }
        let mut i: usize = 0;
        while i < self.checks.len()
            invariant
                i <= self.checks@.len(),
                forall|j: int|
                    0 <= j < i ==> (#[trigger] self.checks@[j]).status == CheckStatus::Passing,
            decreases self.checks.len() - i,
        {
            if !self.checks[i].is_ready() {
                return false;
            }
            i += 1;
        }
        true
    }

    /// Return this machine's [`Region`], if its region code was recognized.
    pub fn region(&self) -> (region: Option<Region>)
        ensures
            region == (match self.location {
                Location::Region(region) => Some(region),
                Location::Unknown(_) => None,
            }),
    {
        self.location.region()
    }
}

} // verus!
