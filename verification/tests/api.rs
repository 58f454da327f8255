use flytrap::api::{
    AppEntry, CheckStatus, HostStatus, Machine, MachineCheckState, MachineState, OrganizationApps,
};
use flytrap::region::{Location, Region};

fn check(status: CheckStatus) -> MachineCheckState {
    MachineCheckState { name: "http".to_string(), status, output: None }
}

fn machine(state: MachineState, host_status: HostStatus, checks: Vec<MachineCheckState>) -> Machine {
    Machine {
        id: "148eddd3b36068".to_string(),
        name: "quiet-sun-42".to_string(),
        state,
        location: Location::Region(Region::Seattle),
        instance_id: "01HGS".to_string(),
        private_ip: 0xfdaa_0000_0018_0a7b_0d6b_0000_000a_0002,
        checks,
        host_status,
    }
}

#[test]
fn machine_state_target() {
    assert_eq!(MachineState::Starting.target(), Some(MachineState::Started));
    assert_eq!(MachineState::Stopping.target(), Some(MachineState::Stopped));
    assert_eq!(MachineState::Replacing.target(), Some(MachineState::Stopped));
    assert_eq!(MachineState::Destroying.target(), Some(MachineState::Destroyed));
    assert_eq!(MachineState::Started.target(), None);
    assert_eq!(MachineState::Created.target(), None);
    assert_eq!(MachineState::Stopped.target(), None);
    assert_eq!(MachineState::Destroyed.target(), None);
}

#[test]
fn machine_state_is_transition() {
    assert!(MachineState::Starting.is_transition());
    assert!(MachineState::Destroying.is_transition());
    assert!(!MachineState::Started.is_transition());
    assert!(!MachineState::Destroyed.is_transition());
}

#[test]
fn only_started_is_ready() {
    assert!(MachineState::Started.is_ready());
    assert!(!MachineState::Starting.is_ready());
    assert!(!MachineState::Stopped.is_ready());
    assert!(HostStatus::Okay.is_ready());
    assert!(!HostStatus::Unreachable.is_ready());
    assert!(!HostStatus::Unknown.is_ready());
    assert_eq!(HostStatus::default(), HostStatus::Okay);
    assert!(CheckStatus::Passing.is_ready());
    assert!(!CheckStatus::Warning.is_ready());
    assert!(!CheckStatus::Critical.is_ready());
    assert!(check(CheckStatus::Passing).is_ready());
    assert!(!check(CheckStatus::Critical).is_ready());
}

#[test]
fn machine_is_ready_when_everything_is() {
    assert!(machine(MachineState::Started, HostStatus::Okay, vec![]).is_ready());
    assert!(machine(
        MachineState::Started,
        HostStatus::Okay,
        vec![check(CheckStatus::Passing), check(CheckStatus::Passing)]
    )
    .is_ready());
    assert!(!machine(
        MachineState::Started,
        HostStatus::Okay,
        vec![check(CheckStatus::Passing), check(CheckStatus::Warning)]
    )
    .is_ready());
    assert!(!machine(MachineState::Started, HostStatus::Unreachable, vec![]).is_ready());
    assert!(!machine(MachineState::Stopping, HostStatus::Okay, vec![]).is_ready());
    assert!(machine(MachineState::Started, HostStatus::Unknown, vec![]).is_running());
    assert_eq!(
        machine(MachineState::Started, HostStatus::Okay, vec![]).region(),
        Some(Region::Seattle)
    );
}

#[test]
fn organization_apps_by_index() {
    let app = AppEntry {
        id: "a1".to_string(),
        name: "flytrap".to_string(),
        machine_count: 3,
        network_name: "default".to_string(),
    };
    let apps = OrganizationApps { total: 1, apps: vec![app.clone()] };
    assert_eq!(apps.len(), 1);
    assert_eq!(apps.get(0), Some(&app));
    assert_eq!(apps.get(1), None);
    assert_eq!(apps.iter().map(|app| app.name.as_str()).collect::<Vec<_>>(), vec!["flytrap"]);
}
