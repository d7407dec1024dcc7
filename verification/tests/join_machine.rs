use timelapse_cam::access_point::{AccessPointInfo, AuthMethod};
use timelapse_cam::join::{JoinFailure, JoinState, NetworkJoinStateMachine};

fn ap(name: &str, channel: u8, auth: Option<AuthMethod>) -> AccessPointInfo {
    AccessPointInfo { name: name.to_string(), channel, auth_method: auth }
}

#[test]
fn full_join_reaches_joined() {
    let mut machine =
        NetworkJoinStateMachine::new(String::from("Home"), String::from("secret"));
    assert!(matches!(machine.state, JoinState::Idle));

    machine.begin_scan();
    assert!(matches!(machine.state, JoinState::Scanning));

    let scan = vec![
        ap("Cafe", 1, Some(AuthMethod::Open)),
        ap("Home", 6, Some(AuthMethod::Wpa2Personal)),
    ];
    machine.on_scan_outcome(Some(scan));
    assert!(matches!(machine.state, JoinState::Selecting { .. }));

    machine.select();
    match &machine.state {
        JoinState::Configuring { selection } => {
            let entry = selection.as_ref().expect("the target is in the scan");
            assert_eq!(entry.name, "Home");
            assert_eq!(entry.channel, 6);
        }
        other_state => panic!("expected Configuring, not rank {:?}", state_name(other_state)),
    }

    let config = machine.configure();
    assert!(matches!(machine.state, JoinState::Connecting));
    assert_eq!(config.target_name, "Home");
    assert_eq!(config.secret, "secret");
    assert_eq!(config.channel, Some(6));
    assert_eq!(config.auth_method, AuthMethod::Wpa2Personal);

    machine.on_connect_outcome(true);
    assert!(matches!(machine.state, JoinState::WaitingForAddress));

    machine.on_address_outcome(true);
    assert!(matches!(machine.state, JoinState::Joined));
}

fn state_name(state: &JoinState) -> &'static str {
    match state {
        JoinState::Idle => "Idle",
        JoinState::Scanning => "Scanning",
        JoinState::Selecting { .. } => "Selecting",
        JoinState::Configuring { .. } => "Configuring",
        JoinState::Connecting => "Connecting",
        JoinState::WaitingForAddress => "WaitingForAddress",
        JoinState::Joined => "Joined",
        JoinState::Failed { .. } => "Failed",
    }
}

#[test]
fn missing_network_still_proceeds_to_connecting() {
    let mut machine =
        NetworkJoinStateMachine::new(String::from("Home"), String::from("secret"));
    machine.begin_scan();
    machine.on_scan_outcome(Some(vec![ap("Cafe", 1, Some(AuthMethod::Open))]));
    machine.select();
    match &machine.state {
        JoinState::Configuring { selection } => assert!(selection.is_none()),
        _ => panic!("expected Configuring"),
    }
    let config = machine.configure();
    assert!(matches!(machine.state, JoinState::Connecting));
    assert_eq!(config.channel, None);
    assert_eq!(config.auth_method, AuthMethod::Wpa2Personal);
}

#[test]
fn scan_failure_is_terminal() {
    let mut machine = NetworkJoinStateMachine::new(String::from("Home"), String::new());
    machine.begin_scan();
    machine.on_scan_outcome(None);
    assert!(matches!(
        machine.state,
        JoinState::Failed { reason: JoinFailure::ScanFailed }
    ));
}

#[test]
fn connect_failure_is_terminal() {
    let mut machine = NetworkJoinStateMachine::new(String::from("Home"), String::new());
    machine.begin_scan();
    machine.on_scan_outcome(Some(Vec::new()));
    machine.select();
    machine.configure();
    machine.on_connect_outcome(false);
    assert!(matches!(
        machine.state,
        JoinState::Failed { reason: JoinFailure::ConnectFailed }
    ));
}

#[test]
fn address_timeout_is_terminal() {
    let mut machine = NetworkJoinStateMachine::new(String::from("Home"), String::new());
    machine.begin_scan();
    machine.on_scan_outcome(Some(Vec::new()));
    machine.select();
    machine.configure();
    machine.on_connect_outcome(true);
    machine.on_address_outcome(false);
    assert!(matches!(
        machine.state,
        JoinState::Failed { reason: JoinFailure::AddressTimeout }
    ));
}
