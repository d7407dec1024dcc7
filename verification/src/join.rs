//! The network join state machine: scan, select an access point, build the
//! connection configuration, connect, wait for an address. Transitions only
//! move forward; any hard failure lands in a terminal `Failed` state, and
//! the process is expected to be restarted externally rather than retry.
use vstd::prelude::*;
use crate::access_point::{
    build_connection_config, select_access_point, spec_connection_config, AccessPointInfo,
    ConnectionConfig,
};

verus! {

/// Why joining failed. All of these are terminal and fatal for the process.
#[derive(Clone, Copy, PartialEq, Eq, Structural, Debug)]
pub enum JoinFailure {
    /// The radio could not deliver a scan result.
    ScanFailed,
    /// The connection attempt was rejected.
    ConnectFailed,
    /// No network address was assigned in time.
    AddressTimeout,
}

/// Where the join stands. Intermediate states carry what the next step
/// consumes: the scan result to select from, then the selection to build the
/// connection configuration from.
pub enum JoinState {
    Idle,
    Scanning,
    Selecting { scan: Vec<AccessPointInfo> },
    Configuring { selection: Option<AccessPointInfo> },
    Connecting,
    WaitingForAddress,
    Joined,
    Failed { reason: JoinFailure },
}

/// The machine's forward-progress measure: every transition strictly
/// increases it, so no state can ever be revisited.
pub open spec fn spec_rank(s: JoinState) -> int {
    match s {
        JoinState::Idle => 0,
        JoinState::Scanning => 1,
        JoinState::Selecting { .. } => 2,
        JoinState::Configuring { .. } => 3,
        JoinState::Connecting => 4,
        JoinState::WaitingForAddress => 5,
        JoinState::Joined => 6,
        JoinState::Failed { .. } => 7,
    }
}

/// A state with no transition out of it: success, or any failure.
pub open spec fn spec_is_terminal(s: JoinState) -> bool {
    s is Joined || s is Failed
}

/// Two access-point entries with the same content.
pub open spec fn spec_ap_eq(a: AccessPointInfo, b: AccessPointInfo) -> bool {
    a.name@ == b.name@ && a.channel == b.channel && a.auth_method == b.auth_method
}

/// The selection that a scan and a target name owe: the first entry whose
/// name equals the target, or nothing when no entry's name does.
pub open spec fn spec_selection(
    scan: Seq<AccessPointInfo>,
    target: Seq<char>,
    selection: Option<AccessPointInfo>,
) -> bool {
    match selection {
        Some(ap) => exists|i: int|
            0 <= i < scan.len() && scan[i].name@ == target && spec_ap_eq(ap, scan[i]) && (forall|
                j: int,
            |
                0 <= j < i ==> scan[j].name@ != target),
        None => forall|j: int| 0 <= j < scan.len() ==> scan[j].name@ != target,
    }
}

/// One join per process: the machine owns the credentials and walks the
/// states in order, driven by the outcomes of the radio's blocking calls.
pub struct NetworkJoinStateMachine {
    pub ssid: String,
    pub password: String,
    pub state: JoinState,
}

impl NetworkJoinStateMachine {
    /// A fresh machine for the given credentials, not yet started.
    pub fn new(ssid: String, password: String) -> (r: Self)
        ensures
            r.state is Idle,
            r.ssid@ == ssid@,
            r.password@ == password@,
    {
        NetworkJoinStateMachine { ssid, password, state: JoinState::Idle }
    }

    /// Starts the join: the caller must now run a network scan.
    pub fn begin_scan(&mut self)
        requires
            old(self).state is Idle,
        ensures
            final(self).state is Scanning,
            final(self).ssid == old(self).ssid,
            final(self).password == old(self).password,
            spec_rank(final(self).state) > spec_rank(old(self).state),
    {
        self.state = JoinState::Scanning;
    }

    /// Takes the scan's outcome: a delivered scan result moves on to
    /// selection; a failed scan is a terminal failure.
    pub fn on_scan_outcome(&mut self, outcome: Option<Vec<AccessPointInfo>>)
        requires
            old(self).state is Scanning,
        ensures
            final(self).state == (match outcome {
                Some(scan) => JoinState::Selecting { scan },
                None => JoinState::Failed { reason: JoinFailure::ScanFailed },
            }),
            final(self).ssid == old(self).ssid,
            final(self).password == old(self).password,
            spec_rank(final(self).state) > spec_rank(old(self).state),
    {
        self.state = match outcome {
            Some(scan) => JoinState::Selecting { scan },
            None => JoinState::Failed { reason: JoinFailure::ScanFailed },
        };
    }

    /// Picks the target network out of the scan result. Not finding it is
    /// no failure: the machine proceeds with an empty selection, so the
    /// connection will be attempted with a degraded configuration.
    pub fn select(&mut self)
        requires
            old(self).state is Selecting,
        ensures
            final(self).state is Configuring,
            (old(self).state matches JoinState::Selecting { scan } ==> (final(self).state
                matches JoinState::Configuring { selection } && spec_selection(
                scan@,
                old(self).ssid@,
                selection,
            ))),
            final(self).ssid == old(self).ssid,
            final(self).password == old(self).password,
            spec_rank(final(self).state) > spec_rank(old(self).state),
    {
        let selection: Option<AccessPointInfo> = match &self.state {
            JoinState::Selecting { scan } => {
                match select_access_point(scan, &self.ssid) {
                    Some(i) => Some(scan[i].clone()),
                    None => None,
                }
            },
            // Unreachable: the precondition owes a Selecting state.
            _ => {
                proof {
                    assert(false);
                }
                None
            },
        };
        self.state = JoinState::Configuring { selection };
    }

    /// Builds the connection configuration from the selection and the
    /// stored credentials, and hands it out to be given to the radio.
    pub fn configure(&mut self) -> (config: ConnectionConfig)
        requires
            old(self).state is Configuring,
        ensures
            final(self).state is Connecting,
            (old(self).state matches JoinState::Configuring { selection }
                ==> spec_connection_config(selection, old(self).ssid@, old(self).password@, config)),
            final(self).ssid == old(self).ssid,
            final(self).password == old(self).password,
            spec_rank(final(self).state) > spec_rank(old(self).state),
    {
        let config = match &self.state {
            JoinState::Configuring { selection } => build_connection_config(
                selection,
                self.ssid.clone(),
                self.password.clone(),
            ),
            // Unreachable: the precondition owes a Configuring state.
            _ => {
                proof {
                    assert(false);
                }
                build_connection_config(&None, String::new(), String::new())
            },
        };
        self.state = JoinState::Connecting;
        config
    }

    /// Takes the connection attempt's outcome: connected moves on to
    /// waiting for an address; rejected is a terminal failure.
    pub fn on_connect_outcome(&mut self, connected: bool)
        requires
            old(self).state is Connecting,
        ensures
            final(self).state == (if connected {
                JoinState::WaitingForAddress
            } else {
                JoinState::Failed { reason: JoinFailure::ConnectFailed }
            }),
            final(self).ssid == old(self).ssid,
            final(self).password == old(self).password,
            spec_rank(final(self).state) > spec_rank(old(self).state),
    {
        self.state = if connected {
            JoinState::WaitingForAddress
        } else {
            JoinState::Failed { reason: JoinFailure::ConnectFailed }
        };
    }

    /// Takes the address assignment's outcome: an address completes the
    /// join; a timeout is a terminal failure.
    pub fn on_address_outcome(&mut self, acquired: bool)
        requires
            old(self).state is WaitingForAddress,
        ensures
            final(self).state == (if acquired {
                JoinState::Joined
            } else {
                JoinState::Failed { reason: JoinFailure::AddressTimeout }
            }),
            spec_is_terminal(final(self).state),
            final(self).ssid == old(self).ssid,
            final(self).password == old(self).password,
            spec_rank(final(self).state) > spec_rank(old(self).state),
    {
        self.state = if acquired {
            JoinState::Joined
        } else {
            JoinState::Failed { reason: JoinFailure::AddressTimeout }
        };
    }
}

} // verus!
