//! Access-point selection: picking, out of a scan result, the entry whose
//! name matches the target network, and building the connection
//! configuration from it (or from a degraded fallback when it is absent).
use vstd::prelude::*;

verus! {

/// How a wireless network authenticates clients.
#[derive(Clone, Copy, PartialEq, Eq, Structural, Debug)]
pub enum AuthMethod {
    Open,
    Wep,
    Wpa,
    Wpa2Personal,
    Wpa3Personal,
}

/// One entry of a network scan result. Read-only; lives for one scan cycle.
/// A scan may not report the authentication method of every network.
pub struct AccessPointInfo {
    pub name: String,
    pub channel: u8,
    pub auth_method: Option<AuthMethod>,
}

impl Clone for AccessPointInfo {
    fn clone(&self) -> (r: Self)
        ensures
            r.name@ == self.name@,
            r.channel == self.channel,
            r.auth_method == self.auth_method,
    {
        AccessPointInfo { name: self.name.clone(), channel: self.channel, auth_method: self.auth_method }
    }
}

/// Everything a connection attempt needs, resolved once and consumed once.
/// `channel` and a specific `auth_method` are known only when the target
/// network appeared in the scan; otherwise the connection falls back to an
/// unspecified channel and the default authentication method.
pub struct ConnectionConfig {
    pub target_name: String,
    pub secret: String,
    pub channel: Option<u8>,
    pub auth_method: AuthMethod,
}

/// The authentication method assumed when the scan did not report one.
pub open spec fn spec_default_auth_method() -> AuthMethod {
    AuthMethod::Wpa2Personal
}

/// Returns the default authentication method used when none is known.
pub fn default_auth_method() -> (r: AuthMethod)
    ensures
        r == spec_default_auth_method(),
{
    AuthMethod::Wpa2Personal
}

/// Picks the first scan entry whose name equals the target network name,
/// or `None` when no entry matches.
pub fn select_access_point(scan: &Vec<AccessPointInfo>, target: &String) -> (r: Option<usize>)
    ensures
        match r {
            Some(i) => i < scan@.len() && scan@[i as int].name@ == target@ && (forall|j: int|
                0 <= j < i ==> scan@[j].name@ != target@),
            None => forall|j: int| 0 <= j < scan@.len() ==> scan@[j].name@ != target@,
        },
{
    let mut i: usize = 0;
    while i < scan.len()
        invariant
            i <= scan@.len(),
            forall|j: int| 0 <= j < i ==> scan@[j].name@ != target@,
        decreases scan@.len() - i,
    {
        if scan[i].name == *target {
            return Some(i);
        }
        i = i + 1;
    }
    None
}

/// The connection configuration that follows from a selection outcome:
/// channel and authentication method are taken from the selected entry when
/// one was found (falling back to the default method when the entry does not
/// report one); otherwise the channel stays unspecified and the default
/// method is used, so that the join can still be attempted.
pub open spec fn spec_connection_config(
    selection: Option<AccessPointInfo>,
    target: Seq<char>,
    secret: Seq<char>,
    config: ConnectionConfig,
) -> bool {
    &&& config.target_name@ == target
    &&& config.secret@ == secret
    &&& match selection {
        Some(ap) => {
            &&& config.channel == Some(ap.channel)
            &&& config.auth_method == (match ap.auth_method {
                Some(m) => m,
                None => spec_default_auth_method(),
            })
        },
        None => {
            &&& config.channel is None
            &&& config.auth_method == spec_default_auth_method()
        },
    }
}

/// Builds the connection configuration from the selection outcome and the
/// externally supplied credentials.
pub fn build_connection_config(
    selection: &Option<AccessPointInfo>,
    target: String,
    secret: String,
) -> (config: ConnectionConfig)
    ensures
        spec_connection_config(*selection, target@, secret@, config),
{
    match selection {
        Some(ap) => ConnectionConfig {
            target_name: target,
            secret,
            channel: Some(ap.channel),
            auth_method: match ap.auth_method {
                Some(m) => m,
                None => default_auth_method(),
            },
        },
        None => ConnectionConfig {
            target_name: target,
            secret,
            channel: None,
            auth_method: default_auth_method(),
        },
    }
}

} // verus!
