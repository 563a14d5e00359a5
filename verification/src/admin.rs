//! Requests to the conductor's admin interface and the reading of its answers.
use vstd::prelude::*;
use crate::cells::{AppInfo, CellId};
use crate::memproof::RoleMemProof;
use crate::text::{contains_seq, str_contains};

verus! {

broadcast use vstd::string::group_string_axioms;

/// An error that the conductor reports in place of an answer.
pub enum ExternalApiWireError {
    InternalError(String),
    Deserialization(String),
    DnaReadError(String),
    RibosomeError(String),
    ActivateApp(String),
    ZomeCallUnauthorized(String),
    CountersigningSessionError(String),
}

/// Which apps a listing asks for.
#[derive(Clone, Copy, Debug, PartialEq, Eq, Structural)]
pub enum AppStatusFilter {
    Enabled,
    Disabled,
    Running,
    Stopped,
    Paused,
}

/// The requests that the tooling sends to the admin interface.
pub enum AdminRequest {
    /// Attach an app interface on `port` (the conductor picks one when `None`),
    /// open to any origin and to any app.
    AttachAppInterface { port: Option<u16> },
    IssueAppAuthenticationToken { installed_app_id: String, expiry_seconds: u64, single_use: bool },
    ListApps { status_filter: Option<AppStatusFilter> },
    EnableApp { installed_app_id: String },
    DisableApp { installed_app_id: String },
    UninstallApp { installed_app_id: String },
    GenerateAgentPubKey,
    DeleteCloneCell { app_id: String, clone_cell_id: String },
    DumpState { cell_id: CellId },
}

/// The answers of the admin interface that the tooling reads.
pub enum AdminResponse {
    AppInterfaceAttached { port: u16 },
    AppAuthenticationTokenIssued { token: Vec<u8>, expires_at: Option<i64> },
    AppsListed(Vec<AppInfo>),
    AgentPubKeyGenerated(Vec<u8>),
    CloneCellDeleted,
    StateDumped(String),
    AppEnabled,
    AppDisabled,
    AppUninstalled,
    AppInstalled,
    Error(ExternalApiWireError),
    /// Any other answer.
    Other,
}

/// Why an admin request failed.
pub enum AdminError {
    /// The conductor answered with an error.
    Conductor(ExternalApiWireError),
    /// The conductor answered something else than the request calls for.
    UnexpectedResponse(String),
}

/// The timeout of a request in seconds: 60 unless the caller gives one.
pub fn request_timeout_secs(duration: Option<u64>) -> (r: u64)
    ensures
        r == match duration {
            Some(d) => d,
            None => 60,
        },
{
    match duration {
        Some(d) => d,
        None => 60,
    }
}

/// An error answer becomes an error; any other answer is passed on.
pub fn check_response(response: AdminResponse) -> (r: Result<AdminResponse, AdminError>)
    ensures
        match response {
            AdminResponse::Error(e) => r == Err::<AdminResponse, AdminError>(AdminError::Conductor(e)),
            _ => r == Ok::<AdminResponse, AdminError>(response),
        },
{
    match response {
        AdminResponse::Error(e) => Err(AdminError::Conductor(e)),
        _ => Ok(response),
    }
}

/// The request that attaches an app interface.
pub fn attach_app_interface_request(happ_port: Option<u16>) -> (r: AdminRequest)
    ensures
        r == (AdminRequest::AttachAppInterface { port: happ_port }),
{
    AdminRequest::AttachAppInterface { port: happ_port }
}

/// The port of the attached app interface.
pub fn attached_port(response: &AdminResponse) -> (r: Result<u16, AdminError>)
    ensures
        match response {
            AdminResponse::AppInterfaceAttached { port } => r == Ok::<u16, AdminError>(*port),
            _ => r matches Err(AdminError::UnexpectedResponse(m)) && m@ == "Failed to attach app interface"@,
        },
{
    match response {
        AdminResponse::AppInterfaceAttached { port } => Ok(*port),
        _ => Err(AdminError::UnexpectedResponse(String::from_str("Failed to attach app interface"))),
    }
}

/// The request for an authentication token for an app: valid 30 seconds, usable once.
pub fn issue_app_auth_token_request(app_id: String) -> (r: AdminRequest)
    ensures
        r == (AdminRequest::IssueAppAuthenticationToken { installed_app_id: app_id, expiry_seconds: 30, single_use: true }),
{
    AdminRequest::IssueAppAuthenticationToken { installed_app_id: app_id, expiry_seconds: 30, single_use: true }
}

/// The token issued by the conductor.
pub fn issued_token(response: AdminResponse) -> (r: Result<Vec<u8>, AdminError>)
    ensures
        match response {
            AdminResponse::AppAuthenticationTokenIssued { token, .. } => r == Ok::<Vec<u8>, AdminError>(token),
            _ => r matches Err(AdminError::UnexpectedResponse(m)) && m@ == "Error while issuing authentication token"@,
        },
{
    match response {
        AdminResponse::AppAuthenticationTokenIssued { token, .. } => Ok(token),
        _ => Err(AdminError::UnexpectedResponse(String::from_str("Error while issuing authentication token"))),
    }
}

/// The ids of the apps in a listing, in order.
pub open spec fn app_ids_of(apps: Seq<AppInfo>) -> Seq<Seq<char>> {
    apps.map_values(|a: AppInfo| a.installed_app_id@)
}

/// The ids of the listed apps.
pub fn listed_app_ids(response: &AdminResponse) -> (r: Result<Vec<String>, AdminError>)
    ensures
        match response {
            AdminResponse::AppsListed(apps) => r matches Ok(ids)
                && ids@.map_values(|s: String| s@) == app_ids_of(apps@),
            _ => r matches Err(AdminError::UnexpectedResponse(_)),
        },
{
    match response {
        AdminResponse::AppsListed(apps) => {
            let mut ids: Vec<String> = Vec::new();
            let mut i: usize = 0;
            while i < apps.len()
                invariant
                    i <= apps.len(),
                    ids@.map_values(|s: String| s@) == app_ids_of(apps@.take(i as int)),
                decreases apps.len() - i,
            {
                let ghost prev = ids@;
                ids.push(apps[i].installed_app_id.clone());
                assert(ids@ == prev.push(apps@[i as int].installed_app_id));
                assert(apps@.take(i + 1) =~= apps@.take(i as int).push(apps@[i as int]));
                assert(ids@.map_values(|s: String| s@) =~= prev.map_values(|s: String| s@).push(apps@[i as int].installed_app_id@));
                assert(app_ids_of(apps@.take(i + 1)) =~= app_ids_of(apps@.take(i as int)).push(apps@[i as int].installed_app_id@));
                i = i + 1;
            }
            assert(apps@.take(apps.len() as int) =~= apps@);
            Ok(ids)
        },
        _ => Err(AdminError::UnexpectedResponse(String::from_str("unexpected response to a listing of apps"))),
    }
}

/// The request that lists the enabled apps.
pub fn list_enabled_apps_request() -> (r: AdminRequest)
    ensures
        r == (AdminRequest::ListApps { status_filter: Some(AppStatusFilter::Enabled) }),
{
    AdminRequest::ListApps { status_filter: Some(AppStatusFilter::Enabled) }
}

/// The apps of a listing. The conductor answers a listing with a listing.
pub fn listed_apps(response: AdminResponse) -> (r: Vec<AppInfo>)
    requires
        response is AppsListed,
    ensures
        response == AdminResponse::AppsListed(r),
{
    match response {
        AdminResponse::AppsListed(apps) => apps,
        _ => Vec::new(),
    }
}

/// The generated agent key. The conductor answers this request with a key.
pub fn generated_agent_key(response: AdminResponse) -> (r: Vec<u8>)
    requires
        response is AgentPubKeyGenerated,
    ensures
        response == AdminResponse::AgentPubKeyGenerated(r),
{
    match response {
        AdminResponse::AgentPubKeyGenerated(key) => key,
        _ => Vec::new(),
    }
}

/// Whether a clone cell was deleted.
pub fn clone_deleted(response: &AdminResponse) -> (r: bool)
    ensures
        r == (response is CloneCellDeleted),
{
    matches!(response, AdminResponse::CloneCellDeleted)
}

/// The request that enables an app.
pub fn enable_app_request(installed_app_id: &str) -> (r: AdminRequest)
    ensures
        r matches AdminRequest::EnableApp { installed_app_id: id } && id@ == installed_app_id@,
{
    AdminRequest::EnableApp { installed_app_id: installed_app_id.to_owned() }
}

/// The request that disables an app.
pub fn disable_app_request(installed_app_id: &str) -> (r: AdminRequest)
    ensures
        r matches AdminRequest::DisableApp { installed_app_id: id } && id@ == installed_app_id@,
{
    AdminRequest::DisableApp { installed_app_id: installed_app_id.to_owned() }
}

/// The request that uninstalls an app.
pub fn uninstall_app_request(installed_app_id: &str) -> (r: AdminRequest)
    ensures
        r matches AdminRequest::UninstallApp { installed_app_id: id } && id@ == installed_app_id@,
{
    AdminRequest::UninstallApp { installed_app_id: installed_app_id.to_owned() }
}

/// An installation refused because the app is already installed is no
/// failure: the app only needs enabling.
pub fn install_error_is_tolerated(message: &str) -> (r: bool)
    ensures
        r == contains_seq(message@, "AppAlreadyInstalled"@),
{
    str_contains(message, "AppAlreadyInstalled")
}

/// The agent under which a happ is installed: the happ's own agent when it
/// names one, else the host's agent.
pub fn install_agent_key(override_key: Option<Vec<u8>>, host_key: Vec<u8>) -> (r: Vec<u8>)
    ensures
        r == match override_key {
            Some(k) => k,
            None => host_key,
        },
{
    match override_key {
        Some(k) => k,
        None => host_key,
    }
}

/// What an installation asks of the conductor: the agent, the app id, the
/// membrane proofs by role, and the network seed (the default one when `None`).
pub struct InstallAppPayload {
    pub agent_key: Vec<u8>,
    pub installed_app_id: Option<String>,
    pub membrane_proofs: Vec<RoleMemProof>,
    pub network_seed: Option<String>,
    pub ignore_genesis_failure: bool,
}

/// The installation request for a happ: under the happ's own agent when it
/// names one, else the host's; on the network seed that `DEV_UID_OVERRIDE`
/// gives when it is set, else the default one; genesis failures are not ignored.
pub fn install_app_payload(
    override_key: Option<Vec<u8>>,
    host_key: Vec<u8>,
    installed_app_id: String,
    membrane_proofs: Vec<RoleMemProof>,
    dev_uid_override: Option<String>,
) -> (r: InstallAppPayload)
    ensures
        r.agent_key == match override_key {
            Some(k) => k,
            None => host_key,
        },
        r.installed_app_id == Some(installed_app_id),
        r.membrane_proofs == membrane_proofs,
        r.network_seed == dev_uid_override,
        !r.ignore_genesis_failure,
{
    InstallAppPayload {
        agent_key: install_agent_key(override_key, host_key),
        installed_app_id: Some(installed_app_id),
        membrane_proofs,
        network_seed: dev_uid_override,
        ignore_genesis_failure: false,
    }
}

/// The key that the conductor generated for a new random agent; any other
/// answer is an unexpected response.
pub fn random_agent_key(response: AdminResponse) -> (r: Result<Vec<u8>, AdminError>)
    ensures
        match response {
            AdminResponse::AgentPubKeyGenerated(k) => r == Ok::<Vec<u8>, AdminError>(k),
            _ => r matches Err(AdminError::UnexpectedResponse(m)) && m@ == "unexpected response"@,
        },
{
    match response {
        AdminResponse::AgentPubKeyGenerated(k) => Ok(k),
        _ => Err(AdminError::UnexpectedResponse(String::from_str("unexpected response"))),
    }
}

} // verus!
