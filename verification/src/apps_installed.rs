//! The decisions of the `app/installed` request: whether the connector
//! runtime is enabled, when its tool snapshot is refreshed, how a failed
//! refresh is reported, and which installed apps are answered.

use vstd::prelude::*;
use vstd::string::StringExecFns;


verus! {

/// How long a refresh waits for the apps server when it sets no timeout, in
/// milliseconds.
pub const CONNECTOR_RUNTIME_REFRESH_TIMEOUT_MS: u64 = 30000;

/// The submission id of the runtime started to refresh the installed apps.
pub const APPS_INSTALLED_SUBMIT_ID: &'static str = "app-installed";

/// The prefix of every refresh failure answered to the client.
pub const REFRESH_FAILURE_PREFIX: &'static str =
    "failed to refresh installed connector runtime state: ";

/// A connector app of the runtime tool snapshot.
pub struct ConnectorRuntimeApp {
    pub id: String,
    pub runtime_name: String,
    pub enabled: bool,
    pub callable: bool,
}

/// An installed app as answered to the client.
pub struct InstalledApp {
    pub id: String,
    pub runtime_name: String,
    pub enabled: bool,
    pub callable: bool,
}

/// The answer to `app/installed`.
pub struct AppsInstalledResponse {
    pub apps: Vec<InstalledApp>,
}

/// Where the tool snapshot of the answer comes from.
pub enum SnapshotPlan {
    /// Use the snapshot already cached, if any.
    Cached,
    /// Start the apps server and wait for it up to `timeout_ms`.
    Refresh { timeout_ms: u64 },
    /// A refresh was asked for, but the apps server is not enabled.
    Unavailable,
}

/// How a refresh of the apps server ended.
pub enum RefreshOutcome {
    /// The server became ready; `published` tells whether it published a snapshot.
    Ready { published: bool },
    /// The server did not become ready in time.
    NotReady,
}

/// The connector runtime is enabled when apps are enabled for the account
/// and the workspace allows its plugins.
pub open spec fn runtime_enabled_of(apps_enabled: bool, workspace_enabled: bool) -> bool {
    apps_enabled && workspace_enabled
}

/// Whether the connector runtime is enabled.
pub fn apps_runtime_enabled(apps_enabled: bool, workspace_enabled: bool) -> (r: bool)
    ensures
        r == runtime_enabled_of(apps_enabled, workspace_enabled),
{
    apps_enabled && workspace_enabled
}

/// Where the snapshot comes from: a forced refresh of an enabled runtime
/// refreshes (when the apps server is configured, with its startup timeout
/// or the default one); anything else uses the cache.
pub fn snapshot_plan(
    force_refresh: bool,
    runtime_enabled: bool,
    apps_server_configured: bool,
    server_timeout_ms: Option<u64>,
) -> (p: SnapshotPlan)
    ensures
        !(force_refresh && runtime_enabled) <==> p is Cached,
        force_refresh && runtime_enabled && !apps_server_configured <==> p is Unavailable,
        p matches SnapshotPlan::Refresh { timeout_ms } ==> timeout_ms == match server_timeout_ms {
            Some(t) => t,
            None => CONNECTOR_RUNTIME_REFRESH_TIMEOUT_MS,
        },
{
    if !(force_refresh && runtime_enabled) {
        SnapshotPlan::Cached
    } else if !apps_server_configured {
        SnapshotPlan::Unavailable
    } else {
        let timeout_ms = match server_timeout_ms {
            Some(t) => t,
            None => CONNECTOR_RUNTIME_REFRESH_TIMEOUT_MS,
        };
        SnapshotPlan::Refresh { timeout_ms }
    }
}

/// The error answered when the apps server named `server` is not enabled.
pub open spec fn unavailable_message(server: Seq<char>) -> Seq<char> {
    REFRESH_FAILURE_PREFIX@ + "host-owned MCP server '"@ + server + "' is not enabled"@
}

/// The error answered when a refresh ends with `outcome`, if it fails.
pub open spec fn refresh_failure_of(outcome: RefreshOutcome, server: Seq<char>) -> Option<
    Seq<char>,
> {
    match outcome {
        RefreshOutcome::Ready { published } => if published {
            None
        } else {
            Some(
                REFRESH_FAILURE_PREFIX@
                    + "hosted connector refresh completed without publishing a snapshot"@,
            )
        },
        RefreshOutcome::NotReady => Some(
            REFRESH_FAILURE_PREFIX@ + "failed to refresh tools for MCP server '"@ + server + "'"@,
        ),
    }
}

/// The error answered for a refresh that cannot start.
pub fn unavailable_error(server: &str) -> (m: String)
    ensures
        m@ == unavailable_message(server@),
{
    proof {
        reveal_strlit("failed to refresh installed connector runtime state: ");
        reveal_strlit("host-owned MCP server '");
        reveal_strlit("' is not enabled");
    }
    let mut m = REFRESH_FAILURE_PREFIX.to_owned();
    m.append("host-owned MCP server '");
    m.append(server);
    m.append("' is not enabled");
    m
}

/// The error answered for a refresh that ended with `outcome`, if it failed.
pub fn refresh_failure(outcome: RefreshOutcome, server: &str) -> (m: Option<String>)
    ensures
        match refresh_failure_of(outcome, server@) {
            Some(t) => m matches Some(s) && s@ == t,
            None => m is None,
        },
{
    proof {
        reveal_strlit("failed to refresh installed connector runtime state: ");
        reveal_strlit("hosted connector refresh completed without publishing a snapshot");
        reveal_strlit("failed to refresh tools for MCP server '");
        reveal_strlit("'");
    }
    match outcome {
        RefreshOutcome::Ready { published } => {
            if published {
                None
            } else {
                let mut m = REFRESH_FAILURE_PREFIX.to_owned();
                m.append("hosted connector refresh completed without publishing a snapshot");
                Some(m)
            }
        },
        RefreshOutcome::NotReady => {
            let mut m = REFRESH_FAILURE_PREFIX.to_owned();
            m.append("failed to refresh tools for MCP server '");
            m.append(server);
            m.append("'");
            Some(m)
        },
    }
}

/// `w` answers runtime app `a` when the runtime is enabled or not.
pub open spec fn is_installed_app(w: InstalledApp, a: ConnectorRuntimeApp, runtime_enabled: bool) -> bool {
    &&& w.id == a.id
    &&& w.runtime_name == a.runtime_name
    &&& w.enabled == (runtime_enabled && a.enabled)
    &&& w.callable == (runtime_enabled && a.callable)
}

/// The answer to `app/installed`: no apps without a snapshot; otherwise each
/// app of the snapshot, enabled and callable only when the runtime is.
pub fn installed_apps(runtime_enabled: bool, snapshot: Option<Vec<ConnectorRuntimeApp>>) -> (r:
    AppsInstalledResponse)
    ensures
        match snapshot {
            None => r.apps@.len() == 0,
            Some(apps) => {
                &&& r.apps@.len() == apps@.len()
                &&& forall|i: int|
                    0 <= i < apps@.len() ==> is_installed_app(
                        #[trigger] r.apps@[i],
                        apps@[i],
                        runtime_enabled,
                    )
            },
        },
{
    match snapshot {
        None => AppsInstalledResponse { apps: Vec::new() },
        Some(apps) => {
            let ghost src = apps@;
            let mut out: Vec<InstalledApp> = Vec::new();
            for app in it: apps
                invariant
                    it.seq() == src,
                    out@.len() == it.index(),
                    forall|i: int|
                        0 <= i < it.index() ==> is_installed_app(
                            #[trigger] out@[i],
                            src[i],
                            runtime_enabled,
                        ),
            {
                out.push(
                    InstalledApp {
                        id: app.id,
                        runtime_name: app.runtime_name,
                        enabled: runtime_enabled && app.enabled,
                        callable: runtime_enabled && app.callable,
                    },
                );
            }
            AppsInstalledResponse { apps: out }
        },
    }
}

} // verus!
