//! Database process supervisor: provisions and starts the embedded engine.
//!
//! The handle is created once per process by `setup` and shared read-only
//! after `start`; every database action is gated on it having reached
//! `Running`. The actual engine process is launched by the unverified shell,
//! which asks `start_action` what to do and reports the outcome back through
//! `mark_running` — so a handle can never drive two launches of one engine.

use vstd::prelude::*;

verus! {

/// Lifecycle of the embedded engine behind a handle.
#[derive(Clone, Copy, Debug, PartialEq, Eq, Structural)]
pub enum ServerStatus {
    /// Storage and credentials are prepared; no process is running.
    Prepared,
    /// The engine process reported ready; connections may be attempted.
    Running,
    /// The engine was shut down (best effort, at process exit).
    Stopped,
}

/// The one process-wide handle to the embedded engine.
///
/// Created at most once per process; read-only after start except for the
/// status transitions below.
#[derive(Debug, Clone)]
pub struct ServerHandle {
    /// TCP port the engine listens on.
    pub port: u16,
    /// Storage directory; scratch space when `persistent` is false.
    pub storage_dir: String,
    /// Whether storage outlives the process.
    pub persistent: bool,
    /// Directory of migration scripts, if any.
    pub migration_dir: Option<String>,
    /// Fixed local role name.
    pub user: String,
    /// Fixed local password (MD5-style auth, local only).
    pub password: String,
    /// Current lifecycle state.
    pub status: ServerStatus,
}

/// The fixed local role name every handle is provisioned with.
pub open spec fn fixed_user() -> Seq<char> {
    "postgres"@
}

/// The fixed local password every handle is provisioned with.
pub open spec fn fixed_password() -> Seq<char> {
    "password"@
}

/// What `setup` promises of the handle it yields.
pub open spec fn freshly_prepared(
    h: ServerHandle,
    port: u16,
    storage_dir: Seq<char>,
    persistent: bool,
) -> bool {
    &&& h.port == port
    &&& h.storage_dir@ == storage_dir
    &&& h.persistent == persistent
    &&& h.user@ == fixed_user()
    &&& h.password@ == fixed_password()
    &&& h.status is Prepared
}

/// Connections may be attempted only against a running engine.
pub open spec fn connectable(h: ServerHandle) -> bool {
    h.status is Running
}

/// The configuration fixed at `setup` time; status transitions preserve it.
pub open spec fn same_configuration(a: ServerHandle, b: ServerHandle) -> bool {
    &&& a.port == b.port
    &&& a.storage_dir@ == b.storage_dir@
    &&& a.persistent == b.persistent
    &&& a.migration_dir == b.migration_dir
    &&& a.user@ == b.user@
    &&& a.password@ == b.password@
}

/// What `start` must do for a given handle.
#[derive(Clone, Copy, Debug, PartialEq, Eq, Structural)]
pub enum StartAction {
    /// Launch the engine process and block until ready or timeout.
    Launch,
    /// The engine is already running: starting again is a safe no-op.
    AlreadyRunning,
}

impl ServerHandle {
    /// Provision a handle: fix the local credentials and record the storage
    /// configuration. Storage is prepared but the engine is not started.
    ///
    /// Locating the engine binary and preparing the directory are performed
    /// by the unverified shell; their failure is a `ProvisionError` and fatal
    /// to startup.
    pub fn setup(
        port: u16,
        storage_dir: String,
        persistent: bool,
        migration_dir: Option<String>,
    ) -> (h: ServerHandle)
        ensures
            freshly_prepared(h, port, storage_dir@, persistent),
            h.migration_dir == migration_dir,
    {
        ServerHandle {
            port,
            storage_dir,
            persistent,
            migration_dir,
            user: "postgres".to_owned(),
            password: "password".to_owned(),
            status: ServerStatus::Prepared,
        }
    }

    /// Decide what `start` must do: launch once, or nothing if the engine is
    /// already running. A handle never launches a duplicate process.
    pub fn start_action(&self) -> (a: StartAction)
        ensures
            a is AlreadyRunning <==> self.status is Running,
    {
        if self.status == ServerStatus::Running {
            StartAction::AlreadyRunning
        } else {
            StartAction::Launch
        }
    }

    /// Record that the launched engine reported ready within the timeout.
    /// Only the status changes; the configuration is fixed.
    pub fn mark_running(&mut self)
        ensures
            final(self).status is Running,
            same_configuration(*old(self), *final(self)),
    {
        self.status = ServerStatus::Running;
    }

    /// Record the best-effort shutdown at process exit.
    pub fn mark_stopped(&mut self)
        ensures
            final(self).status is Stopped,
            same_configuration(*old(self), *final(self)),
    {
        self.status = ServerStatus::Stopped;
    }
}

} // verus!
