//! Error taxonomy for the gateway.
//!
//! Provisioning, start, and schema-initialization failures are fatal to
//! startup; query failures are recovered locally and surfaced as data (see
//! `query`); terminal failures collapse to a coarse signal at the boundary.
//! The unverified shell maps the engine's own error values onto these
//! variants; the verified code only classifies and describes them.

use vstd::prelude::*;

verus! {

/// Failure while provisioning the embedded engine (locating or unpacking the
/// server binary, fixing credentials, preparing storage).
#[derive(Clone, Copy, Debug, PartialEq, Eq, Structural)]
pub enum ProvisionError {
    /// The engine binary could not be located or fetched.
    EngineUnavailable,
    /// The storage directory could not be prepared.
    StorageUnavailable,
}

/// Failure while starting the provisioned engine.
#[derive(Clone, Copy, Debug, PartialEq, Eq, Structural)]
pub enum StartError {
    /// The engine did not report ready before the timeout elapsed.
    Timeout,
    /// The configured port was already taken.
    PortConflict,
}

/// Failure while ensuring the target database exists and is migrated.
#[derive(Clone, Copy, Debug, PartialEq, Eq, Structural)]
pub enum InitError {
    /// The existence check or the create statement failed.
    CreateFailed,
    /// The migration runner failed.
    MigrateFailed,
}

/// Failure while opening one logical connection.
#[derive(Clone, Copy, Debug, PartialEq, Eq, Structural)]
pub enum ConnectError {
    /// The engine was not reachable at the configured port.
    Unreachable,
    /// The fixed local credentials were rejected.
    CredentialsRejected,
}

/// Failure while spawning the interactive shell on a fresh pseudo-terminal.
#[derive(Clone, Copy, Debug, PartialEq, Eq, Structural)]
pub enum SpawnError {
    /// No pseudo-terminal pair could be opened.
    PtyUnavailable,
    /// The shell child process could not be started.
    ShellUnavailable,
}

/// Failure while applying a new terminal geometry.
#[derive(Clone, Copy, Debug, PartialEq, Eq, Structural)]
pub enum ResizeError {
    /// The pseudo-terminal rejected the new geometry.
    Io,
}

/// Failure while forwarding bytes to the shell's input.
///
/// Deliberately coarse: the boundary collapses terminal I/O failures to one
/// signal, so a caller cannot tell a partial write from a total one.
#[derive(Clone, Copy, Debug, PartialEq, Eq, Structural)]
pub enum WriteError {
    /// The write to the pseudo-terminal failed.
    Io,
}

impl ProvisionError {
    /// A short description for the startup log; startup aborts on this error.
    pub fn message(&self) -> (r: String)
        ensures
            *self is EngineUnavailable ==> r@ == "embedded engine unavailable"@,
            *self is StorageUnavailable ==> r@ == "storage directory unavailable"@,
    {
        match self {
            ProvisionError::EngineUnavailable => "embedded engine unavailable".to_owned(),
            ProvisionError::StorageUnavailable => "storage directory unavailable".to_owned(),
        }
    }
}

impl InitError {
    /// A short description for the startup log; startup aborts on this error.
    pub fn message(&self) -> (r: String)
        ensures
            *self is CreateFailed ==> r@ == "database creation failed"@,
            *self is MigrateFailed ==> r@ == "database migration failed"@,
    {
        match self {
            InitError::CreateFailed => "database creation failed".to_owned(),
            InitError::MigrateFailed => "database migration failed".to_owned(),
        }
    }
}

impl SpawnError {
    /// A short description for the startup log; startup aborts on this error.
    pub fn message(&self) -> (r: String)
        ensures
            *self is PtyUnavailable ==> r@ == "pseudo-terminal unavailable"@,
            *self is ShellUnavailable ==> r@ == "shell could not be spawned"@,
    {
        match self {
            SpawnError::PtyUnavailable => "pseudo-terminal unavailable".to_owned(),
            SpawnError::ShellUnavailable => "shell could not be spawned".to_owned(),
        }
    }
}

impl ResizeError {
    /// A short description for the terminal boundary.
    pub fn message(&self) -> (r: String)
        ensures
            r@ == "terminal resize failed"@,
    {
        match self {
            ResizeError::Io => "terminal resize failed".to_owned(),
        }
    }
}

impl WriteError {
    /// A short description for the terminal boundary.
    pub fn message(&self) -> (r: String)
        ensures
            r@ == "terminal write failed"@,
    {
        match self {
            WriteError::Io => "terminal write failed".to_owned(),
        }
    }
}

impl StartError {
    /// A short description for the startup log; startup aborts on this error.
    pub fn message(&self) -> (r: String)
        ensures
            *self is Timeout ==> r@ == "server start timed out"@,
            *self is PortConflict ==> r@ == "server port already in use"@,
    {
        match self {
            StartError::Timeout => "server start timed out".to_owned(),
            StartError::PortConflict => "server port already in use".to_owned(),
        }
    }
}

impl ConnectError {
    /// A short description for the caller; connection attempts are not retried.
    pub fn message(&self) -> (r: String)
        ensures
            *self is Unreachable ==> r@ == "database server unreachable"@,
            *self is CredentialsRejected ==> r@ == "database credentials rejected"@,
    {
        match self {
            ConnectError::Unreachable => "database server unreachable".to_owned(),
            ConnectError::CredentialsRejected => "database credentials rejected".to_owned(),
        }
    }
}

} // verus!
