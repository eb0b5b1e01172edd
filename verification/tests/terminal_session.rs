//! The terminal session model: geometry, serialized writes, and the output
//! pump's push-only forwarding.

use pgbridge::errors::{
    ConnectError, InitError, ProvisionError, ResizeError, SpawnError, StartError, WriteError,
};
use pgbridge::terminal::{OutputPump, TerminalSession};

#[test]
fn spawn_records_geometry_and_starts_empty() {
    let s = TerminalSession::spawn(24, 80);
    assert_eq!(s.rows, 24);
    assert_eq!(s.cols, 80);
    assert!(s.alive);
    assert!(s.written.is_empty());
}

#[test]
fn resize_takes_effect_immediately() {
    let mut s = TerminalSession::spawn(24, 80);
    s.resize(50, 120);
    assert_eq!(s.rows, 50);
    assert_eq!(s.cols, 120);
}

#[test]
fn resize_corrupts_no_write() {
    let mut s = TerminalSession::spawn(24, 80);
    s.write(&b"echo ".to_vec());
    s.resize(50, 120);
    s.write(&b"hi\n".to_vec());
    // Each write landed whole; the interposed resize touched no byte.
    assert_eq!(s.written, b"echo hi\n".to_vec());
    assert_eq!(s.rows, 50);
    assert_eq!(s.cols, 120);
}

#[test]
fn child_exit_is_one_shot() {
    let mut s = TerminalSession::spawn(24, 80);
    s.write(&b"exit\n".to_vec());
    s.mark_exited();
    assert!(!s.alive);
    assert_eq!(s.written, b"exit\n".to_vec());
}

#[test]
fn pump_skips_empty_polls() {
    let mut p = OutputPump::new();
    assert_eq!(p.poll(vec![]), None);
    assert!(p.forwarded.is_empty());
}

#[test]
fn pump_emits_available_bytes_verbatim() {
    let mut p = OutputPump::new();
    let emitted = p.poll(b"$ ".to_vec());
    assert_eq!(emitted, Some(b"$ ".to_vec()));
}

#[test]
fn pump_preserves_byte_order_across_polls() {
    let mut p = OutputPump::new();
    assert_eq!(p.poll(b"ab".to_vec()), Some(b"ab".to_vec()));
    assert_eq!(p.poll(vec![]), None);
    assert_eq!(p.poll(b"cd".to_vec()), Some(b"cd".to_vec()));
    assert_eq!(p.forwarded, b"abcd".to_vec());
}

#[test]
fn pump_surfaces_echoed_output() {
    // The shell was asked to `echo hi`; whatever chunking the read handle
    // produces, some emitted chunk carries the bytes of "hi".
    let mut session = TerminalSession::spawn(24, 80);
    session.write(&b"echo hi\n".to_vec());
    let mut pump = OutputPump::new();
    let chunks: Vec<Vec<u8>> = vec![b"echo hi\r\n".to_vec(), vec![], b"hi\r\n$ ".to_vec()];
    let mut emitted: Vec<Vec<u8>> = Vec::new();
    for chunk in chunks {
        if let Some(e) = pump.poll(chunk) {
            emitted.push(e);
        }
    }
    assert!(emitted
        .iter()
        .any(|chunk| String::from_utf8(chunk.clone()).unwrap().contains("hi")));
    // Push model only: everything available was forwarded without being asked.
    assert_eq!(String::from_utf8(pump.forwarded.clone()).unwrap(), "echo hi\r\nhi\r\n$ ");
}

#[test]
fn error_descriptions_are_fixed() {
    assert_eq!(ProvisionError::EngineUnavailable.message(), "embedded engine unavailable");
    assert_eq!(ProvisionError::StorageUnavailable.message(), "storage directory unavailable");
    assert_eq!(StartError::Timeout.message(), "server start timed out");
    assert_eq!(StartError::PortConflict.message(), "server port already in use");
    assert_eq!(InitError::CreateFailed.message(), "database creation failed");
    assert_eq!(InitError::MigrateFailed.message(), "database migration failed");
    assert_eq!(ConnectError::Unreachable.message(), "database server unreachable");
    assert_eq!(
        ConnectError::CredentialsRejected.message(),
        "database credentials rejected"
    );
    assert_eq!(SpawnError::PtyUnavailable.message(), "pseudo-terminal unavailable");
    assert_eq!(SpawnError::ShellUnavailable.message(), "shell could not be spawned");
    assert_eq!(ResizeError::Io.message(), "terminal resize failed");
    assert_eq!(WriteError::Io.message(), "terminal write failed");
}
