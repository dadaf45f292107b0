use sysinfo::PidExt;
use xpvcc::confirm::{confirm, ConfirmError, InstallLocationStore};
use xpvcc::liveness::ProcessLivenessMonitor;
use xpvcc::model::UnityPath;
use xpvcc::reply::confirm_error_reply;
use xpvcc::token::{HubDelegateToken, InstallCompletionToken};

const NO_SUCH_PID: u32 = 4_194_999;

fn running_pid() -> u32 {
    match sysinfo::get_current_pid() {
        Ok(pid) => pid.as_u32(),
        Err(reason) => panic!("{}", reason),
    }
}

fn claimed(path: &str) -> UnityPath {
    UnityPath { path: String::from(path) }
}

fn delegate(byte: u8) -> InstallCompletionToken {
    InstallCompletionToken::DelegateToHub(HubDelegateToken::from_bytes([byte; 32]))
}

#[test]
fn confirm_while_the_installer_runs_is_a_conflict() {
    let pid = running_pid();
    let mut monitor = ProcessLivenessMonitor::new();
    let store = InstallLocationStore::new();
    let directory = match tempfile::tempdir() {
        Ok(directory) => directory,
        Err(error) => panic!("{}", error),
    };
    let path = format!("{}", directory.path().display());
    let outcome = confirm(
        &mut monitor,
        &store,
        InstallCompletionToken::Pid(pid),
        claimed(&path),
        directory.path().is_dir(),
    );
    assert_eq!(outcome, Err(ConfirmError::Conflict { pid }));
    assert!(monitor.is_alive(pid));
    match outcome {
        Err(error) => {
            assert!(error.retry_later());
            let reply = confirm_error_reply(&error);
            assert_eq!(reply.status, 400);
            assert_eq!(reply.reason, format!("Please exit installer (pid = {})", pid));
        }
        Ok(_) => unreachable!(),
    }
}

#[test]
fn confirm_after_the_installer_is_gone_is_accepted_and_kept() {
    let token = InstallCompletionToken::Pid(NO_SUCH_PID);
    let mut monitor = ProcessLivenessMonitor::new();
    monitor.observe(NO_SUCH_PID, true);
    let mut store = InstallLocationStore::new();
    let directory = match tempfile::tempdir() {
        Ok(directory) => directory,
        Err(error) => panic!("{}", error),
    };
    let path = format!("{}", directory.path().display());
    let outcome = confirm(&mut monitor, &store, token, claimed(&path), directory.path().is_dir());
    assert!(!monitor.is_alive(NO_SUCH_PID));
    let location = match outcome {
        Ok(location) => location,
        Err(error) => panic!("{:?}", error),
    };
    assert_eq!(location.token(), token);
    assert_eq!(location.path(), path);
    assert_eq!(store.lookup(&token), None);
    assert_eq!(store.record(location.clone(), true), Ok(location));
    assert_eq!(store.lookup(&token), Some(path));
    assert!(store.is_confirmed(&token));
}

#[test]
fn conflict_comes_before_the_path_is_looked_at() {
    let pid = running_pid();
    let mut monitor = ProcessLivenessMonitor::new();
    let store = InstallLocationStore::new();
    for path_is_directory in [false, true] {
        assert_eq!(
            confirm(
                &mut monitor,
                &store,
                InstallCompletionToken::Pid(pid),
                claimed("/no/such/place"),
                path_is_directory,
            ),
            Err(ConfirmError::Conflict { pid })
        );
    }
    for path_is_directory in [false, true] {
        assert_eq!(
            store.examine(
                InstallCompletionToken::Pid(7),
                true,
                claimed("/no/such/place"),
                path_is_directory
            ),
            Err(ConfirmError::Conflict { pid: 7 })
        );
    }
}

#[test]
fn missing_directory_is_not_found_for_every_token() {
    let mut monitor = ProcessLivenessMonitor::new();
    let mut store = InstallLocationStore::new();
    let redeemed = delegate(1);
    let location = match store.examine(redeemed, false, claimed("/opt/unity"), true) {
        Ok(location) => location,
        Err(error) => panic!("{:?}", error),
    };
    assert!(store.record(location, true).is_ok());
    let not_found = Err(ConfirmError::NotFound { path: String::from("/no/such/place") });
    for token in [redeemed, delegate(2), InstallCompletionToken::Pid(NO_SUCH_PID)] {
        assert_eq!(
            confirm(&mut monitor, &store, token, claimed("/no/such/place"), false),
            not_found
        );
    }
    assert_eq!(
        store.examine(delegate(2), true, claimed("/no/such/place"), false),
        not_found
    );
}

#[test]
fn delegate_token_is_examined_without_a_liveness_check() {
    let mut monitor = ProcessLivenessMonitor::new();
    monitor.observe(1, true);
    let store = InstallLocationStore::new();
    let token = delegate(9);
    let outcome = confirm(&mut monitor, &store, token, claimed("/opt/unity"), true);
    match outcome {
        Ok(location) => {
            assert_eq!(location.token(), token);
            assert_eq!(location.path(), "/opt/unity");
        }
        Err(error) => panic!("{:?}", error),
    }
    assert!(monitor.is_alive(1));
    assert!(store.examine(token, true, claimed("/opt/unity"), true).is_ok());
}

#[test]
fn token_is_redeemed_at_most_once() {
    let mut monitor = ProcessLivenessMonitor::new();
    let mut store = InstallLocationStore::new();
    let token = delegate(4);
    let first = match confirm(&mut monitor, &store, token, claimed("/opt/unity/a"), true) {
        Ok(location) => location,
        Err(error) => panic!("{:?}", error),
    };
    let again = match confirm(&mut monitor, &store, token, claimed("/opt/unity/b"), true) {
        Ok(location) => location,
        Err(error) => panic!("{:?}", error),
    };
    assert!(store.record(first, true).is_ok());
    assert_eq!(store.record(again, true), Err(ConfirmError::AlreadyConfirmed));
    assert_eq!(store.lookup(&token), Some(String::from("/opt/unity/a")));
    assert_eq!(
        confirm(&mut monitor, &store, token, claimed("/opt/unity/b"), true),
        Err(ConfirmError::AlreadyConfirmed)
    );
    assert!(!ConfirmError::AlreadyConfirmed.retry_later());
}

#[test]
fn failed_persistence_records_nothing() {
    let mut store = InstallLocationStore::new();
    let token = delegate(5);
    let location = match store.examine(token, false, claimed("/opt/unity"), true) {
        Ok(location) => location,
        Err(error) => panic!("{:?}", error),
    };
    assert_eq!(
        store.record(location.clone(), false),
        Err(ConfirmError::PersistenceUnavailable)
    );
    assert_eq!(store.lookup(&token), None);
    assert!(!store.is_confirmed(&token));
    assert!(!ConfirmError::PersistenceUnavailable.retry_later());
    assert_eq!(store.record(location.clone(), true), Ok(location));
    assert_eq!(store.lookup(&token), Some(String::from("/opt/unity")));
}

#[test]
fn store_keeps_locations_apart_by_token() {
    let mut store = InstallLocationStore::new();
    let tokens = [
        InstallCompletionToken::Pid(1),
        InstallCompletionToken::Pid(2),
        delegate(1),
        delegate(2),
    ];
    let paths = ["/a", "/b", "/c", "/d"];
    for (token, path) in tokens.iter().zip(paths.iter()) {
        let location = match store.examine(*token, false, claimed(path), true) {
            Ok(location) => location,
            Err(error) => panic!("{:?}", error),
        };
        assert!(store.record(location, true).is_ok());
    }
    for (token, path) in tokens.iter().zip(paths.iter()) {
        assert_eq!(store.lookup(token), Some(String::from(*path)));
    }
    assert_eq!(store.lookup(&InstallCompletionToken::Pid(3)), None);
    assert_eq!(store.lookup(&delegate(3)), None);
}

#[test]
fn not_found_does_not_ask_to_retry() {
    let error = ConfirmError::NotFound { path: String::from("/x") };
    assert!(!error.retry_later());
    assert!(ConfirmError::Conflict { pid: 1 }.retry_later());
}
