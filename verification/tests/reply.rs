use xpvcc::confirm::{ConfirmError, InstallLocationStore};
use xpvcc::dispatch::{DispatchError, NetworkFault, StoreFault};
use xpvcc::model::UnityPath;
use xpvcc::reply::{
    completion_notice, confirm_error_reply, confirmed_reply, dispatch_error_reply,
    unavailable_endpoint_reply, HttpReply, STATUS_BAD_REQUEST, STATUS_INTERNAL_SERVER_ERROR,
    STATUS_NOT_IMPLEMENTED, STATUS_OK, STATUS_SERVICE_UNAVAILABLE,
};
use xpvcc::text::{decimal, push_decimal};
use xpvcc::token::InstallCompletionToken;

fn reply(status: u16, reason: &str) -> HttpReply {
    HttpReply { status, reason: String::from(reason) }
}

#[test]
fn status_codes() {
    assert_eq!(STATUS_OK, 200);
    assert_eq!(STATUS_BAD_REQUEST, 400);
    assert_eq!(STATUS_INTERNAL_SERVER_ERROR, 500);
    assert_eq!(STATUS_NOT_IMPLEMENTED, 501);
    assert_eq!(STATUS_SERVICE_UNAVAILABLE, 503);
}

#[test]
fn conflict_reply_names_the_pid() {
    assert_eq!(
        confirm_error_reply(&ConfirmError::Conflict { pid: 4321 }),
        reply(400, "Please exit installer (pid = 4321)")
    );
    assert_eq!(
        confirm_error_reply(&ConfirmError::Conflict { pid: 0 }),
        reply(400, "Please exit installer (pid = 0)")
    );
    assert_eq!(
        confirm_error_reply(&ConfirmError::Conflict { pid: u32::MAX }),
        reply(400, "Please exit installer (pid = 4294967295)")
    );
}

#[test]
fn not_found_reply_names_the_path() {
    assert_eq!(
        confirm_error_reply(&ConfirmError::NotFound { path: String::from("/opt/unity/2022") }),
        reply(400, "Installation is not found on /opt/unity/2022")
    );
    assert_eq!(
        confirm_error_reply(&ConfirmError::NotFound { path: String::new() }),
        reply(400, "Installation is not found on ")
    );
}

#[test]
fn already_confirmed_reply() {
    assert_eq!(
        confirm_error_reply(&ConfirmError::AlreadyConfirmed),
        reply(400, "Installation is already confirmed")
    );
}

#[test]
fn persistence_reply_is_a_server_error() {
    assert_eq!(
        confirm_error_reply(&ConfirmError::PersistenceUnavailable),
        reply(500, "persistence is unavailable")
    );
}

#[test]
fn network_faults_answer_service_unavailable() {
    assert_eq!(
        dispatch_error_reply(DispatchError::Network(NetworkFault::ClientError { status: 404 })),
        reply(503, "failed to download Unity installer")
    );
    for status in [302u16, 500, 503] {
        assert_eq!(
            dispatch_error_reply(DispatchError::Network(NetworkFault::UnsuccessfulStatus {
                status
            })),
            reply(503, "failed to download Unity installer")
        );
    }
    assert_eq!(
        dispatch_error_reply(DispatchError::Network(NetworkFault::RequestFailed)),
        reply(503, "failed to establish HTTP request")
    );
    assert_eq!(
        dispatch_error_reply(DispatchError::Network(NetworkFault::BodyUnreadable)),
        reply(503, "failed to decode body")
    );
    assert_eq!(
        dispatch_error_reply(DispatchError::Network(NetworkFault::UnusableAddress)),
        reply(503, "failed to resolve Unity installer address")
    );
}

#[test]
fn local_faults_answer_internal_server_error() {
    assert_eq!(
        dispatch_error_reply(DispatchError::FileSystem(StoreFault::CreateFailed)),
        reply(500, "failed to create temporary file")
    );
    assert_eq!(
        dispatch_error_reply(DispatchError::FileSystem(StoreFault::WriteFailed)),
        reply(500, "failed to write temporary file")
    );
    assert_eq!(
        dispatch_error_reply(DispatchError::ProcessSpawn),
        reply(500, "failed to spawn installer")
    );
    assert_eq!(
        dispatch_error_reply(DispatchError::UnexpectedEvent),
        reply(500, "install steps were reported out of order")
    );
}

#[test]
fn confirmed_reply_names_the_recorded_path() {
    let store = InstallLocationStore::new();
    let claimed = UnityPath { path: String::from("/opt/unity/2022.3.6f1") };
    let location = match store.examine(InstallCompletionToken::Pid(1), false, claimed, true) {
        Ok(location) => location,
        Err(error) => panic!("{:?}", error),
    };
    assert_eq!(
        confirmed_reply(&location),
        reply(200, "Installation is recorded on /opt/unity/2022.3.6f1")
    );
}

#[test]
fn endpoints_not_offered_answer_501() {
    assert_eq!(unavailable_endpoint_reply(), reply(501, "this endpoint is not available"));
}

#[test]
fn completion_notice_text() {
    assert_eq!(
        completion_notice(),
        "Please complete installation. `POST /unity/tell` with installed directory afterwards."
    );
}

#[test]
fn decimal_of_small_and_large_numbers() {
    assert_eq!(decimal(0), "0");
    assert_eq!(decimal(7), "7");
    assert_eq!(decimal(9), "9");
    assert_eq!(decimal(10), "10");
    assert_eq!(decimal(99), "99");
    assert_eq!(decimal(100), "100");
    assert_eq!(decimal(1_000_000_007), "1000000007");
    assert_eq!(decimal(1234567890), "1234567890");
    assert_eq!(decimal(u32::MAX), "4294967295");
}

#[test]
fn decimal_agrees_with_the_standard_formatter() {
    let mut n: u32 = 1;
    for _ in 0..200 {
        assert_eq!(decimal(n), format!("{}", n));
        n = n.wrapping_mul(2_654_435_761).wrapping_add(12345);
    }
}

#[test]
fn push_decimal_appends() {
    let mut text = String::from("pid = ");
    push_decimal(&mut text, 305);
    assert_eq!(text, "pid = 305");
    push_decimal(&mut text, 0);
    assert_eq!(text, "pid = 3050");
}
