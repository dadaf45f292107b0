//! What the service answers: a status and a reason for every outcome.
//!
//! A fault of the caller answers in the 4xx range, a fault of the service
//! or of its surroundings in the 5xx range.

use crate::confirm::{ConfirmError, ConfirmErrorView, InstalledLocation};
use crate::dispatch::{DispatchError, NetworkFault, StoreFault};
use crate::text::{decimal_digits, push_decimal};
use vstd::prelude::*;
use vstd::string::*;

verus! {

pub const STATUS_OK: u16 = 200;

pub const STATUS_BAD_REQUEST: u16 = 400;

pub const STATUS_INTERNAL_SERVER_ERROR: u16 = 500;

pub const STATUS_NOT_IMPLEMENTED: u16 = 501;

pub const STATUS_SERVICE_UNAVAILABLE: u16 = 503;

/// An answer: the HTTP status and the reason in plain text.
#[derive(Clone, Debug, PartialEq, Eq)]
pub struct HttpReply {
    pub status: u16,
    pub reason: String,
}

/// An `HttpReply` with its reason as a sequence.
pub struct HttpReplyView {
    pub status: u16,
    pub reason: Seq<char>,
}

impl View for HttpReply {
    type V = HttpReplyView;

    open spec fn view(&self) -> HttpReplyView {
        HttpReplyView { status: self.status, reason: self.reason@ }
    }
}

/// What a caller reads after a successful dispatch.
pub open spec fn completion_notice_text() -> Seq<char> {
    "Please complete installation. `POST /unity/tell` with installed directory afterwards."@
}

/// The answer to a confirmation that was turned down.
pub open spec fn confirm_error_reply_view(error: ConfirmErrorView) -> HttpReplyView {
    match error {
        ConfirmErrorView::Conflict { pid } => HttpReplyView {
            status: STATUS_BAD_REQUEST,
            reason: "Please exit installer (pid = "@ + decimal_digits(pid as nat) + ")"@,
        },
        ConfirmErrorView::NotFound { path } => HttpReplyView {
            status: STATUS_BAD_REQUEST,
            reason: "Installation is not found on "@ + path,
        },
        ConfirmErrorView::AlreadyConfirmed => HttpReplyView {
            status: STATUS_BAD_REQUEST,
            reason: "Installation is already confirmed"@,
        },
        ConfirmErrorView::PersistenceUnavailable => HttpReplyView {
            status: STATUS_INTERNAL_SERVER_ERROR,
            reason: "persistence is unavailable"@,
        },
    }
}

/// The answer to a dispatch that issued no token. Whatever kept the
/// installer from being fetched answers as service unavailable.
pub open spec fn dispatch_error_reply_view(error: DispatchError) -> HttpReplyView {
    match error {
        DispatchError::Network(fault) => HttpReplyView {
            status: STATUS_SERVICE_UNAVAILABLE,
            reason: match fault {
                NetworkFault::UnusableAddress => "failed to resolve Unity installer address"@,
                NetworkFault::RequestFailed => "failed to establish HTTP request"@,
                NetworkFault::ClientError { status } => "failed to download Unity installer"@,
                NetworkFault::UnsuccessfulStatus { status } =>
                    "failed to download Unity installer"@,
                NetworkFault::BodyUnreadable => "failed to decode body"@,
            },
        },
        DispatchError::FileSystem(fault) => HttpReplyView {
            status: STATUS_INTERNAL_SERVER_ERROR,
            reason: match fault {
                StoreFault::CreateFailed => "failed to create temporary file"@,
                StoreFault::WriteFailed => "failed to write temporary file"@,
            },
        },
        DispatchError::ProcessSpawn => HttpReplyView {
            status: STATUS_INTERNAL_SERVER_ERROR,
            reason: "failed to spawn installer"@,
        },
        DispatchError::UnexpectedEvent => HttpReplyView {
            status: STATUS_INTERNAL_SERVER_ERROR,
            reason: "install steps were reported out of order"@,
        },
    }
}

/// The answer to a confirmation that was recorded.
pub open spec fn confirmed_reply_view(path: Seq<char>) -> HttpReplyView {
    HttpReplyView { status: STATUS_OK, reason: "Installation is recorded on "@ + path }
}

/// The answer of an endpoint that the service does not offer yet.
pub open spec fn unavailable_endpoint_reply_view() -> HttpReplyView {
    HttpReplyView { status: STATUS_NOT_IMPLEMENTED, reason: "this endpoint is not available"@ }
}

pub fn completion_notice() -> (notice: &'static str)
    ensures
        notice@ == completion_notice_text(),
{
    "Please complete installation. `POST /unity/tell` with installed directory afterwards."
}

fn reply(status: u16, reason: &str) -> (reply: HttpReply)
    ensures
        reply@ == (HttpReplyView { status, reason: reason@ }),
{
    HttpReply { status, reason: String::from_str(reason) }
}

pub fn confirm_error_reply(error: &ConfirmError) -> (reply: HttpReply)
    ensures
        reply@ == confirm_error_reply_view(error@),
{
    match error {
        ConfirmError::Conflict { pid } => {
            let mut reason = String::from_str("Please exit installer (pid = ");
            push_decimal(&mut reason, *pid);
            reason.append(")");
            HttpReply { status: STATUS_BAD_REQUEST, reason }
        },
        ConfirmError::NotFound { path } => {
            let mut reason = String::from_str("Installation is not found on ");
            reason.append(path.as_str());
            HttpReply { status: STATUS_BAD_REQUEST, reason }
        },
        ConfirmError::AlreadyConfirmed => reply(
            STATUS_BAD_REQUEST,
            "Installation is already confirmed",
        ),
        ConfirmError::PersistenceUnavailable => reply(
            STATUS_INTERNAL_SERVER_ERROR,
            "persistence is unavailable",
        ),
    }
}

pub fn dispatch_error_reply(error: DispatchError) -> (reply: HttpReply)
    ensures
        reply@ == dispatch_error_reply_view(error),
{
    match error {
        DispatchError::Network(fault) => reply(
            STATUS_SERVICE_UNAVAILABLE,
            match fault {
                NetworkFault::UnusableAddress => "failed to resolve Unity installer address",
                NetworkFault::RequestFailed => "failed to establish HTTP request",
                NetworkFault::ClientError { status: _ } => "failed to download Unity installer",
                NetworkFault::UnsuccessfulStatus { status: _ } => {
                    "failed to download Unity installer"
                },
                NetworkFault::BodyUnreadable => "failed to decode body",
            },
        ),
        DispatchError::FileSystem(fault) => reply(
            STATUS_INTERNAL_SERVER_ERROR,
            match fault {
                StoreFault::CreateFailed => "failed to create temporary file",
                StoreFault::WriteFailed => "failed to write temporary file",
            },
        ),
        DispatchError::ProcessSpawn => reply(
            STATUS_INTERNAL_SERVER_ERROR,
            "failed to spawn installer",
        ),
        DispatchError::UnexpectedEvent => reply(
            STATUS_INTERNAL_SERVER_ERROR,
            "install steps were reported out of order",
        ),
    }
}

pub fn confirmed_reply(location: &InstalledLocation) -> (reply: HttpReply)
    ensures
        reply@ == confirmed_reply_view(location@.path),
{
    let mut reason = String::from_str("Installation is recorded on ");
    reason.append(location.path());
    HttpReply { status: STATUS_OK, reason }
}

pub fn unavailable_endpoint_reply() -> (reply: HttpReply)
    ensures
        reply@ == unavailable_endpoint_reply_view(),
{
    reply(STATUS_NOT_IMPLEMENTED, "this endpoint is not available")
}

/// Every refusal answers in the range that tells whose fault it was: a
/// confirmation is the caller's to mend unless the storage failed, and a
/// failed dispatch is never the caller's fault.
pub proof fn law_status_tells_the_side(confirm: ConfirmErrorView, dispatch: DispatchError)
    ensures
        confirm is PersistenceUnavailable ==> 500 <= confirm_error_reply_view(confirm).status < 600,
        !(confirm is PersistenceUnavailable) ==> 400 <= confirm_error_reply_view(confirm).status
            < 500,
        500 <= dispatch_error_reply_view(dispatch).status < 600,
        dispatch is Network ==> dispatch_error_reply_view(dispatch).status
            == STATUS_SERVICE_UNAVAILABLE,
{
}

} // verus!
