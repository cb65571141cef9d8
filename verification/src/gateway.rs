//! Gateway orchestration. A request passes, in order, the credential check
//! and the identifier check; each failure is a terminal result. Only a
//! request that passed both yields a command to execute, so no unvalidated
//! identifier ever reaches an argument vector. The classifier's result is
//! rendered by a single total function from the result taxonomy to an HTTP
//! status code and body.

use crate::auth::{auth_accepts, Credential};
use crate::command::{is_provision_spec, CommandSpec};
use crate::ident::{valid_identifier, validate_identifier};
use crate::outcome::{GatewayResult, GatewayView};
use crate::reply::{Reply, ReplyView, Response, ResponseView};
use vstd::prelude::*;

verus! {

/// One inbound provisioning call: the identifier from the request path and
/// the secret presented in the request header.
#[derive(Debug, PartialEq, Eq)]
pub struct ProvisionRequest {
    /// The mailbox identifier, untrusted.
    pub identifier: String,
    /// The presented shared secret, untrusted.
    pub presented_secret: String,
}

/// What the gateway decided for a request: reject it with a terminal result,
/// or execute the provisioning command it built.
#[derive(Debug, PartialEq, Eq)]
pub enum Plan {
    /// The request is rejected before any process is launched.
    Reject(GatewayResult),
    /// Both checks passed; run this command and classify its outcome.
    Execute(CommandSpec),
}

/// Runs the credential check, then the identifier check, and builds the
/// provisioning command only when both pass.
///
/// The first clause is the gateway's structural guarantee: a command is
/// constructed only for an authenticated request with a valid identifier,
/// and it is exactly the provisioning command for that identifier.
pub fn plan_request(req: &ProvisionRequest, cred: &Credential) -> (p: Plan)
    ensures
        p matches Plan::Execute(cs) ==> auth_accepts(req.presented_secret@, cred.secret())
            && valid_identifier(req.identifier@) && is_provision_spec(cs, req.identifier@),
        !auth_accepts(req.presented_secret@, cred.secret()) ==> p == Plan::Reject(
            GatewayResult::AuthFailed,
        ),
        auth_accepts(req.presented_secret@, cred.secret()) && !valid_identifier(
            req.identifier@,
        ) ==> p == Plan::Reject(GatewayResult::InvalidIdentifier),
        auth_accepts(req.presented_secret@, cred.secret()) && valid_identifier(
            req.identifier@,
        ) ==> p matches Plan::Execute(_),
{
    if !cred.accepts(req.presented_secret.as_str()) {
        return Plan::Reject(GatewayResult::AuthFailed);
    }
    if !validate_identifier(req.identifier.as_str()) {
        return Plan::Reject(GatewayResult::InvalidIdentifier);
    }
    Plan::Execute(CommandSpec::provision(req.identifier.as_str()))
}

/// The reply rendered for each result: its HTTP status code and body. Total
/// over the closed taxonomy; diagnostic detail appears only for command and
/// launch failures, never for an authentication failure.
pub open spec fn reply_of(g: GatewayView) -> ReplyView {
    match g {
        GatewayView::Success { message } => ReplyView {
            code: 200,
            body: ResponseView {
                status: "success"@,
                error: Option::None,
                message: Option::Some(message),
            },
        },
        GatewayView::AuthFailed => ReplyView {
            code: 403,
            body: ResponseView {
                status: "error"@,
                error: Option::Some("forbidden"@),
                message: Option::None,
            },
        },
        GatewayView::InvalidIdentifier => ReplyView {
            code: 400,
            body: ResponseView {
                status: "error"@,
                error: Option::Some("invalid username format"@),
                message: Option::None,
            },
        },
        GatewayView::CommandFailed { detail } => ReplyView {
            code: 500,
            body: ResponseView {
                status: "error"@,
                error: Option::Some("command failed"@),
                message: Option::Some(detail),
            },
        },
        GatewayView::LaunchFailed { detail } => ReplyView {
            code: 500,
            body: ResponseView {
                status: "error"@,
                error: Option::Some("internal error"@),
                message: Option::Some(detail),
            },
        },
    }
}

/// Renders a result as [`reply_of`] states: the single, total mapping from
/// the result taxonomy to a status code and body.
pub fn respond(result: GatewayResult) -> (r: Reply)
    ensures
        r@ == reply_of(result@),
{
    match result {
        GatewayResult::Success { message } => Reply {
            code: 200,
            body: Response {
                status: "success".to_owned(),
                error: None,
                message: Some(message),
            },
        },
        GatewayResult::AuthFailed => Reply {
            code: 403,
            body: Response {
                status: "error".to_owned(),
                error: Some("forbidden".to_owned()),
                message: None,
            },
        },
        GatewayResult::InvalidIdentifier => Reply {
            code: 400,
            body: Response {
                status: "error".to_owned(),
                error: Some("invalid username format".to_owned()),
                message: None,
            },
        },
        GatewayResult::CommandFailed { detail } => Reply {
            code: 500,
            body: Response {
                status: "error".to_owned(),
                error: Some("command failed".to_owned()),
                message: Some(detail),
            },
        },
        GatewayResult::LaunchFailed { detail } => Reply {
            code: 500,
            body: Response {
                status: "error".to_owned(),
                error: Some("internal error".to_owned()),
                message: Some(detail),
            },
        },
    }
}

} // verus!
