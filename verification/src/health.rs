//! The health check: an independent, unauthenticated operation that queries
//! the downstream mail-service container's status and classifies the answer.
//! A missing container or a failing query degrades the report to a warning
//! but the reply stays HTTP 200: the service itself is up, its dependency is
//! not.

use crate::outcome::{fail_detail, InvokeResult, InvokeView};
use crate::reply::{Reply, ReplyView, Response, ResponseView};
use crate::text::{contains_seq, contains_str};
use vstd::prelude::*;
use vstd::string::StringExecFns;

verus! {

/// The health report: the container is running, or a warning with the
/// reason it could not be confirmed.
#[derive(Debug, PartialEq, Eq)]
pub enum HealthStatus {
    /// The status query ran and listed the container.
    Healthy,
    /// The container was not listed, or the query itself failed.
    Warning {
        /// Why the dependency could not be confirmed.
        error: String,
    },
}

/// The mathematical value of a [`HealthStatus`].
pub enum HealthView {
    /// The status query ran and listed the container.
    Healthy,
    /// The container was not listed, or the query itself failed.
    Warning {
        /// Why the dependency could not be confirmed.
        error: Seq<char>,
    },
}

impl View for HealthStatus {
    type V = HealthView;

    open spec fn view(&self) -> HealthView {
        match self {
            HealthStatus::Healthy => HealthView::Healthy,
            HealthStatus::Warning { error } => HealthView::Warning { error: error@ },
        }
    }
}

/// The classification of one container-status query: healthy exactly when
/// the query succeeded and its output lists the container's name; otherwise
/// a warning naming the reason.
pub open spec fn health_of(r: InvokeView) -> HealthView {
    match r {
        InvokeView::Ran(o) => if !o.exit_succeeded {
            HealthView::Warning { error: "docker error: "@ + fail_detail(o) }
        } else if contains_seq(o.stdout, "mailserver"@) {
            HealthView::Healthy
        } else {
            HealthView::Warning { error: "mailserver not running"@ }
        },
        InvokeView::LaunchFailure { detail } => HealthView::Warning {
            error: "docker error: "@ + detail,
        },
    }
}

/// Classifies the outcome of the container-status query, exactly as
/// [`health_of`] states.
pub fn check_health(outcome: InvokeResult) -> (h: HealthStatus)
    ensures
        h@ == health_of(outcome@),
{
    match outcome {
        InvokeResult::Ran(o) => {
            if !o.exit_succeeded {
                let detail = if o.stderr.as_str().is_empty() {
                    o.stdout
                } else {
                    o.stderr
                };
                HealthStatus::Warning {
                    error: "docker error: ".to_owned().concat(detail.as_str()),
                }
            } else if contains_str(o.stdout.as_str(), "mailserver") {
                HealthStatus::Healthy
            } else {
                HealthStatus::Warning { error: "mailserver not running".to_owned() }
            }
        },
        InvokeResult::LaunchFailure { detail } => HealthStatus::Warning {
            error: "docker error: ".to_owned().concat(detail.as_str()),
        },
    }
}

/// The reply rendered for each health classification: always HTTP 200, with the
/// status word `"healthy"` or `"warning"` and, for a warning, its reason.
pub open spec fn health_reply_of(h: HealthView) -> ReplyView {
    match h {
        HealthView::Healthy => ReplyView {
            code: 200,
            body: ResponseView {
                status: "healthy"@,
                error: Option::None,
                message: Option::None,
            },
        },
        HealthView::Warning { error } => ReplyView {
            code: 200,
            body: ResponseView {
                status: "warning"@,
                error: Option::Some(error),
                message: Option::None,
            },
        },
    }
}

/// Renders a health classification as [`health_reply_of`] states.
pub fn health_reply(h: HealthStatus) -> (r: Reply)
    ensures
        r@ == health_reply_of(h@),
{
    match h {
        HealthStatus::Healthy => Reply {
            code: 200,
            body: Response {
                status: "healthy".to_owned(),
                error: None,
                message: None,
            },
        },
        HealthStatus::Warning { error } => Reply {
            code: 200,
            body: Response {
                status: "warning".to_owned(),
                error: Some(error),
                message: None,
            },
        },
    }
}

/// The health check is idempotent: with no change in the queried state, two
/// invocations observe the same query outcome and therefore classify alike.
pub proof fn lemma_health_idempotent(first: InvokeView, second: InvokeView)
    requires
        first == second,
    ensures
        health_of(first) == health_of(second),
{
}

} // verus!
