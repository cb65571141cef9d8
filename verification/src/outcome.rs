//! The invoker's result and its classification. An external command either
//! could not be launched at all, or ran to an exit status with captured
//! output; the classifier maps each case into the closed result taxonomy
//! that drives response rendering.

use vstd::prelude::*;
use vstd::string::StringExecFns;

verus! {

/// What a launched process produced: its exit status and captured streams.
#[derive(Debug, PartialEq, Eq)]
pub struct ProcessOutcome {
    /// The process exited with status zero.
    pub exit_succeeded: bool,
    /// Captured standard output, complete.
    pub stdout: String,
    /// Captured standard error, complete.
    pub stderr: String,
}

/// The mathematical value of a [`ProcessOutcome`].
pub struct OutcomeView {
    /// The process exited with status zero.
    pub exit_succeeded: bool,
    /// Captured standard output.
    pub stdout: Seq<char>,
    /// Captured standard error.
    pub stderr: Seq<char>,
}

impl View for ProcessOutcome {
    type V = OutcomeView;

    open spec fn view(&self) -> OutcomeView {
        OutcomeView {
            exit_succeeded: self.exit_succeeded,
            stdout: self.stdout@,
            stderr: self.stderr@,
        }
    }
}

/// The invoker's report: the process ran (however it exited), or it could
/// not be started at all. The distinction is load-bearing for rendering.
#[derive(Debug, PartialEq, Eq)]
pub enum InvokeResult {
    /// The process started and ran to completion.
    Ran(ProcessOutcome),
    /// The process could not be started (binary missing, permission denied,
    /// timeout before completion).
    LaunchFailure {
        /// The platform's error text.
        detail: String,
    },
}

/// The mathematical value of an [`InvokeResult`].
pub enum InvokeView {
    /// The process started and ran to completion.
    Ran(OutcomeView),
    /// The process could not be started.
    LaunchFailure {
        /// The platform's error text.
        detail: Seq<char>,
    },
}

impl View for InvokeResult {
    type V = InvokeView;

    open spec fn view(&self) -> InvokeView {
        match self {
            InvokeResult::Ran(o) => InvokeView::Ran(o@),
            InvokeResult::LaunchFailure { detail } => InvokeView::LaunchFailure {
                detail: detail@,
            },
        }
    }
}

/// The gateway's closed result taxonomy: exactly one variant per request,
/// the sole input to response rendering.
#[derive(Debug, PartialEq, Eq)]
pub enum GatewayResult {
    /// The command ran and exited successfully.
    Success {
        /// Human-readable confirmation, including the identifier.
        message: String,
    },
    /// The presented secret did not match the configured one.
    AuthFailed,
    /// The identifier fell outside the safe character class.
    InvalidIdentifier,
    /// The command started but exited non-zero.
    CommandFailed {
        /// The command's diagnostics: stderr if non-empty, else stdout.
        detail: String,
    },
    /// The command could not be started.
    LaunchFailed {
        /// The platform's error text.
        detail: String,
    },
}

/// The mathematical value of a [`GatewayResult`].
pub enum GatewayView {
    /// The command ran and exited successfully.
    Success {
        /// Human-readable confirmation, including the identifier.
        message: Seq<char>,
    },
    /// The presented secret did not match the configured one.
    AuthFailed,
    /// The identifier fell outside the safe character class.
    InvalidIdentifier,
    /// The command started but exited non-zero.
    CommandFailed {
        /// The command's diagnostics.
        detail: Seq<char>,
    },
    /// The command could not be started.
    LaunchFailed {
        /// The platform's error text.
        detail: Seq<char>,
    },
}

impl View for GatewayResult {
    type V = GatewayView;

    open spec fn view(&self) -> GatewayView {
        match self {
            GatewayResult::Success { message } => GatewayView::Success { message: message@ },
            GatewayResult::AuthFailed => GatewayView::AuthFailed,
            GatewayResult::InvalidIdentifier => GatewayView::InvalidIdentifier,
            GatewayResult::CommandFailed { detail } => GatewayView::CommandFailed {
                detail: detail@,
            },
            GatewayResult::LaunchFailed { detail } => GatewayView::LaunchFailed {
                detail: detail@,
            },
        }
    }
}

/// The diagnostic text of a failed run: stderr if non-empty, else stdout.
/// The invoked script is expected to write diagnostics to stderr; falling
/// back to stdout avoids an empty detail when a script misuses streams.
pub open spec fn fail_detail(o: OutcomeView) -> Seq<char> {
    if o.stderr.len() > 0 {
        o.stderr
    } else {
        o.stdout
    }
}

/// The confirmation message for a successfully provisioned identifier.
pub open spec fn success_message(id: Seq<char>) -> Seq<char> {
    "Mailbox "@ + id + " created successfully"@
}

/// The classification of an invoker report for identifier `id`: launch
/// failure, success and non-zero exit each map to their own variant.
pub open spec fn classify_of(id: Seq<char>, r: InvokeView) -> GatewayView {
    match r {
        InvokeView::Ran(o) => if o.exit_succeeded {
            GatewayView::Success { message: success_message(id) }
        } else {
            GatewayView::CommandFailed { detail: fail_detail(o) }
        },
        InvokeView::LaunchFailure { detail } => GatewayView::LaunchFailed { detail },
    }
}

/// Maps the invoker's report for `identifier` into the result taxonomy,
/// exactly as [`classify_of`] states.
pub fn classify(identifier: &str, outcome: InvokeResult) -> (g: GatewayResult)
    ensures
        g@ == classify_of(identifier@, outcome@),
{
    match outcome {
        InvokeResult::Ran(o) => {
            if o.exit_succeeded {
                let message = "Mailbox ".to_owned().concat(identifier).concat(
                    " created successfully",
                );
                GatewayResult::Success { message }
            } else {
                let detail = if o.stderr.as_str().is_empty() {
                    o.stdout
                } else {
                    o.stderr
                };
                GatewayResult::CommandFailed { detail }
            }
        },
        InvokeResult::LaunchFailure { detail } => GatewayResult::LaunchFailed { detail },
    }
}

} // verus!
