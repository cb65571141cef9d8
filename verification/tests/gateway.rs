use admin_api::auth::Credential;
use admin_api::gateway::{plan_request, respond, Plan, ProvisionRequest};
use admin_api::outcome::{classify, GatewayResult, InvokeResult, ProcessOutcome};

fn cred() -> Credential {
    Credential::new("test-key-123".to_string()).unwrap()
}

fn request(identifier: &str, secret: &str) -> ProvisionRequest {
    ProvisionRequest {
        identifier: identifier.to_string(),
        presented_secret: secret.to_string(),
    }
}

fn ran(exit_succeeded: bool, stdout: &str, stderr: &str) -> InvokeResult {
    InvokeResult::Ran(ProcessOutcome {
        exit_succeeded,
        stdout: stdout.to_string(),
        stderr: stderr.to_string(),
    })
}

#[test]
fn successful_provision_renders_200_success() {
    let c = cred();
    let plan = plan_request(&request("john.doe", "test-key-123"), &c);
    let spec = match plan {
        Plan::Execute(spec) => spec,
        Plan::Reject(_) => panic!("both checks pass, so the gateway must execute"),
    };
    assert_eq!(spec.program, "docker");
    assert_eq!(
        spec.args,
        vec![
            "exec",
            "mailserver",
            "/usr/local/bin/setup.sh",
            "email",
            "add",
            "john.doe",
            "password123",
        ]
    );
    let reply = respond(classify("john.doe", ran(true, "ok", "")));
    assert_eq!(reply.code, 200);
    assert_eq!(reply.body.status, "success");
    assert_eq!(reply.body.error, None);
    assert_eq!(
        reply.body.message.as_deref(),
        Some("Mailbox john.doe created successfully")
    );
}

#[test]
fn wrong_key_renders_403_and_never_builds_a_command() {
    let c = cred();
    let plan = plan_request(&request("john.doe", "wrong-key"), &c);
    assert_eq!(plan, Plan::Reject(GatewayResult::AuthFailed));
    let reply = respond(GatewayResult::AuthFailed);
    assert_eq!(reply.code, 403);
    assert_eq!(reply.body.status, "error");
    assert_eq!(reply.body.error.as_deref(), Some("forbidden"));
    assert_eq!(reply.body.message, None);
}

#[test]
fn unsafe_identifier_renders_400_and_never_builds_a_command() {
    let c = cred();
    let plan = plan_request(&request("john;doe", "test-key-123"), &c);
    assert_eq!(plan, Plan::Reject(GatewayResult::InvalidIdentifier));
    let reply = respond(GatewayResult::InvalidIdentifier);
    assert_eq!(reply.code, 400);
    assert_eq!(reply.body.status, "error");
    assert_eq!(reply.body.error.as_deref(), Some("invalid username format"));
    assert_eq!(reply.body.message, None);
}

#[test]
fn auth_is_checked_before_the_identifier() {
    let c = cred();
    let plan = plan_request(&request("john;doe", "wrong-key"), &c);
    assert_eq!(plan, Plan::Reject(GatewayResult::AuthFailed));
}

#[test]
fn nonzero_exit_renders_500_with_stderr_detail() {
    let reply = respond(classify("jane", ran(false, "", "user exists")));
    assert_eq!(reply.code, 500);
    assert_eq!(reply.body.status, "error");
    assert_eq!(reply.body.error.as_deref(), Some("command failed"));
    assert_eq!(reply.body.message.as_deref(), Some("user exists"));
}

#[test]
fn empty_stderr_falls_back_to_stdout_detail() {
    let g = classify("jane", ran(false, "wrote diagnostics to stdout", ""));
    assert_eq!(
        g,
        GatewayResult::CommandFailed {
            detail: "wrote diagnostics to stdout".to_string()
        }
    );
    let g = classify("jane", ran(false, "ignored", "kept"));
    assert_eq!(
        g,
        GatewayResult::CommandFailed {
            detail: "kept".to_string()
        }
    );
}

#[test]
fn launch_failure_renders_500_internal_error() {
    let g = classify(
        "jane",
        InvokeResult::LaunchFailure {
            detail: "No such file or directory".to_string(),
        },
    );
    assert_eq!(
        g,
        GatewayResult::LaunchFailed {
            detail: "No such file or directory".to_string()
        }
    );
    let reply = respond(g);
    assert_eq!(reply.code, 500);
    assert_eq!(reply.body.status, "error");
    assert_eq!(reply.body.error.as_deref(), Some("internal error"));
    assert_eq!(
        reply.body.message.as_deref(),
        Some("No such file or directory")
    );
}

#[test]
fn presented_secret_is_trimmed_before_comparison() {
    let c = cred();
    let plan = plan_request(&request("jane", "  test-key-123\n"), &c);
    assert!(matches!(plan, Plan::Execute(_)));
}

#[test]
fn success_message_embeds_the_identifier() {
    let g = classify("a-b_9.", ran(true, "", ""));
    assert_eq!(
        g,
        GatewayResult::Success {
            message: "Mailbox a-b_9. created successfully".to_string()
        }
    );
}
