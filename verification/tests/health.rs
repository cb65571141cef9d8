use admin_api::command::CommandSpec;
use admin_api::health::{check_health, health_reply, HealthStatus};
use admin_api::outcome::{InvokeResult, ProcessOutcome};

fn ran(exit_succeeded: bool, stdout: &str, stderr: &str) -> InvokeResult {
    InvokeResult::Ran(ProcessOutcome {
        exit_succeeded,
        stdout: stdout.to_string(),
        stderr: stderr.to_string(),
    })
}

#[test]
fn status_query_is_the_fixed_listing_command() {
    let spec = CommandSpec::container_status();
    assert_eq!(spec.program, "docker");
    assert_eq!(spec.args, vec!["ps", "--filter", "name=mailserver"]);
}

#[test]
fn listed_container_is_healthy() {
    let out = "CONTAINER ID  IMAGE  NAMES\nabc123  mail/mail  mailserver";
    let h = check_health(ran(true, out, ""));
    assert_eq!(h, HealthStatus::Healthy);
    let reply = health_reply(h);
    assert_eq!(reply.code, 200);
    assert_eq!(reply.body.status, "healthy");
    assert_eq!(reply.body.error, None);
    assert_eq!(reply.body.message, None);
}

#[test]
fn missing_container_is_a_warning_with_200() {
    let h = check_health(ran(true, "CONTAINER ID  IMAGE  NAMES", ""));
    assert_eq!(
        h,
        HealthStatus::Warning {
            error: "mailserver not running".to_string()
        }
    );
    let reply = health_reply(h);
    assert_eq!(reply.code, 200);
    assert_eq!(reply.body.status, "warning");
    assert_eq!(reply.body.error.as_deref(), Some("mailserver not running"));
    assert_eq!(reply.body.message, None);
}

#[test]
fn failing_query_is_a_warning_naming_the_error() {
    let h = check_health(ran(false, "", "permission denied"));
    assert_eq!(
        h,
        HealthStatus::Warning {
            error: "docker error: permission denied".to_string()
        }
    );
}

#[test]
fn launch_failure_is_a_warning_naming_the_error() {
    let h = check_health(InvokeResult::LaunchFailure {
        detail: "No such file or directory".to_string(),
    });
    assert_eq!(
        h,
        HealthStatus::Warning {
            error: "docker error: No such file or directory".to_string()
        }
    );
    let reply = health_reply(h);
    assert_eq!(reply.code, 200);
    assert_eq!(reply.body.status, "warning");
}

#[test]
fn repeated_checks_classify_alike() {
    let first = check_health(ran(true, "NAMES", ""));
    let second = check_health(ran(true, "NAMES", ""));
    assert_eq!(first, second);
    let third = check_health(ran(true, "mailserver", ""));
    let fourth = check_health(ran(true, "mailserver", ""));
    assert_eq!(third, fourth);
}
