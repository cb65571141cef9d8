//! Construction of the external command's argument vector. The program and
//! every argument are discrete values handed to a process-launch primitive;
//! nothing is ever concatenated into a shell command line, so no shell can
//! reinterpret the identifier. The identifier slot is filled only from a
//! value that passed the identifier validator.

use crate::ident::valid_identifier;
use vstd::prelude::*;

verus! {

/// An external command: a program and its literal argument vector.
#[derive(Debug, PartialEq, Eq)]
pub struct CommandSpec {
    /// The program to launch.
    pub program: String,
    /// The arguments, passed as discrete values (never through a shell).
    pub args: Vec<String>,
}

/// The program that both gateway invocations launch.
pub open spec fn program_name() -> Seq<char> {
    "docker"@
}

/// The argument vector that provisions a mailbox for `id`: fixed literals
/// around the validated identifier and the fixed provisioning password slot.
pub open spec fn provision_args(id: Seq<char>) -> Seq<Seq<char>> {
    seq![
        "exec"@,
        "mailserver"@,
        "/usr/local/bin/setup.sh"@,
        "email"@,
        "add"@,
        id,
        "password123"@,
    ]
}

/// The argument vector that lists the status of the downstream mail-service
/// container.
pub open spec fn status_args() -> Seq<Seq<char>> {
    seq!["ps"@, "--filter"@, "name=mailserver"@]
}

/// Every argument of `args` reads, character for character, as the
/// corresponding entry of `want`.
pub open spec fn args_are(args: Seq<String>, want: Seq<Seq<char>>) -> bool {
    args.len() == want.len() && (forall|i: int| 0 <= i < args.len() ==> #[trigger] args[i]@ == want[i])
}

/// `cs` is exactly the provisioning command for identifier `id`.
pub open spec fn is_provision_spec(cs: CommandSpec, id: Seq<char>) -> bool {
    cs.program@ == program_name() && args_are(cs.args@, provision_args(id))
}

/// `cs` is exactly the container-status query.
pub open spec fn is_status_spec(cs: CommandSpec) -> bool {
    cs.program@ == program_name() && args_are(cs.args@, status_args())
}

impl CommandSpec {
    /// Builds the provisioning command for a validated identifier. The
    /// precondition is the library's guard: no unvalidated identifier can
    /// reach an argument vector.
    pub fn provision(identifier: &str) -> (cs: CommandSpec)
        requires
            valid_identifier(identifier@),
        ensures
            is_provision_spec(cs, identifier@),
    {
        let mut args: Vec<String> = Vec::new();
        args.push("exec".to_owned());
        args.push("mailserver".to_owned());
        args.push("/usr/local/bin/setup.sh".to_owned());
        args.push("email".to_owned());
        args.push("add".to_owned());
        args.push(identifier.to_owned());
        args.push("password123".to_owned());
        CommandSpec { program: "docker".to_owned(), args }
    }

    /// Builds the container-status query used by the health check.
    pub fn container_status() -> (cs: CommandSpec)
        ensures
            is_status_spec(cs),
    {
        let mut args: Vec<String> = Vec::new();
        args.push("ps".to_owned());
        args.push("--filter".to_owned());
        args.push("name=mailserver".to_owned());
        CommandSpec { program: "docker".to_owned(), args }
    }
}

} // verus!
