//! Credential validation: a presented secret is accepted exactly when it
//! equals the configured secret after both have been trimmed of leading and
//! trailing whitespace. The comparison itself runs in time that depends only
//! on the operands' lengths, never on where the first differing byte sits.
//!
//! An absent or whitespace-only configured secret is a startup-time
//! configuration error: the service must refuse to start rather than accept
//! an empty secret as "no auth".

use crate::text::{eq_constant_time, trim, trimmed};
use vstd::prelude::*;

verus! {

/// The presented value matches the configured secret after trimming.
pub open spec fn auth_accepts(presented: Seq<char>, configured: Seq<char>) -> bool {
    trim(presented) == trim(configured)
}

/// Decides [`auth_accepts`]: trims both values, then compares them with a
/// constant-time equality check. Never logs or exposes either value.
pub fn validate_secret(presented: &str, configured: &str) -> (r: bool)
    ensures
        r == auth_accepts(presented@, configured@),
{
    let p = trimmed(presented);
    let c = trimmed(configured);
    eq_constant_time(p, c)
}

/// A fatal startup-time error: no usable shared secret was configured.
#[derive(Debug, PartialEq, Eq)]
pub enum ConfigError {
    /// The configured secret was empty, or held only whitespace.
    EmptySecret,
}

/// The process-wide shared secret, loaded once at startup and immutable for
/// the process lifetime. Construction fails rather than admit a secret that
/// trims to nothing.
#[derive(Debug)]
pub struct Credential {
    secret: String,
}

impl Credential {
    /// The configured secret value.
    pub closed spec fn secret(&self) -> Seq<char> {
        self.secret@
    }

    /// A usable credential: the secret does not trim to the empty string.
    pub open spec fn well_formed(&self) -> bool {
        trim(self.secret()).len() > 0
    }

    /// Accepts a configured secret, or reports the fatal configuration error
    /// on a value that trims to nothing.
    pub fn new(secret: String) -> (r: Result<Credential, ConfigError>)
        ensures
            trim(secret@).len() > 0 <==> r is Ok,
            r matches Ok(c) ==> c.secret() == secret@ && c.well_formed(),
            r matches Err(e) ==> e == ConfigError::EmptySecret,
    {
        if trimmed(secret.as_str()).unicode_len() == 0 {
            Err(ConfigError::EmptySecret)
        } else {
            Ok(Credential { secret })
        }
    }

    /// Decides whether `presented` authenticates against this credential.
    pub fn accepts(&self, presented: &str) -> (r: bool)
        ensures
            r == auth_accepts(presented@, self.secret()),
    {
        validate_secret(presented, self.secret.as_str())
    }
}

} // verus!
