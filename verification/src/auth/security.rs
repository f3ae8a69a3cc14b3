//! Security hardening configuration: fail-closed enforcement and audit
//! logging of authentication failures.

use vstd::prelude::*;

verus! {

/// Security configuration.
#[derive(Debug, Clone, Copy, PartialEq, Eq, Structural)]
pub struct SecurityConfig {
    /// Whether system errors deny access at once, preferring security to
    /// availability.
    pub fail_closed_mode: bool,
    /// Whether to log all auth failures.
    pub audit_auth_failures: bool,
}

impl Default for SecurityConfig {
    fn default() -> (r: Self)
        ensures
            r.fail_closed_mode,
            r.audit_auth_failures,
    {
        SecurityConfig { fail_closed_mode: true, audit_auth_failures: true }
    }
}

/// Whether access is to be denied on a system error.
pub fn should_fail_closed(config: &SecurityConfig) -> (r: bool)
    ensures
        r == config.fail_closed_mode,
{
    config.fail_closed_mode
}

} // verus!
