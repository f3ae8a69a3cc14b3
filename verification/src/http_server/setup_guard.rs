//! Setup guard: protected routes are refused until the first-run setup is
//! complete.

use vstd::prelude::*;

verus! {

/// The HTTP status of a request that is refused because setup is pending:
/// the service is not ready yet, which is neither a matter of permission
/// nor of authentication.
pub const SETUP_PENDING_STATUS: u16 = 503;

/// Response returned when setup is not complete.
#[derive(Debug, Clone, Copy, PartialEq, Eq)]
pub struct SetupRequiredResponse {
    pub error: &'static str,
    pub code: &'static str,
    pub message: &'static str,
    pub setup_url: &'static str,
}

impl SetupRequiredResponse {
    /// Create the standard "setup required" response.
    pub fn new() -> (r: Self)
        ensures
            r.error@ == "SETUP_REQUIRED"@,
            r.code@ == "AERO_SETUP_REQUIRED"@,
            r.message@
                == "AeroDB setup is not complete. Complete the setup wizard before using the API."@,
            r.setup_url@ == "/setup/status"@,
    {
        SetupRequiredResponse {
            error: "SETUP_REQUIRED",
            code: "AERO_SETUP_REQUIRED",
            message: "AeroDB setup is not complete. Complete the setup wizard before using the API.",
            setup_url: "/setup/status",
        }
    }
}

impl Default for SetupRequiredResponse {
    fn default() -> (r: Self)
        ensures
            r.code@ == "AERO_SETUP_REQUIRED"@,
    {
        SetupRequiredResponse::new()
    }
}

/// Whether the first-run setup is complete. A new state is not ready.
#[derive(Debug, Clone, Copy, PartialEq, Eq)]
pub struct SetupState {
    ready: bool,
}

impl SetupState {
    /// Whether setup is complete.
    pub closed spec fn ready(&self) -> bool {
        self.ready
    }

    /// The state of a system that is not set up.
    pub fn new() -> (r: Self)
        ensures
            !r.ready(),
    {
        SetupState { ready: false }
    }

    /// Whether setup is complete.
    pub fn is_ready(&self) -> (r: bool)
        ensures
            r == self.ready(),
    {
        self.ready
    }

    /// Record that setup is complete.
    pub fn mark_ready(&mut self)
        ensures
            final(self).ready(),
    {
        self.ready = true;
    }
}

impl Default for SetupState {
    fn default() -> (r: Self)
        ensures
            !r.ready(),
    {
        SetupState::new()
    }
}

/// What the guard decides for a request to a protected route.
#[derive(Debug, Clone, Copy, PartialEq, Eq)]
pub enum GuardDecision {
    /// The request goes on.
    Proceed,
    /// The request is refused with the status and the response given.
    Refuse(u16, SetupRequiredResponse),
}

/// The setup guard: a request goes on exactly if setup is complete, and is
/// refused with status 503 otherwise.
pub fn setup_guard(setup_state: &SetupState) -> (r: GuardDecision)
    ensures
        setup_state.ready() ==> r == GuardDecision::Proceed,
        !setup_state.ready() ==> r is Refuse && r->Refuse_0 == SETUP_PENDING_STATUS
            && r->Refuse_1.code@ == "AERO_SETUP_REQUIRED"@ && r->Refuse_1.error@
            == "SETUP_REQUIRED"@ && r->Refuse_1.setup_url@ == "/setup/status"@,
{
    if !setup_state.is_ready() {
        return GuardDecision::Refuse(SETUP_PENDING_STATUS, SetupRequiredResponse::new());
    }
    GuardDecision::Proceed
}

} // verus!
