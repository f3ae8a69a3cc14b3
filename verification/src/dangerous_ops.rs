//! Protection of destructive operations by two-phase confirmation.
//!
//! A destructive operation is first requested, which yields a confirmation
//! token bound to the operation, the resource, the requester and the time of
//! the request. It goes ahead only when the token is presented again within
//! five minutes and, for the most dangerous operations, a phrase is typed.
//! Every attempt is recorded, whatever its outcome.

use vstd::prelude::*;
use vstd::string::*;
use crate::ids::{random_uuid, uuid_text, uuid_to_string};
use crate::text::{lowercased, owned, same_text, to_lowercase, trim, trimmed};

verus! {

/// The lifetime of a confirmation token in milliseconds: five minutes.
pub const TOKEN_LIFETIME_MS: u64 = 300_000;

/// Types of dangerous operations that require confirmation.
#[derive(Debug, Clone, Copy, PartialEq, Eq, Structural)]
pub enum DangerousOperation {
    /// Delete all documents in a collection.
    TruncateCollection,
    /// Drop a collection entirely.
    DropCollection,
    /// Delete a schema.
    DeleteSchema,
    /// Force failover.
    ForceFailover,
    /// Reset the write-ahead log.
    ResetWal,
    /// Restore from backup, overwriting current data.
    RestoreBackup,
    /// Compact storage.
    CompactStorage,
    /// Delete all data.
    FactoryReset,
}

impl DangerousOperation {
    /// The description of the operation.
    pub open spec fn description_text(self) -> Seq<char> {
        match self {
            DangerousOperation::TruncateCollection => "Delete all documents in the collection"@,
            DangerousOperation::DropCollection => "Permanently delete the collection and all its data"@,
            DangerousOperation::DeleteSchema => "Delete the schema definition"@,
            DangerousOperation::ForceFailover => "Force a failover to a replica"@,
            DangerousOperation::ResetWal => "Reset the write-ahead log (may cause data loss)"@,
            DangerousOperation::RestoreBackup => "Restore from backup (overwrites all current data)"@,
            DangerousOperation::CompactStorage => "Compact storage files (requires brief downtime)"@,
            DangerousOperation::FactoryReset => "Delete all data and reset to factory state"@,
        }
    }

    /// The warning shown before confirmation.
    pub open spec fn warning_text(self) -> Seq<char> {
        match self {
            DangerousOperation::TruncateCollection => "WARNING: This will permanently delete ALL documents in this collection. This action cannot be undone."@,
            DangerousOperation::DropCollection => "WARNING: This will permanently delete the collection and all its data. This action cannot be undone."@,
            DangerousOperation::DeleteSchema => "WARNING: Deleting the schema will also delete all collections using this schema."@,
            DangerousOperation::ForceFailover => "WARNING: Force failover may cause brief unavailability. Ensure replicas are healthy."@,
            DangerousOperation::ResetWal => "DANGER: Resetting the WAL may cause data loss for un-checkpointed operations. Only use if WAL is corrupted."@,
            DangerousOperation::RestoreBackup => "WARNING: Restore will overwrite ALL current data with the backup contents. Current data will be lost."@,
            DangerousOperation::CompactStorage => "NOTE: Compaction requires brief downtime. Schedule during maintenance window."@,
            DangerousOperation::FactoryReset => "DANGER: This will permanently delete ALL data, including all collections, schemas, users, and settings. This action CANNOT be undone."@,
        }
    }

    /// Whether the operation needs a typed phrase on top of the token.
    pub open spec fn needs_phrase(self) -> bool {
        self == DangerousOperation::FactoryReset || self == DangerousOperation::ResetWal || self
            == DangerousOperation::DropCollection
    }

    /// The phrase to type for this operation on the resource named.
    pub open spec fn phrase_text(self, resource_name: Seq<char>) -> Seq<char> {
        match self {
            DangerousOperation::FactoryReset => "delete everything"@,
            DangerousOperation::ResetWal => "reset wal"@,
            DangerousOperation::DropCollection => "drop "@ + resource_name,
            _ => "confirm"@,
        }
    }

    /// The level at which the operation is logged.
    pub open spec fn log_level_text(self) -> Seq<char> {
        match self {
            DangerousOperation::FactoryReset | DangerousOperation::ResetWal => "CRITICAL"@,
            DangerousOperation::DropCollection
            | DangerousOperation::TruncateCollection
            | DangerousOperation::RestoreBackup => "WARNING"@,
            _ => "INFO"@,
        }
    }

    /// Human-readable description of the operation.
    pub fn description(&self) -> (r: &'static str)
        ensures
            r@ == self.description_text(),
    {
        match self {
            DangerousOperation::TruncateCollection => "Delete all documents in the collection",
            DangerousOperation::DropCollection => "Permanently delete the collection and all its data",
            DangerousOperation::DeleteSchema => "Delete the schema definition",
            DangerousOperation::ForceFailover => "Force a failover to a replica",
            DangerousOperation::ResetWal => "Reset the write-ahead log (may cause data loss)",
            DangerousOperation::RestoreBackup => "Restore from backup (overwrites all current data)",
            DangerousOperation::CompactStorage => "Compact storage files (requires brief downtime)",
            DangerousOperation::FactoryReset => "Delete all data and reset to factory state",
        }
    }

    /// Warning message shown before confirmation.
    pub fn warning(&self) -> (r: &'static str)
        ensures
            r@ == self.warning_text(),
    {
        match self {
            DangerousOperation::TruncateCollection => "WARNING: This will permanently delete ALL documents in this collection. This action cannot be undone.",
            DangerousOperation::DropCollection => "WARNING: This will permanently delete the collection and all its data. This action cannot be undone.",
            DangerousOperation::DeleteSchema => "WARNING: Deleting the schema will also delete all collections using this schema.",
            DangerousOperation::ForceFailover => "WARNING: Force failover may cause brief unavailability. Ensure replicas are healthy.",
            DangerousOperation::ResetWal => "DANGER: Resetting the WAL may cause data loss for un-checkpointed operations. Only use if WAL is corrupted.",
            DangerousOperation::RestoreBackup => "WARNING: Restore will overwrite ALL current data with the backup contents. Current data will be lost.",
            DangerousOperation::CompactStorage => "NOTE: Compaction requires brief downtime. Schedule during maintenance window.",
            DangerousOperation::FactoryReset => "DANGER: This will permanently delete ALL data, including all collections, schemas, users, and settings. This action CANNOT be undone.",
        }
    }

    /// Whether this operation requires typing a confirmation phrase.
    pub fn requires_type_confirm(&self) -> (r: bool)
        ensures
            r == self.needs_phrase(),
    {
        match self {
            DangerousOperation::FactoryReset => true,
            DangerousOperation::ResetWal => true,
            DangerousOperation::DropCollection => true,
            _ => false,
        }
    }

    /// The phrase to type for this operation on the resource named.
    pub fn confirm_phrase(&self, resource_name: &str) -> (r: String)
        ensures
            r@ == self.phrase_text(resource_name@),
    {
        match self {
            DangerousOperation::FactoryReset => owned("delete everything"),
            DangerousOperation::ResetWal => owned("reset wal"),
            DangerousOperation::DropCollection => {
                let mut out = owned("drop ");
                out.append(resource_name);
                out
            },
            _ => owned("confirm"),
        }
    }

    /// Log level for this operation.
    pub fn log_level(&self) -> (r: &'static str)
        ensures
            r@ == self.log_level_text(),
    {
        match self {
            DangerousOperation::FactoryReset => "CRITICAL",
            DangerousOperation::ResetWal => "CRITICAL",
            DangerousOperation::DropCollection => "WARNING",
            DangerousOperation::TruncateCollection => "WARNING",
            DangerousOperation::RestoreBackup => "WARNING",
            _ => "INFO",
        }
    }
}

/// Whether a token created at `created_at_ms` has expired at `now_ms` for a
/// lifetime of `lifetime_ms`: when more than the lifetime has passed, or when
/// the clock reads earlier than the creation.
pub open spec fn expired_at(created_at_ms: u64, now_ms: u64, lifetime_ms: u64) -> bool {
    now_ms < created_at_ms || now_ms - created_at_ms > lifetime_ms
}

/// Confirmation token for dangerous operations.
#[derive(Debug, Clone)]
pub struct ConfirmationToken {
    /// Operation being confirmed.
    pub operation: DangerousOperation,
    /// Resource affected, such as a collection name.
    pub resource: String,
    /// Clock reading in milliseconds when the token was created.
    pub created_at_ms: u64,
    /// User who requested the operation.
    pub user_id: String,
    /// Random token for verification.
    pub token: String,
}

impl ConfirmationToken {
    /// A token with the given random part.
    pub fn with_token(
        operation: DangerousOperation,
        resource: String,
        user_id: String,
        now_ms: u64,
        token: String,
    ) -> (r: Self)
        ensures
            r.operation == operation,
            r.resource@ == resource@,
            r.user_id@ == user_id@,
            r.created_at_ms == now_ms,
            r.token@ == token@,
    {
        ConfirmationToken { operation, resource, created_at_ms: now_ms, user_id, token }
    }

    /// Create a new confirmation token whose random part is the text form of
    /// a fresh UUID.
    pub fn new(operation: DangerousOperation, resource: String, user_id: String, now_ms: u64) -> (r:
        Self)
        ensures
            r.operation == operation,
            r.resource@ == resource@,
            r.user_id@ == user_id@,
            r.created_at_ms == now_ms,
            exists|id: u128| r.token@ == uuid_text(id),
    {
        let id = random_uuid();
        let token = uuid_to_string(id);
        ConfirmationToken::with_token(operation, resource, user_id, now_ms, token)
    }

    /// Check if the token has expired at `now_ms`: five minutes after its
    /// creation.
    pub fn is_expired(&self, now_ms: u64) -> (r: bool)
        ensures
            r == expired_at(self.created_at_ms, now_ms, TOKEN_LIFETIME_MS),
    {
        self.is_expired_after(now_ms, TOKEN_LIFETIME_MS)
    }

    /// Check if the token has expired at `now_ms` for the given lifetime.
    pub fn is_expired_after(&self, now_ms: u64, lifetime_ms: u64) -> (r: bool)
        ensures
            r == expired_at(self.created_at_ms, now_ms, lifetime_ms),
    {
        if now_ms < self.created_at_ms {
            true
        } else {
            now_ms - self.created_at_ms > lifetime_ms
        }
    }
}

/// Result of a confirmation check.
#[derive(Debug, Clone, PartialEq, Eq)]
pub enum ConfirmationResult {
    /// Confirmation is valid, proceed.
    Confirmed,
    /// Token expired.
    Expired,
    /// Token doesn't match.
    InvalidToken,
    /// Typed phrase doesn't match.
    PhraseNotMatch { expected: String },
    /// Confirmation required but not provided.
    NotProvided { warning: String },
}

/// The kind of a confirmation result, as recorded in the audit trail.
#[derive(Debug, Clone, Copy, PartialEq, Eq, Structural)]
pub enum ConfirmationOutcome {
    Confirmed,
    Expired,
    InvalidToken,
    PhraseNotMatch,
    NotProvided,
}

impl ConfirmationResult {
    /// The kind of this result.
    pub open spec fn spec_outcome(self) -> ConfirmationOutcome {
        match self {
            ConfirmationResult::Confirmed => ConfirmationOutcome::Confirmed,
            ConfirmationResult::Expired => ConfirmationOutcome::Expired,
            ConfirmationResult::InvalidToken => ConfirmationOutcome::InvalidToken,
            ConfirmationResult::PhraseNotMatch { .. } => ConfirmationOutcome::PhraseNotMatch,
            ConfirmationResult::NotProvided { .. } => ConfirmationOutcome::NotProvided,
        }
    }

    /// The stable code of a refusal; nothing for a confirmation.
    pub open spec fn code_text(self) -> Option<Seq<char>> {
        match self {
            ConfirmationResult::Confirmed => None,
            ConfirmationResult::Expired => Some("AERO_CONFIRM_EXPIRED"@),
            ConfirmationResult::InvalidToken => Some("AERO_CONFIRM_INVALID"@),
            ConfirmationResult::PhraseNotMatch { .. } => Some("AERO_CONFIRM_PHRASE_MISMATCH"@),
            ConfirmationResult::NotProvided { .. } => Some("AERO_CONFIRM_REQUIRED"@),
        }
    }

    /// The kind of this result.
    pub fn outcome(&self) -> (r: ConfirmationOutcome)
        ensures
            r == self.spec_outcome(),
    {
        match self {
            ConfirmationResult::Confirmed => ConfirmationOutcome::Confirmed,
            ConfirmationResult::Expired => ConfirmationOutcome::Expired,
            ConfirmationResult::InvalidToken => ConfirmationOutcome::InvalidToken,
            ConfirmationResult::PhraseNotMatch { .. } => ConfirmationOutcome::PhraseNotMatch,
            ConfirmationResult::NotProvided { .. } => ConfirmationOutcome::NotProvided,
        }
    }

    /// The stable code of a refusal; `None` for a confirmation.
    pub fn code(&self) -> (r: Option<&'static str>)
        ensures
            r is Some == self.code_text() is Some,
            r is Some ==> r->0@ == self.code_text()->0,
    {
        match self {
            ConfirmationResult::Confirmed => None,
            ConfirmationResult::Expired => Some("AERO_CONFIRM_EXPIRED"),
            ConfirmationResult::InvalidToken => Some("AERO_CONFIRM_INVALID"),
            ConfirmationResult::PhraseNotMatch { .. } => Some("AERO_CONFIRM_PHRASE_MISMATCH"),
            ConfirmationResult::NotProvided { .. } => Some("AERO_CONFIRM_REQUIRED"),
        }
    }
}

/// Whether a presented token is the one issued for this operation on this
/// resource.
pub open spec fn token_matches(
    operation: DangerousOperation,
    resource: Seq<char>,
    issued: Seq<char>,
    token: ConfirmationToken,
) -> bool {
    token.operation == operation && token.resource@ == resource && token.token@ == issued
}

/// The result of presenting `token` at `now_ms`, before any phrase is looked
/// at.
pub open spec fn token_outcome(
    operation: DangerousOperation,
    resource: Seq<char>,
    issued: Seq<char>,
    token: ConfirmationToken,
    now_ms: u64,
) -> ConfirmationOutcome {
    if expired_at(token.created_at_ms, now_ms, TOKEN_LIFETIME_MS) {
        ConfirmationOutcome::Expired
    } else if !token_matches(operation, resource, issued, token) {
        ConfirmationOutcome::InvalidToken
    } else {
        ConfirmationOutcome::Confirmed
    }
}

/// The result of presenting `token` at `now_ms` without a phrase: a right
/// token confirms an operation that needs no phrase; for one that needs a
/// phrase, the confirmation is not provided.
pub open spec fn plain_outcome(
    operation: DangerousOperation,
    resource: Seq<char>,
    issued: Seq<char>,
    token: ConfirmationToken,
    now_ms: u64,
) -> ConfirmationOutcome {
    let first = token_outcome(operation, resource, issued, token, now_ms);
    if first != ConfirmationOutcome::Confirmed {
        first
    } else if operation.needs_phrase() {
        ConfirmationOutcome::NotProvided
    } else {
        ConfirmationOutcome::Confirmed
    }
}

/// The result of presenting `token` at `now_ms` together with a phrase, given
/// whether the phrase is the expected one.
pub open spec fn phrase_outcome(
    operation: DangerousOperation,
    resource: Seq<char>,
    issued: Seq<char>,
    token: ConfirmationToken,
    now_ms: u64,
    phrase_is_right: bool,
) -> ConfirmationOutcome {
    let first = token_outcome(operation, resource, issued, token, now_ms);
    if first != ConfirmationOutcome::Confirmed {
        first
    } else if operation.needs_phrase() && !phrase_is_right {
        ConfirmationOutcome::PhraseNotMatch
    } else {
        ConfirmationOutcome::Confirmed
    }
}

/// Dangerous operation guard.
#[derive(Debug)]
pub struct DangerousOperationGuard {
    operation: DangerousOperation,
    resource: String,
    user_id: String,
    issued_token: String,
    confirmed: bool,
    attempts: Vec<ConfirmationOutcome>,
}

impl DangerousOperationGuard {
    /// The guarded operation.
    pub closed spec fn spec_operation(&self) -> DangerousOperation {
        self.operation
    }

    /// The resource that the operation is to act on.
    pub closed spec fn spec_resource(&self) -> Seq<char> {
        self.resource@
    }

    /// The requester.
    pub closed spec fn spec_user_id(&self) -> Seq<char> {
        self.user_id@
    }

    /// The random part of the token that was issued with this guard.
    pub closed spec fn issued(&self) -> Seq<char> {
        self.issued_token@
    }

    /// Whether the operation is confirmed.
    pub closed spec fn confirmed(&self) -> bool {
        self.confirmed
    }

    /// The outcomes of all confirmation attempts so far, oldest first.
    pub closed spec fn trail(&self) -> Seq<ConfirmationOutcome> {
        self.attempts@
    }

    /// Operation, resource, requester and issued token are the same in both.
    pub open spec fn same_binding(&self, other: &Self) -> bool {
        &&& self.spec_operation() == other.spec_operation()
        &&& self.spec_resource() == other.spec_resource()
        &&& self.spec_user_id() == other.spec_user_id()
        &&& self.issued() == other.issued()
    }

    /// A guard bound to the token given, not yet confirmed.
    pub fn for_token(token: &ConfirmationToken) -> (r: Self)
        ensures
            r.spec_operation() == token.operation,
            r.spec_resource() == token.resource@,
            r.spec_user_id() == token.user_id@,
            r.issued() == token.token@,
            !r.confirmed(),
            r.trail() == Seq::<ConfirmationOutcome>::empty(),
    {
        DangerousOperationGuard {
            operation: token.operation,
            resource: token.resource.clone(),
            user_id: token.user_id.clone(),
            issued_token: token.token.clone(),
            confirmed: false,
            attempts: Vec::new(),
        }
    }

    /// Create a new guard for a dangerous operation, with the confirmation
    /// token that has to be presented to confirm it.
    pub fn new(operation: DangerousOperation, resource: String, user_id: String, now_ms: u64) -> (r:
        (Self, ConfirmationToken))
        ensures
            r.0.spec_operation() == operation,
            r.0.spec_resource() == resource@,
            r.0.spec_user_id() == user_id@,
            r.0.issued() == r.1.token@,
            !r.0.confirmed(),
            r.0.trail() == Seq::<ConfirmationOutcome>::empty(),
            r.1.operation == operation,
            r.1.resource@ == resource@,
            r.1.user_id@ == user_id@,
            r.1.created_at_ms == now_ms,
            exists|id: u128| r.1.token@ == uuid_text(id),
    {
        let token = ConfirmationToken::new(operation, resource, user_id, now_ms);
        let guard = DangerousOperationGuard::for_token(&token);
        (guard, token)
    }

    /// Presents the token at `now_ms`, without a phrase. The operation is
    /// confirmed when the token has not expired, is the one issued for this
    /// operation on this resource, and the operation needs no typed phrase.
    /// For an operation that needs a phrase the token alone confirms
    /// nothing: the confirmation is reported as not provided, with the
    /// operation's warning, and the guard stays as it is. The attempt is
    /// recorded whatever its outcome.
    pub fn confirm(&mut self, token: &ConfirmationToken, now_ms: u64) -> (r: ConfirmationResult)
        ensures
            final(self).same_binding(old(self)),
            r.spec_outcome() == plain_outcome(
                old(self).spec_operation(),
                old(self).spec_resource(),
                old(self).issued(),
                *token,
                now_ms,
            ),
            r is NotProvided ==> r->warning@ == old(self).spec_operation().warning_text(),
            final(self).confirmed() == (old(self).confirmed() || r is Confirmed),
            final(self).trail() == old(self).trail().push(r.spec_outcome()),
    {
        let first = self.check_token(token, now_ms);
        let r = match first {
            ConfirmationResult::Confirmed => {
                if self.operation.requires_type_confirm() {
                    ConfirmationResult::NotProvided { warning: owned(self.operation.warning()) }
                } else {
                    self.confirmed = true;
                    ConfirmationResult::Confirmed
                }
            },
            other => other,
        };
        self.attempts.push(r.outcome());
        r
    }

    fn check_token(&self, token: &ConfirmationToken, now_ms: u64) -> (r: ConfirmationResult)
        ensures
            r.spec_outcome() == token_outcome(
                self.spec_operation(),
                self.spec_resource(),
                self.issued(),
                *token,
                now_ms,
            ),
            r is Confirmed || r is Expired || r is InvalidToken,
    {
        if token.is_expired(now_ms) {
            return ConfirmationResult::Expired;
        }
        if token.operation != self.operation || token.resource != self.resource || token.token
            != self.issued_token {
            return ConfirmationResult::InvalidToken;
        }
        ConfirmationResult::Confirmed
    }

    /// Presents the token at `now_ms` together with a phrase, where
    /// `phrase_is_right` says whether the phrase is the expected one. A right
    /// token confirms the operation unless the operation needs a phrase and
    /// the phrase is wrong: then the confirmation is withdrawn and the
    /// expected phrase reported. The attempt is recorded whatever its
    /// outcome.
    pub fn confirm_with_checked_phrase(
        &mut self,
        token: &ConfirmationToken,
        phrase_is_right: bool,
        now_ms: u64,
    ) -> (r: ConfirmationResult)
        ensures
            final(self).same_binding(old(self)),
            r.spec_outcome() == phrase_outcome(
                old(self).spec_operation(),
                old(self).spec_resource(),
                old(self).issued(),
                *token,
                now_ms,
                phrase_is_right,
            ),
            r is PhraseNotMatch ==> r->expected@ == old(self).spec_operation().phrase_text(
                old(self).spec_resource(),
            ),
            final(self).confirmed() == (if r is PhraseNotMatch {
                false
            } else {
                old(self).confirmed() || r is Confirmed
            }),
            final(self).trail() == old(self).trail().push(r.spec_outcome()),
    {
        let first = self.check_token(token, now_ms);
        let r = match first {
            ConfirmationResult::Confirmed => {
                if self.operation.requires_type_confirm() && !phrase_is_right {
                    self.confirmed = false;
                    let expected = self.operation.confirm_phrase(self.resource.as_str());
                    ConfirmationResult::PhraseNotMatch { expected }
                } else {
                    self.confirmed = true;
                    ConfirmationResult::Confirmed
                }
            },
            other => other,
        };
        self.attempts.push(r.outcome());
        r
    }

    /// Whether `phrase` is the phrase expected for this guard's operation:
    /// the two are compared without surrounding white space in the phrase and
    /// without regard to case.
    pub fn phrase_is_right(&self, phrase: &str) -> (r: bool)
        ensures
            r == (lowercased(trimmed(phrase@)) == lowercased(
                self.spec_operation().phrase_text(self.spec_resource()),
            )),
    {
        let expected = self.operation.confirm_phrase(self.resource.as_str());
        let typed = to_lowercase(trim(phrase));
        let wanted = to_lowercase(expected.as_str());
        same_text(typed.as_str(), wanted.as_str())
    }

    /// Confirm with typed phrase, for operations requiring it. The phrase is
    /// compared as `phrase_is_right` says; the rest is as
    /// `confirm_with_checked_phrase`.
    pub fn confirm_with_phrase(&mut self, token: &ConfirmationToken, phrase: &str, now_ms: u64) -> (r:
        ConfirmationResult)
        ensures
            final(self).same_binding(old(self)),
            r.spec_outcome() == phrase_outcome(
                old(self).spec_operation(),
                old(self).spec_resource(),
                old(self).issued(),
                *token,
                now_ms,
                lowercased(trimmed(phrase@)) == lowercased(
                    old(self).spec_operation().phrase_text(old(self).spec_resource()),
                ),
            ),
            r is PhraseNotMatch ==> r->expected@ == old(self).spec_operation().phrase_text(
                old(self).spec_resource(),
            ),
            final(self).confirmed() == (if r is PhraseNotMatch {
                false
            } else {
                old(self).confirmed() || r is Confirmed
            }),
            final(self).trail() == old(self).trail().push(r.spec_outcome()),
    {
        let right = self.phrase_is_right(phrase);
        self.confirm_with_checked_phrase(token, right, now_ms)
    }

    /// Check if operation is confirmed.
    pub fn is_confirmed(&self) -> (r: bool)
        ensures
            r == self.confirmed(),
    {
        self.confirmed
    }

    /// Get the operation.
    pub fn operation(&self) -> (r: DangerousOperation)
        ensures
            r == self.spec_operation(),
    {
        self.operation
    }

    /// Get the resource.
    pub fn resource(&self) -> (r: &str)
        ensures
            r@ == self.spec_resource(),
    {
        self.resource.as_str()
    }

    /// The outcomes of all confirmation attempts so far, oldest first.
    pub fn audit_trail(&self) -> (r: &Vec<ConfirmationOutcome>)
        ensures
            r@ == self.trail(),
    {
        &self.attempts
    }
}

} // verus!
