//! Magic links: passwordless sign-in by a link sent to an e-mail address.

use vstd::prelude::*;
use vstd::string::*;
use crate::auth::errors::{AuthError, AuthResult};
use crate::auth::mfa::{hex_encode, hex_text, sha256, sha256_digest};
use crate::auth::user::{first_with_email, first_with_id, User, UserRepository};
use crate::ids::{random_bytes, random_uuid};
use crate::text::{
    chars_of,
    lowercased,
    owned,
    same_text,
    to_lowercase,
    url_encode,
    url_encoded,
};

verus! {

/// Magic link configuration.
#[derive(Debug, Clone, PartialEq, Eq)]
pub struct MagicLinkConfig {
    /// Minutes until a link expires.
    pub expiration_minutes: i64,
    /// The base of the links.
    pub base_url: String,
    /// The subject of the e-mail.
    pub email_subject: String,
    /// Links that one address may ask for in an hour.
    pub rate_limit: u32,
}

impl Default for MagicLinkConfig {
    fn default() -> (r: Self)
        ensures
            r.expiration_minutes == 15,
            r.base_url@ == "http://localhost:3000"@,
            r.email_subject@ == "Your login link"@,
            r.rate_limit == 5,
    {
        MagicLinkConfig {
            expiration_minutes: 15,
            base_url: owned("http://localhost:3000"),
            email_subject: owned("Your login link"),
            rate_limit: 5,
        }
    }
}

/// Events of authentication that hooks can listen to.
#[derive(Debug, Clone, Copy, PartialEq, Eq, Structural)]
pub enum AuthEvent {
    UserSignedUp,
    UserSignedIn,
    UserSignedOut,
    PasswordChanged,
    PasswordReset,
    EmailVerified,
    MfaEnrolled,
    MfaVerified,
    OAuthLinked,
    OAuthUnlinked,
}

/// The number of `@` in a text.
pub open spec fn count_at_signs(s: Seq<char>) -> nat
    decreases s.len(),
{
    if s.len() == 0 {
        0
    } else {
        count_at_signs(s.drop_last()) + if s.last() == '@' {
            1nat
        } else {
            0nat
        }
    }
}

/// Whether `s` holds a dot after position `at`.
pub open spec fn has_dot_after(s: Seq<char>, at: int) -> bool {
    exists|dot: int| at < dot < s.len() && #[trigger] s[dot] == '.'
}

/// Whether the `@` at position `at` splits `s` into a local part that is not
/// empty and a domain that holds a dot but neither starts nor ends with one.
pub open spec fn splits_as_email(s: Seq<char>, at: int) -> bool {
    &&& 0 < at < s.len() - 1
    &&& s[at] == '@'
    &&& s[at + 1] != '.'
    &&& s.last() != '.'
    &&& has_dot_after(s, at)
}

/// Whether a text has the form of an e-mail address: exactly one `@`, with
/// something before it and, after it, a domain that holds a dot but neither
/// starts nor ends with one.
pub open spec fn is_email(s: Seq<char>) -> bool {
    count_at_signs(s) == 1 && exists|at: int| splits_as_email(s, at)
}

/// Whether a text has the form of an e-mail address.
pub fn is_valid_email(email: &str) -> (r: bool)
    ensures
        r == is_email(email@),
{
    let s = chars_of(email);
    let mut count: usize = 0;
    let mut at: usize = 0;
    let mut i: usize = 0;
    assert(s@.take(0) =~= Seq::<char>::empty());
    while i < s.len()
        invariant
            i <= s@.len(),
            count == count_at_signs(s@.take(i as int)),
            count <= i,
            count > 0 ==> at < i && s@[at as int] == '@',
            count == 0 ==> forall|k: int| 0 <= k < i ==> s@[k] != '@',
            count == 1 ==> forall|k: int| 0 <= k < i && s@[k] == '@' ==> k == at,
        decreases s@.len() - i,
    {
        proof {
            let next = s@.take(i + 1);
            assert(next.drop_last() =~= s@.take(i as int));
            assert(next.last() == s@[i as int]);
        }
        if s[i] == '@' {
            count = count + 1;
            at = i;
        }
        i = i + 1;
    }
    assert(s@.take(s@.len() as int) =~= s@);
    if count != 1 {
        return false;
    }
    assert forall|a: int| splits_as_email(s@, a) implies a == at by {}
    if at == 0 || at + 1 >= s.len() {
        return false;
    }
    if s[at + 1] == '.' || s[s.len() - 1] == '.' {
        return false;
    }
    let mut dot: usize = at + 1;
    while dot < s.len()
        invariant
            at < dot <= s@.len(),
            0 < at < s@.len() - 1,
            s@[at as int] == '@',
            s@[at + 1] != '.',
            s@.last() != '.',
            count_at_signs(s@) == 1,
            s@ == email@,
            forall|a: int| splits_as_email(s@, a) ==> a == at,
            forall|k: int| at < k < dot ==> s@[k] != '.',
        decreases s@.len() - dot,
    {
        if s[dot] == '.' {
            assert(has_dot_after(s@, at as int));
            assert(splits_as_email(s@, at as int));
            return true;
        }
        dot = dot + 1;
    }
    assert(!has_dot_after(s@, at as int));
    false
}

/// The link that is sent: the base, the path of verification and the token,
/// percent-encoded.
pub fn magic_link_url(base_url: &str, raw_token: &str) -> (r: String)
    ensures
        r@ == base_url@ + "/auth/verify?token="@ + url_encoded(raw_token@),
{
    let mut out = owned(base_url);
    out.append("/auth/verify?token=");
    let token = url_encode(raw_token);
    out.append(token.as_str());
    out
}

/// The count of links that an address has asked for since the start of a
/// window. Times are seconds since the epoch.
#[derive(Debug, Clone, Copy, PartialEq, Eq, Structural)]
pub struct RateLimitEntry {
    pub count: u32,
    pub window_start_secs: i64,
}

/// Seconds in the window of the rate limit.
pub const RATE_WINDOW_SECS: i64 = 3600;

/// Whether an address may ask for another link at `now_secs`: it may not
/// when its window started less than an hour ago and its count has reached
/// the limit.
pub fn check_rate_limit(entry: Option<RateLimitEntry>, rate_limit: u32, now_secs: i64) -> (r:
    AuthResult<()>)
    ensures
        match entry {
            Some(e) => if e.window_start_secs > now_secs - RATE_WINDOW_SECS && e.count
                >= rate_limit {
                r is Err && r->Err_0 is RateLimitExceeded && r->Err_0->RateLimitExceeded_0@
                    == "Too many login attempts. Please try again later."@
            } else {
                r is Ok
            },
            None => r is Ok,
        },
{
    match entry {
        Some(e) => {
            let recent = (e.window_start_secs as i128) > (now_secs as i128) - (
            RATE_WINDOW_SECS as i128);
            if recent && e.count >= rate_limit {
                return Err(
                    AuthError::RateLimitExceeded(
                        owned("Too many login attempts. Please try again later."),
                    ),
                );
            }
            Ok(())
        },
        None => Ok(()),
    }
}

/// The entry after an address has asked for a link at `now_secs`: a window
/// that started more than an hour ago starts anew with a count of one; else
/// the count goes up by one, and stays at its maximum once it is reached.
pub fn update_rate_limit(entry: Option<RateLimitEntry>, now_secs: i64) -> (r: RateLimitEntry)
    ensures
        match entry {
            None => r == (RateLimitEntry { count: 1, window_start_secs: now_secs }),
            Some(e) => if e.window_start_secs < now_secs - RATE_WINDOW_SECS {
                r == (RateLimitEntry { count: 1, window_start_secs: now_secs })
            } else {
                r == (RateLimitEntry {
                    count: if e.count == u32::MAX {
                        u32::MAX
                    } else {
                        (e.count + 1) as u32
                    },
                    window_start_secs: e.window_start_secs,
                })
            },
        },
{
    match entry {
        None => RateLimitEntry { count: 1, window_start_secs: now_secs },
        Some(e) => {
            let stale = (e.window_start_secs as i128) < (now_secs as i128) - (
            RATE_WINDOW_SECS as i128);
            if stale {
                RateLimitEntry { count: 1, window_start_secs: now_secs }
            } else {
                RateLimitEntry {
                    count: if e.count == u32::MAX {
                        u32::MAX
                    } else {
                        e.count + 1
                    },
                    window_start_secs: e.window_start_secs,
                }
            }
        },
    }
}

/// The form in which a token is kept: the hexadecimal digits of the SHA-256
/// of its bytes.
pub open spec fn token_hash_text(token: Seq<char>) -> Seq<char> {
    hex_text(sha256_digest(vstd::utf8::encode_utf8(token)))
}

/// Hash a token for storage.
pub fn hash_token(token: &str) -> (r: String)
    ensures
        r@ == token_hash_text(token@),
{
    let digest = sha256(token.as_bytes());
    hex_encode(digest.as_slice())
}

/// A fresh random token: the hexadecimal digits of 32 random bytes.
pub fn generate_token() -> (r: String)
    ensures
        exists|bytes: Seq<u8>| bytes.len() == 32 && r@ == hex_text(bytes),
{
    let bytes = random_bytes(32);
    hex_encode(bytes.as_slice())
}

/// A magic link that was sent and waits to be followed. The token itself is
/// not kept, only its hash. Times are seconds since the epoch.
#[derive(Debug, Clone, PartialEq, Eq)]
pub struct MagicLinkToken {
    /// The hash of the token.
    pub token_hash: String,
    /// The user, if the address belongs to one already.
    pub user_id: Option<u128>,
    /// The address that asked.
    pub email: String,
    /// Where to go after login.
    pub redirect_to: Option<String>,
    /// When the link expires.
    pub expires_at_secs: i64,
    /// Whether following the link makes a new user.
    pub is_signup: bool,
}

/// The requests that a key has made, the key being an address in lower
/// case.
#[derive(Debug, Clone, PartialEq, Eq)]
pub struct RateLimitRecord {
    pub key: String,
    pub entry: RateLimitEntry,
}

/// The e-mail to send for a magic link.
#[derive(Debug, Clone, PartialEq, Eq)]
pub struct MagicLinkMail {
    pub link: String,
    pub user_email: String,
    pub expires_minutes: i64,
}

/// The time at which a link expires that is asked for at `now_secs` and
/// lasts for the minutes given, held within the range of times.
pub open spec fn expiry_of(now_secs: i64, minutes: i64) -> i64 {
    let at = now_secs + minutes * 60;
    if at > i64::MAX {
        i64::MAX
    } else if at < i64::MIN {
        i64::MIN
    } else {
        at as i64
    }
}

/// The time at which a link expires.
pub fn expiry(now_secs: i64, minutes: i64) -> (r: i64)
    ensures
        r == expiry_of(now_secs, minutes),
{
    let at: i128 = (now_secs as i128) + (minutes as i128) * 60;
    if at > i64::MAX as i128 {
        i64::MAX
    } else if at < i64::MIN as i128 {
        i64::MIN
    } else {
        at as i64
    }
}

/// The milliseconds of a time in seconds, held within the range of times.
pub open spec fn millis_of(secs: i64) -> i64 {
    if secs * 1000 > i64::MAX {
        i64::MAX
    } else if secs * 1000 < i64::MIN {
        i64::MIN
    } else {
        (secs * 1000) as i64
    }
}

/// The milliseconds of a time in seconds.
pub fn millis(secs: i64) -> (r: i64)
    ensures
        r == millis_of(secs),
{
    let ms: i128 = (secs as i128) * 1000;
    if ms > i64::MAX as i128 {
        i64::MAX
    } else if ms < i64::MIN as i128 {
        i64::MIN
    } else {
        ms as i64
    }
}

/// The entry of a key, if it has one: that of the first record with the
/// key.
pub open spec fn limit_of(records: Seq<RateLimitRecord>, key: Seq<char>) -> Option<RateLimitEntry>
    decreases records.len(),
{
    if records.len() == 0 {
        None
    } else if records[0].key@ == key {
        Some(records[0].entry)
    } else {
        limit_of(records.drop_first(), key)
    }
}

/// The links without those of an address and without the one with a hash.
pub open spec fn without_address(tokens: Seq<MagicLinkToken>, email: Seq<char>, hash: Seq<char>)
    -> Seq<MagicLinkToken> {
    tokens.filter(|t: MagicLinkToken| t.email@ != email && t.token_hash@ != hash)
}

/// The links that have not expired at `now_secs`.
pub open spec fn unexpired(tokens: Seq<MagicLinkToken>, now_secs: i64) -> Seq<MagicLinkToken> {
    tokens.filter(|t: MagicLinkToken| t.expires_at_secs > now_secs)
}

/// The position of the first link with a hash, if there is one.
pub open spec fn token_position(tokens: Seq<MagicLinkToken>, hash: Seq<char>) -> Option<int>
    decreases tokens.len(),
{
    if tokens.len() == 0 {
        None
    } else {
        match token_position(tokens.drop_last(), hash) {
            Some(i) => Some(i),
            None => if tokens.last().token_hash@ == hash {
                Some(tokens.len() - 1)
            } else {
                None
            },
        }
    }
}

proof fn lemma_token_position(tokens: Seq<MagicLinkToken>, hash: Seq<char>)
    ensures
        match token_position(tokens, hash) {
            Some(i) => 0 <= i < tokens.len() && tokens[i].token_hash@ == hash,
            None => true,
        },
    decreases tokens.len(),
{
    if tokens.len() > 0 {
        lemma_token_position(tokens.drop_last(), hash);
    }
}

proof fn lemma_token_position_persists(tokens: Seq<MagicLinkToken>, hash: Seq<char>, n: int)
    requires
        0 <= n <= tokens.len(),
        token_position(tokens.take(n), hash) is Some,
    ensures
        token_position(tokens, hash) == token_position(tokens.take(n), hash),
    decreases tokens.len() - n,
{
    if n == tokens.len() {
        assert(tokens.take(n) =~= tokens);
    } else {
        assert(tokens.take(n + 1).drop_last() =~= tokens.take(n));
        lemma_token_position_persists(tokens, hash, n + 1);
    }
}

fn copy_text(text: &Option<String>) -> (r: Option<String>)
    ensures
        r == *text,
{
    match text {
        Some(s) => Some(s.clone()),
        None => None,
    }
}

fn copy_token(token: &MagicLinkToken) -> (r: MagicLinkToken)
    ensures
        r == *token,
{
    MagicLinkToken {
        token_hash: token.token_hash.clone(),
        user_id: token.user_id,
        email: token.email.clone(),
        redirect_to: copy_text(&token.redirect_to),
        expires_at_secs: token.expires_at_secs,
        is_signup: token.is_signup,
    }
}

/// Why a request for a link is refused before anything is looked up, if it
/// is: the address has used up its rate limit, or it is no e-mail address.
pub open spec fn request_fault(
    limit: Option<RateLimitEntry>,
    rate_limit: u32,
    email: Seq<char>,
    now_secs: i64,
) -> Option<AuthFault> {
    if limit is Some && limit->Some_0.window_start_secs > now_secs - RATE_WINDOW_SECS
        && limit->Some_0.count >= rate_limit {
        Some(AuthFault::RateLimited)
    } else if !is_email(email) {
        Some(AuthFault::InvalidEmail)
    } else {
        None
    }
}

/// The ways in which a request for a link is refused.
#[derive(Debug, Clone, Copy, PartialEq, Eq)]
pub enum AuthFault {
    /// Too many requests in the hour.
    RateLimited,
    /// The address is no e-mail address.
    InvalidEmail,
}

/// Whether an error reports a fault.
pub open spec fn reports(e: AuthError, fault: AuthFault) -> bool {
    match fault {
        AuthFault::RateLimited => e is RateLimitExceeded && e->RateLimitExceeded_0@
            == "Too many login attempts. Please try again later."@,
        AuthFault::InvalidEmail => e is ValidationError && e->ValidationError_0@
            == "Invalid email format"@,
    }
}

/// Magic link authentication service.
pub struct MagicLinkService<U: UserRepository> {
    config: MagicLinkConfig,
    user_repo: U,
    tokens: Vec<MagicLinkToken>,
    rate_limits: Vec<RateLimitRecord>,
}

impl<U: UserRepository> MagicLinkService<U> {
    /// The configuration.
    pub closed spec fn settings(&self) -> MagicLinkConfig {
        self.config
    }

    /// The links that wait to be followed.
    pub closed spec fn waiting(&self) -> Seq<MagicLinkToken> {
        self.tokens@
    }

    /// The requests counted, by address in lower case.
    pub closed spec fn limits(&self) -> Seq<RateLimitRecord> {
        self.rate_limits@
    }

    /// The users.
    pub closed spec fn users(&self) -> U {
        self.user_repo
    }

    /// A service without links and without counted requests.
    pub fn new(config: MagicLinkConfig, user_repo: U) -> (r: Self)
        ensures
            r.settings() == config,
            r.users() == user_repo,
            r.waiting() == Seq::<MagicLinkToken>::empty(),
            r.limits() == Seq::<RateLimitRecord>::empty(),
    {
        MagicLinkService { config, user_repo, tokens: Vec::new(), rate_limits: Vec::new() }
    }

    /// The users.
    pub fn user_repo(&self) -> (r: &U)
        ensures
            *r == self.users(),
    {
        &self.user_repo
    }

    /// The number of links that wait to be followed.
    pub fn pending_count(&self) -> (r: usize)
        ensures
            r == self.waiting().len(),
    {
        self.tokens.len()
    }

    fn limit_position(&self, key: &str) -> (r: Option<usize>)
        ensures
            match r {
                Some(i) => i < self.limits().len() && self.limits()[i as int].key@ == key@
                    && limit_of(self.limits(), key@) == Some(self.limits()[i as int].entry)
                    && forall|j: int| 0 <= j < i ==> (#[trigger] self.limits()[j]).key@ != key@,
                None => limit_of(self.limits(), key@) is None,
            },
    {
        let mut i: usize = 0;
        assert(self.rate_limits@.skip(0) =~= self.rate_limits@);
        while i < self.rate_limits.len()
            invariant
                i <= self.rate_limits@.len(),
                forall|j: int| 0 <= j < i ==> (#[trigger] self.rate_limits@[j]).key@ != key@,
                limit_of(self.rate_limits@, key@) == limit_of(
                    self.rate_limits@.skip(i as int),
                    key@,
                ),
            decreases self.rate_limits@.len() - i,
        {
            proof {
                let rest = self.rate_limits@.skip(i as int);
                assert(rest[0] == self.rate_limits@[i as int]);
                assert(rest.drop_first() =~= self.rate_limits@.skip(i + 1));
            }
            if same_text(self.rate_limits[i].key.as_str(), key) {
                return Some(i);
            }
            i = i + 1;
        }
        None
    }

    /// Why a request of an address at `now_secs` is refused before anything
    /// is looked up, if it is.
    pub open spec fn fault_of(&self, email: Seq<char>, now_secs: i64) -> Option<AuthFault> {
        request_fault(
            limit_of(self.limits(), lowercased(email)),
            self.settings().rate_limit,
            email,
            now_secs,
        )
    }

    /// Check a request for a link: the rate limit of the address first, then
    /// its form.
    pub fn check_request(&self, email: &str, now_secs: i64) -> (r: AuthResult<()>)
        ensures
            match self.fault_of(email@, now_secs) {
                Some(fault) => r is Err && reports(r->Err_0, fault),
                None => r is Ok,
            },
    {
        let key = to_lowercase(email);
        let entry = match self.limit_position(key.as_str()) {
            Some(i) => Some(self.rate_limits[i].entry),
            None => None,
        };
        match check_rate_limit(entry, self.config.rate_limit, now_secs) {
            Err(e) => {
                return Err(e);
            },
            Ok(_) => {},
        }
        if !is_valid_email(email) {
            return Err(AuthError::ValidationError(owned("Invalid email format")));
        }
        Ok(())
    }

    fn count_request(&mut self, email: &str, now_secs: i64)
        ensures
            final(self).settings() == old(self).settings(),
            final(self).users() == old(self).users(),
            final(self).waiting() == old(self).waiting(),
            limit_of(final(self).limits(), lowercased(email@)) == Some(
                counted_entry(limit_of(old(self).limits(), lowercased(email@)), now_secs),
            ),
            final(self).limits().len() >= old(self).limits().len(),
    {
        let key = to_lowercase(email);
        match self.limit_position(key.as_str()) {
            Some(i) => {
                let entry = update_rate_limit(Some(self.rate_limits[i].entry), now_secs);
                let ghost before = self.rate_limits@;
                self.rate_limits.set(i, RateLimitRecord { key, entry });
                proof {
                    lemma_limit_after_set(before, self.rate_limits@, key@, i as int);
                }
            },
            None => {
                let entry = update_rate_limit(None, now_secs);
                let ghost before = self.rate_limits@;
                self.rate_limits.push(RateLimitRecord { key, entry });
                proof {
                    lemma_limit_after_push(before, self.rate_limits@.last());
                }
            },
        }
    }

    /// Whether `self` is what follows `before` once a link for `email` with
    /// the token `raw_token` was issued at `now_secs`, `existing` being the
    /// user of the address, and `mail` the e-mail to send: the links of the
    /// address are replaced by the new one, which expires after the
    /// configured minutes; the request is counted; the e-mail holds the link
    /// with the token.
    pub open spec fn issued(
        &self,
        before: &Self,
        email: Seq<char>,
        redirect_to: Option<String>,
        raw_token: Seq<char>,
        existing: Option<u128>,
        now_secs: i64,
        mail: MagicLinkMail,
    ) -> bool {
        let hash = token_hash_text(raw_token);
        &&& self.settings() == before.settings()
        &&& self.waiting().len() == without_address(before.waiting(), email, hash).len() + 1
        &&& self.waiting().drop_last() == without_address(before.waiting(), email, hash)
        &&& self.waiting().last().token_hash@ == hash
        &&& self.waiting().last().user_id == existing
        &&& self.waiting().last().email@ == email
        &&& self.waiting().last().redirect_to == redirect_to
        &&& self.waiting().last().expires_at_secs == expiry_of(
            now_secs,
            before.settings().expiration_minutes,
        )
        &&& self.waiting().last().is_signup == (existing is None)
        &&& limit_of(self.limits(), lowercased(email)) == Some(
            counted_entry(limit_of(before.limits(), lowercased(email)), now_secs),
        )
        &&& mail.link@ == before.settings().base_url@ + "/auth/verify?token="@ + url_encoded(
            raw_token,
        )
        &&& mail.user_email@ == email
        &&& mail.expires_minutes == before.settings().expiration_minutes
    }

    /// Issue a link for an address whose user, if any, is known.
    pub fn issue(
        &mut self,
        email: &str,
        redirect_to: Option<String>,
        raw_token: &str,
        existing: Option<u128>,
        now_secs: i64,
    ) -> (r: MagicLinkMail)
        ensures
            final(self).users() == old(self).users(),
            final(self).issued(old(self), email@, redirect_to, raw_token@, existing, now_secs, r),
    {
        let token_hash = hash_token(raw_token);
        let entry = MagicLinkToken {
            token_hash: token_hash.clone(),
            user_id: existing,
            email: owned(email),
            redirect_to,
            expires_at_secs: expiry(now_secs, self.config.expiration_minutes),
            is_signup: existing.is_none(),
        };
        let mut kept: Vec<MagicLinkToken> = Vec::new();
        let mut i: usize = 0;
        proof {
            assert(self.tokens@.take(0) =~= Seq::<MagicLinkToken>::empty());
            reveal(Seq::filter);
        }
        while i < self.tokens.len()
            invariant
                i <= self.tokens@.len(),
                *self == *old(self),
                kept@ == without_address(self.tokens@.take(i as int), email@, token_hash@),
            decreases self.tokens@.len() - i,
        {
            proof {
                let next = self.tokens@.take(i + 1);
                assert(next.drop_last() =~= self.tokens@.take(i as int));
                assert(next.last() == self.tokens@[i as int]);
                reveal(Seq::filter);
            }
            if !same_text(self.tokens[i].email.as_str(), email) && !same_text(
                self.tokens[i].token_hash.as_str(),
                token_hash.as_str(),
            ) {
                kept.push(copy_token(&self.tokens[i]));
            }
            i = i + 1;
        }
        assert(self.tokens@.take(self.tokens@.len() as int) =~= self.tokens@);
        let ghost filtered = kept@;
        kept.push(entry);
        assert(kept@.drop_last() =~= filtered);
        self.tokens = kept;
        self.count_request(email, now_secs);
        MagicLinkMail {
            link: magic_link_url(self.config.base_url.as_str(), raw_token),
            user_email: owned(email),
            expires_minutes: self.config.expiration_minutes,
        }
    }

    /// Request a magic link with the token given. A request that does not
    /// pass its check is refused and changes nothing. Otherwise the user of
    /// the address is looked up: where that fails, its error is returned and
    /// no link is kept; else a link is issued and the e-mail to send is
    /// returned.
    pub fn request_magic_link_with_token(
        &mut self,
        email: &str,
        redirect_to: Option<String>,
        raw_token: &str,
        now_secs: i64,
    ) -> (r: AuthResult<MagicLinkMail>)
        ensures
            final(self).users() == old(self).users(),
            old(self).fault_of(email@, now_secs) is Some ==> r is Err && reports(
                r->Err_0,
                old(self).fault_of(email@, now_secs)->Some_0,
            ),
            r is Err ==> *final(self) == *old(self),
            r is Ok ==> final(self).issued(
                old(self),
                email@,
                redirect_to,
                raw_token@,
                known_user(old(self).users().kept(), email@),
                now_secs,
                r->Ok_0,
            ),
    {
        match self.check_request(email, now_secs) {
            Err(e) => {
                return Err(e);
            },
            Ok(_) => {},
        }
        let existing = match self.user_repo.find_by_email(email) {
            Ok(Some(user)) => Some(user.id),
            Ok(None) => None,
            Err(e) => {
                return Err(e);
            },
        };
        let mail = self.issue(email, redirect_to, raw_token, existing, now_secs);
        let r: AuthResult<MagicLinkMail> = Ok(mail);
        assert(final(self).issued(
            old(self),
            email@,
            redirect_to,
            raw_token@,
            existing,
            now_secs,
            r->Ok_0,
        ));
        r
    }

    /// Request a magic link for login or signup, with a fresh random token.
    pub fn request_magic_link(&mut self, email: &str, redirect_to: Option<String>, now_secs: i64)
        -> (r: AuthResult<MagicLinkMail>)
        ensures
            final(self).users() == old(self).users(),
            old(self).fault_of(email@, now_secs) is Some ==> r is Err && reports(
                r->Err_0,
                old(self).fault_of(email@, now_secs)->Some_0,
            ),
            r is Err ==> *final(self) == *old(self),
            r is Ok ==> exists|raw_token: Seq<char>| #[trigger]
                final(self).issued(
                    old(self),
                    email@,
                    redirect_to,
                    raw_token,
                    known_user(old(self).users().kept(), email@),
                    now_secs,
                    r->Ok_0,
                ),
    {
        let raw_token = generate_token();
        self.request_magic_link_with_token(email, redirect_to, raw_token.as_str(), now_secs)
    }

    /// The position of the waiting link of a token, if there is one.
    pub open spec fn found(&self, raw_token: Seq<char>) -> Option<int> {
        token_position(self.waiting(), token_hash_text(raw_token))
    }

    fn position(&self, hash: &str) -> (r: Option<usize>)
        ensures
            match r {
                Some(i) => token_position(self.waiting(), hash@) == Some(i as int) && i
                    < self.waiting().len(),
                None => token_position(self.waiting(), hash@) is None,
            },
    {
        let mut i: usize = 0;
        assert(self.tokens@.take(0) =~= Seq::<MagicLinkToken>::empty());
        while i < self.tokens.len()
            invariant
                i <= self.tokens@.len(),
                token_position(self.tokens@.take(i as int), hash@) is None,
            decreases self.tokens@.len() - i,
        {
            proof {
                let next = self.tokens@.take(i + 1);
                assert(next.drop_last() =~= self.tokens@.take(i as int));
                assert(next.last() == self.tokens@[i as int]);
            }
            if same_text(self.tokens[i].token_hash.as_str(), hash) {
                proof {
                    lemma_token_position_persists(self.tokens@, hash@, i + 1);
                }
                return Some(i);
            }
            i = i + 1;
        }
        assert(self.tokens@.take(self.tokens@.len() as int) =~= self.tokens@);
        None
    }

    /// Take the link of a token out of the waiting ones. An unknown token is
    /// refused. A link that has expired at `now_secs` is refused too, and is
    /// gone all the same: a link can be followed once.
    pub fn take_token(&mut self, raw_token: &str, now_secs: i64) -> (r: AuthResult<MagicLinkToken>)
        ensures
            final(self).settings() == old(self).settings(),
            final(self).users() == old(self).users(),
            final(self).limits() == old(self).limits(),
            match token_position(old(self).waiting(), token_hash_text(raw_token@)) {
                None => {
                    &&& r is Err
                    &&& r->Err_0 is TokenInvalid
                    &&& r->Err_0->TokenInvalid_0@ == "Invalid or expired magic link"@
                    &&& final(self).waiting() == old(self).waiting()
                },
                Some(i) => {
                    &&& final(self).waiting() == old(self).waiting().remove(i)
                    &&& if old(self).waiting()[i].expires_at_secs < now_secs {
                        r == Err::<MagicLinkToken, AuthError>(AuthError::TokenExpired)
                    } else {
                        r == Ok::<MagicLinkToken, AuthError>(old(self).waiting()[i])
                    }
                },
            },
    {
        let token_hash = hash_token(raw_token);
        let i = match self.position(token_hash.as_str()) {
            Some(i) => i,
            None => {
                return Err(AuthError::TokenInvalid(owned("Invalid or expired magic link")));
            },
        };
        let entry = self.tokens.remove(i);
        if entry.expires_at_secs < now_secs {
            return Err(AuthError::TokenExpired);
        }
        Ok(entry)
    }

    /// The new user of a link, with the identifier given.
    pub fn signed_up_user(entry: &MagicLinkToken, id: u128, now_secs: i64) -> (r: User)
        ensures
            r.id == id,
            is_signed_up(r, *entry, now_secs),
    {
        let at = millis(now_secs);
        User {
            id,
            email: entry.email.clone(),
            email_verified: true,
            password_hash: String::new(),
            name: None,
            avatar_url: None,
            created_at_ms: at,
            updated_at_ms: at,
        }
    }

    /// Verify a magic link token. The link is taken out of the waiting ones
    /// whatever follows. For a link of a known user, the user is looked up
    /// and returned with `false`; for a signup, a new user with a fresh
    /// random identifier is kept and returned with `true`. An unknown or
    /// expired token is refused, and so is a link whose user is gone; an
    /// error of the user store is returned as it is.
    pub fn verify_magic_link(&mut self, raw_token: &str, now_secs: i64) -> (r: AuthResult<
        (User, bool),
    >)
        ensures
            final(self).settings() == old(self).settings(),
            final(self).limits() == old(self).limits(),
            old(self).found(raw_token@) is None ==> {
                &&& r is Err
                &&& r->Err_0 is TokenInvalid
                &&& r->Err_0->TokenInvalid_0@ == "Invalid or expired magic link"@
                &&& final(self).waiting() == old(self).waiting()
                &&& final(self).users() == old(self).users()
            },
            old(self).found(raw_token@) is Some ==> final(self).waiting() == old(self).waiting().remove(old(self).found(raw_token@)->Some_0),
            old(self).found(raw_token@) is Some && old(self).waiting()[old(self).found(
                raw_token@,
            )->Some_0].expires_at_secs < now_secs ==> r == Err::<(User, bool), AuthError>(
                AuthError::TokenExpired,
            ) && final(self).users() == old(self).users(),
            r is Ok ==> {
                let entry = old(self).waiting()[old(self).found(raw_token@)->Some_0];
                &&& old(self).found(raw_token@) is Some
                &&& entry.expires_at_secs >= now_secs
                &&& r->Ok_0.1 == (entry.user_id is None)
                &&& entry.user_id is Some ==> final(self).users() == old(self).users()
                    && first_with_id(old(self).users().kept(), entry.user_id->Some_0) == Some(
                    r->Ok_0.0,
                )
                &&& entry.user_id is None ==> is_signed_up(r->Ok_0.0, entry, now_secs)
                    && final(self).users().kept() == old(self).users().kept().push(r->Ok_0.0)
            },
    {
        let entry = match self.take_token(raw_token, now_secs) {
            Ok(entry) => entry,
            Err(e) => {
                return Err(e);
            },
        };
        match entry.user_id {
            Some(user_id) => {
                match self.user_repo.find_by_id(user_id) {
                    Ok(Some(user)) => Ok((user, false)),
                    Ok(None) => Err(AuthError::UserNotFound),
                    Err(e) => Err(e),
                }
            },
            None => {
                let id = random_uuid();
                let new_user = Self::signed_up_user(&entry, id, now_secs);
                match self.user_repo.create(&new_user) {
                    Ok(_) => {
                        Ok((new_user, true))
                    },
                    Err(e) => Err(e),
                }
            },
        }
    }

    /// Clean up the links that have expired at `now_secs`.
    pub fn cleanup_expired(&mut self, now_secs: i64)
        ensures
            final(self).settings() == old(self).settings(),
            final(self).users() == old(self).users(),
            final(self).limits() == old(self).limits(),
            final(self).waiting() == unexpired(old(self).waiting(), now_secs),
    {
        let mut kept: Vec<MagicLinkToken> = Vec::new();
        let mut i: usize = 0;
        proof {
            assert(self.tokens@.take(0) =~= Seq::<MagicLinkToken>::empty());
            reveal(Seq::filter);
        }
        while i < self.tokens.len()
            invariant
                i <= self.tokens@.len(),
                *self == *old(self),
                kept@ == unexpired(self.tokens@.take(i as int), now_secs),
            decreases self.tokens@.len() - i,
        {
            proof {
                let next = self.tokens@.take(i + 1);
                assert(next.drop_last() =~= self.tokens@.take(i as int));
                assert(next.last() == self.tokens@[i as int]);
                reveal(Seq::filter);
            }
            if self.tokens[i].expires_at_secs > now_secs {
                kept.push(copy_token(&self.tokens[i]));
            }
            i = i + 1;
        }
        assert(self.tokens@.take(self.tokens@.len() as int) =~= self.tokens@);
        self.tokens = kept;
    }

    /// Get the address to go to after the login with a token, if the token
    /// waits and names one.
    pub fn get_redirect_url(&self, raw_token: &str) -> (r: Option<String>)
        ensures
            r == (match token_position(self.waiting(), token_hash_text(raw_token@)) {
                Some(i) => self.waiting()[i].redirect_to,
                None => None,
            }),
    {
        let token_hash = hash_token(raw_token);
        match self.position(token_hash.as_str()) {
            Some(i) => copy_text(&self.tokens[i].redirect_to),
            None => None,
        }
    }
}

/// The identifier of the user of an address among `users`, if there is
/// one.
pub open spec fn known_user(users: Seq<User>, email: Seq<char>) -> Option<u128> {
    match first_with_email(users, email) {
        Some(user) => Some(user.id),
        None => None,
    }
}

/// Whether a user is the one that a link makes when it is followed at
/// `now_secs`: one with the link's address, verified, and without a
/// password.
pub open spec fn is_signed_up(user: User, entry: MagicLinkToken, now_secs: i64) -> bool {
    &&& user.email == entry.email
    &&& user.email_verified
    &&& user.password_hash@ == Seq::<char>::empty()
    &&& user.name is None
    &&& user.avatar_url is None
    &&& user.created_at_ms == millis_of(now_secs)
    &&& user.updated_at_ms == millis_of(now_secs)
}

/// The entry of an address after one more request at `now_secs`.
pub open spec fn counted_entry(entry: Option<RateLimitEntry>, now_secs: i64) -> RateLimitEntry {
    match entry {
        None => RateLimitEntry { count: 1, window_start_secs: now_secs },
        Some(e) => if e.window_start_secs < now_secs - RATE_WINDOW_SECS {
            RateLimitEntry { count: 1, window_start_secs: now_secs }
        } else {
            RateLimitEntry {
                count: if e.count == u32::MAX {
                    u32::MAX
                } else {
                    (e.count + 1) as u32
                },
                window_start_secs: e.window_start_secs,
            }
        },
    }
}

proof fn lemma_limit_after_push(records: Seq<RateLimitRecord>, added: RateLimitRecord)
    requires
        limit_of(records, added.key@) is None,
    ensures
        limit_of(records.push(added), added.key@) == Some(added.entry),
    decreases records.len(),
{
    let after = records.push(added);
    if records.len() == 0 {
        assert(after[0] == added);
    } else {
        assert(after[0] == records[0]);
        assert(after.drop_first() =~= records.drop_first().push(added));
        lemma_limit_after_push(records.drop_first(), added);
    }
}

proof fn lemma_limit_after_set(
    before: Seq<RateLimitRecord>,
    after: Seq<RateLimitRecord>,
    key: Seq<char>,
    i: int,
)
    requires
        0 <= i < before.len(),
        after == before.update(i, after[i]),
        after.len() == before.len(),
        after[i].key@ == key,
        forall|j: int| 0 <= j < i ==> (#[trigger] before[j]).key@ != key,
    ensures
        limit_of(after, key) == Some(after[i].entry),
    decreases before.len(),
{
    if i > 0 {
        assert(before[0].key@ != key);
        assert(after[0] == before[0]);
        let b = before.drop_first();
        let a = after.drop_first();
        assert(a =~= b.update(i - 1, a[i - 1]));
        lemma_limit_after_set(b, a, key, i - 1);
    }
}

/// What a hook is told of an event.
#[derive(Debug, Clone, PartialEq, Eq)]
pub struct AuthHookPayload {
    pub event: AuthEvent,
    pub user_id: u128,
    pub email: String,
    pub timestamp_ms: i64,
    /// More about the event, as the text of a JSON value.
    pub metadata: String,
}

impl AuthHookPayload {
    /// The payload of an event of a user at `now_ms`, with an empty JSON
    /// object for the rest.
    pub fn new(event: AuthEvent, user: &User, now_ms: i64) -> (r: Self)
        ensures
            r.event == event,
            r.user_id == user.id,
            r.email == user.email,
            r.timestamp_ms == now_ms,
            r.metadata@ == "{}"@,
    {
        AuthHookPayload {
            event,
            user_id: user.id,
            email: user.email.clone(),
            timestamp_ms: now_ms,
            metadata: owned("{}"),
        }
    }

    /// The payload with other metadata.
    pub fn with_metadata(self, metadata: String) -> (r: Self)
        ensures
            r == (AuthHookPayload { metadata, ..self }),
    {
        AuthHookPayload {
            event: self.event,
            user_id: self.user_id,
            email: self.email,
            timestamp_ms: self.timestamp_ms,
            metadata,
        }
    }
}

/// A handler of events of authentication.
pub trait AuthHookHandler {
    /// Handles an event.
    fn handle(&self, payload: &AuthHookPayload) -> AuthResult<()>;
}

/// A handler with the event that it listens to.
pub struct RegisteredHook<H: AuthHookHandler> {
    pub event: AuthEvent,
    pub handler: H,
}

/// The number of hooks that listen to an event.
pub open spec fn listeners<H: AuthHookHandler>(hooks: Seq<RegisteredHook<H>>, event: AuthEvent)
    -> nat
    decreases hooks.len(),
{
    if hooks.len() == 0 {
        0
    } else {
        listeners(hooks.drop_last(), event) + if hooks.last().event == event {
            1nat
        } else {
            0nat
        }
    }
}

/// The hooks of authentication.
pub struct AuthHooks<H: AuthHookHandler> {
    handlers: Vec<RegisteredHook<H>>,
}

impl<H: AuthHookHandler> AuthHooks<H> {
    /// The hooks registered, in the order in which they were.
    pub closed spec fn registered(&self) -> Seq<RegisteredHook<H>> {
        self.handlers@
    }

    /// No hooks.
    pub fn new() -> (r: Self)
        ensures
            r.registered().len() == 0,
    {
        AuthHooks { handlers: Vec::new() }
    }

    /// Register a hook handler for an event.
    pub fn on(&mut self, event: AuthEvent, handler: H)
        ensures
            final(self).registered() == old(self).registered().push(
                RegisteredHook { event, handler },
            ),
    {
        self.handlers.push(RegisteredHook { event, handler });
    }

    /// Trigger the hooks of an event, in the order in which they were
    /// registered. What a hook answers is ignored: a hook does not block
    /// authentication. The result is the number of hooks that were called.
    pub fn trigger(&self, payload: &AuthHookPayload) -> (r: usize)
        ensures
            r == listeners(self.registered(), payload.event),
    {
        let mut called: usize = 0;
        let mut i: usize = 0;
        assert(self.handlers@.take(0) =~= Seq::<RegisteredHook<H>>::empty());
        while i < self.handlers.len()
            invariant
                i <= self.handlers@.len(),
                called == listeners(self.handlers@.take(i as int), payload.event),
                called <= i,
            decreases self.handlers@.len() - i,
        {
            proof {
                let next = self.handlers@.take(i + 1);
                assert(next.drop_last() =~= self.handlers@.take(i as int));
                assert(next.last() == self.handlers@[i as int]);
            }
            if self.handlers[i].event == payload.event {
                let _ = self.handlers[i].handler.handle(payload);
                called = called + 1;
            }
            i = i + 1;
        }
        assert(self.handlers@.take(self.handlers@.len() as int) =~= self.handlers@);
        called
    }
}

} // verus!
