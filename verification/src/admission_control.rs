//! Admission control: a token bucket that limits the write rate and a counter
//! that limits concurrent queries.
//!
//! Tokens are counted in whole units of a billionth of a token, so that a
//! rate of `r` writes per second adds exactly `r` units per nanosecond. Time
//! comes as readings in nanoseconds of a monotonic clock, supplied by the
//! caller.

use vstd::prelude::*;

verus! {

/// Units in one token.
pub const TOKEN_UNITS: u64 = 1_000_000_000;

/// Admission control configuration.
#[derive(Debug, Clone, Copy, PartialEq, Eq, Structural)]
pub struct AdmissionControlConfig {
    /// Max writes per second (0 = unlimited).
    pub max_writes_per_second: u32,
    /// Max concurrent queries (0 = unlimited).
    pub max_concurrent_queries: u32,
}

impl Default for AdmissionControlConfig {
    fn default() -> (r: Self)
        ensures
            r.max_writes_per_second == 0,
            r.max_concurrent_queries == 100,
    {
        AdmissionControlConfig { max_writes_per_second: 0, max_concurrent_queries: 100 }
    }
}

/// A refusal by admission control. The caller may retry.
#[derive(Debug, Clone, Copy, PartialEq, Eq, Structural)]
pub enum AdmissionError {
    /// The write rate limit is reached.
    RateLimited,
}

impl AdmissionError {
    /// The stable code of the refusal.
    pub fn code(&self) -> (r: &'static str)
        ensures
            r@ == "AERO_ADMISSION_RATE_LIMITED"@,
    {
        "AERO_ADMISSION_RATE_LIMITED"
    }
}

/// The state of a token bucket, as plain numbers.
pub struct BucketState {
    /// Tokens in the bucket, in units.
    pub tokens: nat,
    /// The clock reading of the last update.
    pub last_update_ns: u64,
}

/// The time from `last` to `now`, zero when `now` is not after `last`.
pub open spec fn elapsed_ns(last: u64, now: u64) -> nat {
    if now >= last {
        (now - last) as nat
    } else {
        0
    }
}

/// The tokens after replenishing for the time up to `now`: `rate` units for
/// every nanosecond, capped at the capacity.
pub open spec fn replenished(rate: u32, capacity: u32, state: BucketState, now: u64) -> nat {
    let grown = state.tokens + rate as nat * elapsed_ns(state.last_update_ns, now);
    let cap = capacity as nat * TOKEN_UNITS as nat;
    if grown > cap {
        cap
    } else {
        grown
    }
}

/// Whether an acquisition of `amount` units at `now` is granted.
pub open spec fn grants(
    rate: u32,
    capacity: u32,
    state: BucketState,
    now: u64,
    amount: u64,
) -> bool {
    replenished(rate, capacity, state, now) >= amount
}

/// The bucket after an acquisition attempt of `amount` units at `now`: the
/// tokens are replenished, and taken if there are enough of them.
pub open spec fn after_acquire(
    rate: u32,
    capacity: u32,
    state: BucketState,
    now: u64,
    amount: u64,
) -> BucketState {
    let avail = replenished(rate, capacity, state, now);
    BucketState {
        tokens: if avail >= amount {
            (avail - amount) as nat
        } else {
            avail
        },
        last_update_ns: now,
    }
}

/// The bucket after `k` attempts to take one token each, all at the reading
/// `now`.
pub open spec fn after_burst(rate: u32, capacity: u32, state: BucketState, now: u64, k: nat)
    -> BucketState
    decreases k,
{
    if k == 0 {
        state
    } else {
        after_acquire(
            rate,
            capacity,
            after_burst(rate, capacity, state, now, (k - 1) as nat),
            now,
            TOKEN_UNITS,
        )
    }
}

/// A full bucket of capacity `n` grants exactly the first `n` of any number
/// of writes that arrive at one instant: after `k` attempts at the reading of
/// the last update, `min(k, n)` tokens are gone, so attempt number `k + 1` is
/// granted exactly when `k < n`.
pub proof fn lemma_burst_grants_capacity(rate: u32, capacity: u32, now: u64, k: nat)
    ensures
        ({
            let full = BucketState {
                tokens: capacity as nat * TOKEN_UNITS as nat,
                last_update_ns: now,
            };
            let s = after_burst(rate, capacity, full, now, k);
            &&& s.last_update_ns == now
            &&& s.tokens == (if k <= capacity {
                (capacity - k) as nat
            } else {
                0
            }) * TOKEN_UNITS as nat
            &&& grants(rate, capacity, s, now, TOKEN_UNITS) == (k < capacity)
        }),
    decreases k,
{
    let full = BucketState { tokens: capacity as nat * TOKEN_UNITS as nat, last_update_ns: now };
    if k > 0 {
        lemma_burst_grants_capacity(rate, capacity, now, (k - 1) as nat);
        let prev = after_burst(rate, capacity, full, now, (k - 1) as nat);
        assert(rate as nat * elapsed_ns(now, now) == 0) by (nonlinear_arith)
            requires
                elapsed_ns(now, now) == 0,
        ;
        if k - 1 < capacity {
            assert((capacity - (k - 1)) as nat * TOKEN_UNITS as nat - TOKEN_UNITS as nat == (
            capacity - k) as nat * TOKEN_UNITS as nat) by (nonlinear_arith)
                requires
                    k - 1 < capacity,
                    k >= 1,
            ;
            assert((capacity - (k - 1)) as nat * TOKEN_UNITS as nat <= capacity as nat
                * TOKEN_UNITS as nat) by (nonlinear_arith)
                requires
                    k >= 1,
                    k - 1 < capacity,
            ;
            assert((capacity - (k - 1)) as nat * TOKEN_UNITS as nat >= TOKEN_UNITS as nat)
                by (nonlinear_arith)
                requires
                    k - 1 < capacity,
            ;
        }
    }
    let s = after_burst(rate, capacity, full, now, k);
    assert(rate as nat * elapsed_ns(now, now) == 0) by (nonlinear_arith)
        requires
            elapsed_ns(now, now) == 0,
    ;
    if k < capacity {
        assert((capacity - k) as nat * TOKEN_UNITS as nat >= TOKEN_UNITS as nat)
            by (nonlinear_arith)
            requires
                k < capacity,
        ;
        assert((capacity - k) as nat * TOKEN_UNITS as nat <= capacity as nat * TOKEN_UNITS as nat)
            by (nonlinear_arith)
            requires
                k < capacity,
        ;
    }
}

/// Token bucket for rate limiting.
#[derive(Debug)]
pub struct TokenBucket {
    capacity: u32,
    tokens: u64,
    rate: u32,
    last_update_ns: u64,
}

impl TokenBucket {
    /// Tokens added per second.
    pub closed spec fn spec_rate(&self) -> u32 {
        self.rate
    }

    /// The most tokens the bucket holds.
    pub closed spec fn spec_capacity(&self) -> u32 {
        self.capacity
    }

    /// The tokens and the time of the last update.
    pub closed spec fn state(&self) -> BucketState {
        BucketState { tokens: self.tokens as nat, last_update_ns: self.last_update_ns }
    }

    /// The bucket holds no more than its capacity.
    pub open spec fn wf(&self) -> bool {
        self.state().tokens <= self.spec_capacity() as nat * TOKEN_UNITS as nat
    }

    /// A full bucket, last updated at `now_ns`.
    pub fn new(rate: u32, capacity: u32, now_ns: u64) -> (r: Self)
        ensures
            r.wf(),
            r.spec_rate() == rate,
            r.spec_capacity() == capacity,
            r.state() == (BucketState {
                tokens: capacity as nat * TOKEN_UNITS as nat,
                last_update_ns: now_ns,
            }),
    {
        assert(capacity as nat * TOKEN_UNITS as nat <= 0xFFFF_FFFF * 1_000_000_000)
            by (nonlinear_arith)
            requires
                capacity <= 0xFFFF_FFFF,
                TOKEN_UNITS == 1_000_000_000,
        ;
        TokenBucket {
            capacity,
            tokens: (capacity as u64) * TOKEN_UNITS,
            rate,
            last_update_ns: now_ns,
        }
    }

    /// Replenishes the bucket for the time up to `now_ns`, then takes
    /// `amount` units if the bucket holds them.
    pub fn try_acquire(&mut self, now_ns: u64, amount: u64) -> (r: bool)
        requires
            old(self).wf(),
        ensures
            final(self).wf(),
            final(self).spec_rate() == old(self).spec_rate(),
            final(self).spec_capacity() == old(self).spec_capacity(),
            r == grants(
                old(self).spec_rate(),
                old(self).spec_capacity(),
                old(self).state(),
                now_ns,
                amount,
            ),
            final(self).state() == after_acquire(
                old(self).spec_rate(),
                old(self).spec_capacity(),
                old(self).state(),
                now_ns,
                amount,
            ),
    {
        let elapsed: u64 = if now_ns >= self.last_update_ns {
            now_ns - self.last_update_ns
        } else {
            0
        };
        assert(self.capacity as nat * TOKEN_UNITS as nat <= 0xFFFF_FFFF * 1_000_000_000)
            by (nonlinear_arith)
            requires
                self.capacity <= 0xFFFF_FFFF,
                TOKEN_UNITS == 1_000_000_000,
        ;
        assert(self.rate as nat * elapsed as nat <= 0xFFFF_FFFF * 0xFFFF_FFFF_FFFF_FFFF)
            by (nonlinear_arith)
            requires
                self.rate <= 0xFFFF_FFFF,
                elapsed <= 0xFFFF_FFFF_FFFF_FFFF,
        ;
        let cap: u128 = (self.capacity as u128) * (TOKEN_UNITS as u128);
        let grown: u128 = (self.tokens as u128) + (self.rate as u128) * (elapsed as u128);
        let avail: u128 = if grown > cap {
            cap
        } else {
            grown
        };
        self.last_update_ns = now_ns;
        if avail >= amount as u128 {
            self.tokens = (avail - amount as u128) as u64;
            true
        } else {
            self.tokens = avail as u64;
            false
        }
    }
}

/// A held query slot.
#[derive(Debug)]
pub struct QueryGuard {
    slot: u64,
}

/// Global admission controller.
#[derive(Debug)]
pub struct AdmissionController {
    config: AdmissionControlConfig,
    write_bucket: Option<TokenBucket>,
    active_queries: u64,
}

impl AdmissionController {
    /// The configuration.
    pub closed spec fn spec_config(&self) -> AdmissionControlConfig {
        self.config
    }

    /// The number of queries counted as running.
    pub closed spec fn active(&self) -> u64 {
        self.active_queries
    }

    /// The state of the write bucket. Meaningful when writes are limited.
    pub closed spec fn bucket(&self) -> BucketState {
        match self.write_bucket {
            Some(b) => b.state(),
            None => BucketState { tokens: 0, last_update_ns: 0 },
        }
    }

    /// The controller is consistent with its configuration: it has a write
    /// bucket exactly when writes are limited, and the bucket's rate and
    /// capacity are the configured writes per second.
    pub closed spec fn wf(&self) -> bool {
        match self.write_bucket {
            Some(b) => {
                &&& self.config.max_writes_per_second > 0
                &&& b.wf()
                &&& b.spec_rate() == self.config.max_writes_per_second
                &&& b.spec_capacity() == self.config.max_writes_per_second
            },
            None => self.config.max_writes_per_second == 0,
        }
    }

    /// A controller with a full write bucket of one second's worth of writes
    /// and no query running.
    pub fn new(config: AdmissionControlConfig, now_ns: u64) -> (r: Self)
        ensures
            r.wf(),
            r.spec_config() == config,
            r.active() == 0,
            config.max_writes_per_second > 0 ==> r.bucket() == (BucketState {
                tokens: config.max_writes_per_second as nat * TOKEN_UNITS as nat,
                last_update_ns: now_ns,
            }),
    {
        let write_bucket = if config.max_writes_per_second > 0 {
            Some(
                TokenBucket::new(
                    config.max_writes_per_second,
                    config.max_writes_per_second,
                    now_ns,
                ),
            )
        } else {
            None
        };
        AdmissionController { config, write_bucket, active_queries: 0 }
    }

    /// Asks for permission for one write at clock reading `now_ns`. With no
    /// limit configured every write is granted. Otherwise the bucket is
    /// replenished and one token taken if there is one.
    pub fn try_acquire_write(&mut self, now_ns: u64) -> (r: bool)
        requires
            old(self).wf(),
        ensures
            final(self).wf(),
            final(self).spec_config() == old(self).spec_config(),
            final(self).active() == old(self).active(),
            old(self).spec_config().max_writes_per_second == 0 ==> r,
            old(self).spec_config().max_writes_per_second > 0 ==> {
                &&& r == grants(
                    old(self).spec_config().max_writes_per_second,
                    old(self).spec_config().max_writes_per_second,
                    old(self).bucket(),
                    now_ns,
                    TOKEN_UNITS,
                )
                &&& final(self).bucket() == after_acquire(
                    old(self).spec_config().max_writes_per_second,
                    old(self).spec_config().max_writes_per_second,
                    old(self).bucket(),
                    now_ns,
                    TOKEN_UNITS,
                )
            },
    {
        match &mut self.write_bucket {
            Some(bucket) => bucket.try_acquire(now_ns, TOKEN_UNITS),
            None => true,
        }
    }

    /// As `try_acquire_write`, with a refusal reported as the retryable
    /// error `RateLimited`.
    pub fn admit_write(&mut self, now_ns: u64) -> (r: Result<(), AdmissionError>)
        requires
            old(self).wf(),
        ensures
            final(self).wf(),
            final(self).spec_config() == old(self).spec_config(),
            final(self).active() == old(self).active(),
            old(self).spec_config().max_writes_per_second == 0 ==> r is Ok,
            old(self).spec_config().max_writes_per_second > 0 ==> {
                &&& r is Ok == grants(
                    old(self).spec_config().max_writes_per_second,
                    old(self).spec_config().max_writes_per_second,
                    old(self).bucket(),
                    now_ns,
                    TOKEN_UNITS,
                )
                &&& final(self).bucket() == after_acquire(
                    old(self).spec_config().max_writes_per_second,
                    old(self).spec_config().max_writes_per_second,
                    old(self).bucket(),
                    now_ns,
                    TOKEN_UNITS,
                )
            },
            r is Err ==> r == Err::<(), AdmissionError>(AdmissionError::RateLimited),
    {
        if self.try_acquire_write(now_ns) {
            Ok(())
        } else {
            Err(AdmissionError::RateLimited)
        }
    }

    /// Asks for permission for one query. With no limit configured every
    /// query is granted and none is counted. Otherwise the query is granted
    /// and counted while fewer than the limit are running.
    pub fn try_acquire_query(&mut self) -> (r: bool)
        ensures
            final(self).spec_config() == old(self).spec_config(),
            final(self).bucket() == old(self).bucket(),
            old(self).wf() ==> final(self).wf(),
            old(self).spec_config().max_concurrent_queries == 0 ==> r && final(self).active()
                == old(self).active(),
            old(self).spec_config().max_concurrent_queries > 0 ==> {
                &&& r == (old(self).active() < old(self).spec_config().max_concurrent_queries)
                &&& final(self).active() == if r {
                    (old(self).active() + 1) as u64
                } else {
                    old(self).active()
                }
            },
    {
        if self.config.max_concurrent_queries == 0 {
            return true;
        }
        let current = self.active_queries;
        if current >= self.config.max_concurrent_queries as u64 {
            return false;
        }
        self.active_queries = current + 1;
        true
    }

    /// Gives a query permission back. With no limit configured nothing is
    /// counted. Otherwise the count goes down by one, wrapping round the
    /// 64-bit range when no query is counted.
    pub fn release_query(&mut self)
        ensures
            final(self).spec_config() == old(self).spec_config(),
            final(self).bucket() == old(self).bucket(),
            old(self).wf() ==> final(self).wf(),
            final(self).active() == if old(self).spec_config().max_concurrent_queries == 0 {
                old(self).active()
            } else if old(self).active() > 0 {
                (old(self).active() - 1) as u64
            } else {
                u64::MAX
            },
    {
        if self.config.max_concurrent_queries > 0 {
            self.active_queries = self.active_queries.wrapping_sub(1);
        }
    }

    /// As `try_acquire_query`, returning a guard for a granted query.
    pub fn acquire_query_guard(&mut self) -> (r: Option<QueryGuard>)
        ensures
            final(self).spec_config() == old(self).spec_config(),
            final(self).bucket() == old(self).bucket(),
            old(self).wf() ==> final(self).wf(),
            old(self).spec_config().max_concurrent_queries == 0 ==> r is Some && final(self).active() == old(self).active(),
            old(self).spec_config().max_concurrent_queries > 0 ==> {
                &&& r is Some == (old(self).active() < old(self).spec_config().max_concurrent_queries)
                &&& final(self).active() == if r is Some {
                    (old(self).active() + 1) as u64
                } else {
                    old(self).active()
                }
            },
    {
        let slot = self.active_queries;
        if self.try_acquire_query() {
            Some(QueryGuard { slot })
        } else {
            None
        }
    }

    /// Ends the query that `guard` was granted for: as `release_query`.
    pub fn release_query_guard(&mut self, guard: QueryGuard)
        ensures
            final(self).spec_config() == old(self).spec_config(),
            final(self).bucket() == old(self).bucket(),
            old(self).wf() ==> final(self).wf(),
            final(self).active() == if old(self).spec_config().max_concurrent_queries == 0 {
                old(self).active()
            } else if old(self).active() > 0 {
                (old(self).active() - 1) as u64
            } else {
                u64::MAX
            },
    {
        let _ = guard;
        self.release_query()
    }

    /// The number of queries counted as running.
    pub fn active_queries(&self) -> (r: u64)
        ensures
            r == self.active(),
    {
        self.active_queries
    }
}

} // verus!
