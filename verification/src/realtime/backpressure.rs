//! A bounded channel with a configurable policy for a full buffer.
//!
//! When the buffer is full, the policy decides: drop the oldest message and
//! take the new one, drop the new message silently, or reject it with an
//! error. Every delivery, drop and rejection is counted.

use std::collections::VecDeque;
use vstd::prelude::*;
use vstd::string::*;
use crate::text::{decimal, owned, push_decimal, same_text};

verus! {

/// Drop policy for backpressure handling.
#[derive(Debug, Clone, Copy, PartialEq, Eq, Structural)]
pub enum DropPolicy {
    /// When the buffer is full, drop the oldest message.
    OldestFirst,
    /// When the buffer is full, drop the new incoming message.
    NewestFirst,
    /// When the buffer is full, reject the new message with an error.
    Reject,
}

impl Default for DropPolicy {
    fn default() -> (r: Self)
        ensures
            r == DropPolicy::OldestFirst,
    {
        DropPolicy::OldestFirst
    }
}

impl DropPolicy {
    /// The policy's name in configuration files.
    pub open spec fn name_text(self) -> Seq<char> {
        match self {
            DropPolicy::OldestFirst => "oldest_first"@,
            DropPolicy::NewestFirst => "newest_first"@,
            DropPolicy::Reject => "reject"@,
        }
    }

    /// The policy's name in configuration files.
    pub fn as_str(&self) -> (r: &'static str)
        ensures
            r@ == self.name_text(),
    {
        match self {
            DropPolicy::OldestFirst => "oldest_first",
            DropPolicy::NewestFirst => "newest_first",
            DropPolicy::Reject => "reject",
        }
    }

    /// The policy of the name given, if it names one.
    pub fn from_name(name: &str) -> (r: Option<Self>)
        ensures
            name@ == "oldest_first"@ ==> r == Some(DropPolicy::OldestFirst),
            name@ == "newest_first"@ ==> r == Some(DropPolicy::NewestFirst),
            name@ == "reject"@ ==> r == Some(DropPolicy::Reject),
            r is Some ==> r->0.name_text() == name@,
            name@ != "oldest_first"@ && name@ != "newest_first"@ && name@ != "reject"@ ==> r
                is None,
    {
        proof {
            reveal_strlit("oldest_first");
            reveal_strlit("newest_first");
            reveal_strlit("reject");
            assert("oldest_first"@[0] != "newest_first"@[0]);
        }
        if same_text(name, "oldest_first") {
            Some(DropPolicy::OldestFirst)
        } else if same_text(name, "newest_first") {
            Some(DropPolicy::NewestFirst)
        } else if same_text(name, "reject") {
            Some(DropPolicy::Reject)
        } else {
            None
        }
    }
}

/// Backpressure configuration.
#[derive(Debug, Clone, Copy, PartialEq, Eq, Structural)]
pub struct BackpressureConfig {
    /// Maximum number of pending messages before backpressure sets in.
    pub max_pending_messages: usize,
    /// Policy for handling messages when the buffer is full.
    pub drop_policy: DropPolicy,
}

impl Default for BackpressureConfig {
    fn default() -> (r: Self)
        ensures
            r.max_pending_messages == 1000,
            r.drop_policy == DropPolicy::OldestFirst,
    {
        BackpressureConfig { max_pending_messages: 1000, drop_policy: DropPolicy::OldestFirst }
    }
}

impl BackpressureConfig {
    /// Create configuration with custom max pending messages.
    pub fn with_max_pending(max: usize) -> (r: Self)
        ensures
            r.max_pending_messages == max,
            r.drop_policy == DropPolicy::OldestFirst,
    {
        BackpressureConfig { max_pending_messages: max, drop_policy: DropPolicy::OldestFirst }
    }

    /// Create configuration with specific drop policy.
    pub fn with_policy(policy: DropPolicy) -> (r: Self)
        ensures
            r.max_pending_messages == 1000,
            r.drop_policy == policy,
    {
        BackpressureConfig { max_pending_messages: 1000, drop_policy: policy }
    }
}

/// Snapshot of backpressure counters at a point in time.
#[derive(Debug, Clone, Copy, PartialEq, Eq, Structural)]
pub struct BackpressureSnapshot {
    pub delivered: u64,
    pub dropped: u64,
    pub rejected: u64,
}

impl Default for BackpressureSnapshot {
    fn default() -> (r: Self)
        ensures
            r.delivered == 0,
            r.dropped == 0,
            r.rejected == 0,
    {
        BackpressureSnapshot { delivered: 0, dropped: 0, rejected: 0 }
    }
}

/// Backpressure counters for observability.
#[derive(Debug, Clone, Copy, PartialEq, Eq, Structural)]
pub struct BackpressureCounters {
    /// Number of messages successfully delivered.
    pub delivered_count: u64,
    /// Number of messages dropped by the policies that drop.
    pub dropped_count: u64,
    /// Number of messages rejected by the policy that rejects.
    pub rejected_count: u64,
}

impl Default for BackpressureCounters {
    fn default() -> (r: Self)
        ensures
            r.delivered_count == 0,
            r.dropped_count == 0,
            r.rejected_count == 0,
    {
        BackpressureCounters { delivered_count: 0, dropped_count: 0, rejected_count: 0 }
    }
}

impl BackpressureCounters {
    /// Get snapshot of current counters.
    pub fn snapshot(&self) -> (r: BackpressureSnapshot)
        ensures
            r.delivered == self.delivered_count,
            r.dropped == self.dropped_count,
            r.rejected == self.rejected_count,
    {
        BackpressureSnapshot {
            delivered: self.delivered_count,
            dropped: self.dropped_count,
            rejected: self.rejected_count,
        }
    }
}

/// Error returned when a message is rejected.
#[derive(Debug, Clone, PartialEq, Eq)]
pub struct BackpressureRejected {
    pub message: String,
}

impl BackpressureRejected {
    /// The text of the error.
    pub fn to_string(&self) -> (r: String)
        ensures
            r@ == "Backpressure: "@ + self.message@,
    {
        let mut out = owned("Backpressure: ");
        out.append(self.message.as_str());
        out
    }
}

/// Result type for backpressure operations.
pub type BackpressureResult<T> = Result<T, BackpressureRejected>;

/// Action taken when sending a message.
#[derive(Debug, Clone, Copy, PartialEq, Eq, Structural)]
pub enum SendAction {
    /// Message was delivered successfully.
    Delivered,
    /// A message was dropped due to backpressure.
    Dropped,
}

/// A counter after one more event, wrapping round the 64-bit range.
pub open spec fn counted(n: u64) -> u64 {
    if n == u64::MAX {
        0
    } else {
        (n + 1) as u64
    }
}

/// The message of a rejection from a buffer that holds `len` of `max`
/// messages.
pub open spec fn rejection_text(len: nat, max: nat) -> Seq<char> {
    "Buffer full ("@ + decimal(len) + "/"@ + decimal(max) + "), message rejected"@
}

/// The buffer after `message` is sent: appended while there is room; in a
/// full buffer it replaces the oldest message under `OldestFirst` and is not
/// taken under the other policies.
pub open spec fn buffer_after_send<T>(config: BackpressureConfig, buffer: Seq<T>, message: T)
    -> Seq<T> {
    if buffer.len() < config.max_pending_messages {
        buffer.push(message)
    } else {
        match config.drop_policy {
            DropPolicy::OldestFirst => if buffer.len() > 0 {
                buffer.drop_first().push(message)
            } else {
                buffer.push(message)
            },
            DropPolicy::NewestFirst => buffer,
            DropPolicy::Reject => buffer,
        }
    }
}

/// The counters after a message is sent to a buffer of `len` messages.
pub open spec fn counters_after_send(
    config: BackpressureConfig,
    len: nat,
    counters: BackpressureCounters,
) -> BackpressureCounters {
    if len < config.max_pending_messages {
        BackpressureCounters { delivered_count: counted(counters.delivered_count), ..counters }
    } else {
        match config.drop_policy {
            DropPolicy::OldestFirst => BackpressureCounters {
                delivered_count: counted(counters.delivered_count),
                dropped_count: counted(counters.dropped_count),
                ..counters
            },
            DropPolicy::NewestFirst => BackpressureCounters {
                dropped_count: counted(counters.dropped_count),
                ..counters
            },
            DropPolicy::Reject => BackpressureCounters {
                rejected_count: counted(counters.rejected_count),
                ..counters
            },
        }
    }
}

fn count_one(n: u64) -> (r: u64)
    ensures
        r == counted(n),
{
    if n == u64::MAX {
        0
    } else {
        n + 1
    }
}

/// Backpressure-aware bounded channel.
#[derive(Debug)]
pub struct BackpressureChannel<T> {
    config: BackpressureConfig,
    buffer: VecDeque<T>,
    counters: BackpressureCounters,
}

impl<T> BackpressureChannel<T> {
    /// The configuration.
    pub closed spec fn spec_config(&self) -> BackpressureConfig {
        self.config
    }

    /// The pending messages, oldest first.
    pub closed spec fn pending(&self) -> Seq<T> {
        self.buffer@
    }

    /// The counters.
    pub closed spec fn spec_counters(&self) -> BackpressureCounters {
        self.counters
    }

    /// Create a new backpressure channel with the given configuration.
    pub fn new(config: BackpressureConfig) -> (r: Self)
        ensures
            r.spec_config() == config,
            r.pending() == Seq::<T>::empty(),
            r.spec_counters() == (BackpressureCounters {
                delivered_count: 0,
                dropped_count: 0,
                rejected_count: 0,
            }),
    {
        BackpressureChannel {
            buffer: VecDeque::new(),
            config,
            counters: BackpressureCounters {
                delivered_count: 0,
                dropped_count: 0,
                rejected_count: 0,
            },
        }
    }

    /// Get reference to the counters.
    pub fn counters(&self) -> (r: &BackpressureCounters)
        ensures
            *r == self.spec_counters(),
    {
        &self.counters
    }

    /// Get current buffer size.
    pub fn len(&self) -> (r: usize)
        ensures
            r == self.pending().len(),
    {
        self.buffer.len()
    }

    /// Check if buffer is empty.
    pub fn is_empty(&self) -> (r: bool)
        ensures
            r == (self.pending().len() == 0),
    {
        self.buffer.len() == 0
    }

    /// Check if buffer is at capacity.
    pub fn is_full(&self) -> (r: bool)
        ensures
            r == (self.pending().len() >= self.spec_config().max_pending_messages),
    {
        self.buffer.len() >= self.config.max_pending_messages
    }

    /// Send a message to the channel with backpressure handling. While there
    /// is room the message is delivered. In a full buffer the policy decides:
    /// `OldestFirst` drops the oldest message and takes the new one,
    /// `NewestFirst` drops the new one, and both report `Dropped`; `Reject`
    /// refuses the new one with an error that names the buffer's size.
    pub fn send(&mut self, message: T) -> (r: BackpressureResult<SendAction>)
        ensures
            final(self).spec_config() == old(self).spec_config(),
            final(self).pending() == buffer_after_send(
                old(self).spec_config(),
                old(self).pending(),
                message,
            ),
            final(self).spec_counters() == counters_after_send(
                old(self).spec_config(),
                old(self).pending().len(),
                old(self).spec_counters(),
            ),
            old(self).pending().len() < old(self).spec_config().max_pending_messages ==> r == Ok::<
                SendAction,
                BackpressureRejected,
            >(SendAction::Delivered),
            old(self).pending().len() >= old(self).spec_config().max_pending_messages ==> (
            match old(self).spec_config().drop_policy {
                DropPolicy::Reject => r is Err && r->Err_0.message@ == rejection_text(
                    old(self).pending().len(),
                    old(self).spec_config().max_pending_messages as nat,
                ),
                _ => r == Ok::<SendAction, BackpressureRejected>(SendAction::Dropped),
            }),
    {
        if self.buffer.len() >= self.config.max_pending_messages {
            match self.config.drop_policy {
                DropPolicy::OldestFirst => {
                    let ghost before = self.buffer@;
                    self.buffer.pop_front();
                    self.counters.dropped_count = count_one(self.counters.dropped_count);
                    self.buffer.push_back(message);
                    self.counters.delivered_count = count_one(self.counters.delivered_count);
                    proof {
                        if before.len() > 0 {
                            assert(before.subrange(1, before.len() as int) =~= before.drop_first());
                        }
                    }
                    Ok(SendAction::Dropped)
                },
                DropPolicy::NewestFirst => {
                    self.counters.dropped_count = count_one(self.counters.dropped_count);
                    Ok(SendAction::Dropped)
                },
                DropPolicy::Reject => {
                    self.counters.rejected_count = count_one(self.counters.rejected_count);
                    let mut text = owned("Buffer full (");
                    push_decimal(&mut text, self.buffer.len() as u64);
                    text.append("/");
                    push_decimal(&mut text, self.config.max_pending_messages as u64);
                    text.append("), message rejected");
                    Err(BackpressureRejected { message: text })
                },
            }
        } else {
            self.buffer.push_back(message);
            self.counters.delivered_count = count_one(self.counters.delivered_count);
            Ok(SendAction::Delivered)
        }
    }

    /// Receive a message from the channel: the oldest pending message, or
    /// `None` if the buffer is empty.
    pub fn recv(&mut self) -> (r: Option<T>)
        ensures
            final(self).spec_config() == old(self).spec_config(),
            final(self).spec_counters() == old(self).spec_counters(),
            old(self).pending().len() == 0 ==> r is None && final(self).pending() == old(self).pending(),
            old(self).pending().len() > 0 ==> r == Some(old(self).pending()[0]) && final(self).pending() == old(self).pending().drop_first(),
    {
        let ghost before = self.buffer@;
        let r = self.buffer.pop_front();
        proof {
            if before.len() > 0 {
                assert(before.subrange(1, before.len() as int) =~= before.drop_first());
            }
        }
        r
    }
}

/// A channel with room for at least one message never holds more than its
/// maximum: sending to a buffer within the bound leaves it within the bound.
pub proof fn lemma_send_keeps_bound<T>(config: BackpressureConfig, buffer: Seq<T>, message: T)
    requires
        config.max_pending_messages > 0,
        buffer.len() <= config.max_pending_messages,
    ensures
        buffer_after_send(config, buffer, message).len() <= config.max_pending_messages,
{
}

} // verus!
