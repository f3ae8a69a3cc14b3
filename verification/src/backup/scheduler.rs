//! Scheduling of automatic backups.
//!
//! The scheduler runs no backup itself: it says when one is due. Times are
//! milliseconds since the epoch, read by the caller.

use vstd::prelude::*;
use crate::backup::BackupConfig;

verus! {

/// Milliseconds in an hour.
pub const MS_PER_HOUR: i64 = 3_600_000;

/// The time `interval_hours` hours after `last_ms`, capped at the largest
/// time that 64 bits can hold.
pub open spec fn due_time(last_ms: i64, interval_hours: u32) -> i64 {
    if last_ms + interval_hours * MS_PER_HOUR > i64::MAX {
        i64::MAX
    } else {
        (last_ms + interval_hours * MS_PER_HOUR) as i64
    }
}

/// Backup scheduler that tracks when backups should occur.
#[derive(Debug)]
pub struct BackupScheduler {
    config: BackupConfig,
    last_backup_time: Option<i64>,
}

impl BackupScheduler {
    /// The configuration.
    pub closed spec fn spec_config(&self) -> BackupConfig {
        self.config
    }

    /// The time of the last backup, if one is known.
    pub closed spec fn last(&self) -> Option<i64> {
        self.last_backup_time
    }

    /// Whether a backup is due at `now_ms`: backups are enabled, and either
    /// none was made yet or the interval has passed since the last one.
    pub open spec fn due_at(&self, now_ms: i64) -> bool {
        self.spec_config().enabled && match self.last() {
            None => true,
            Some(last) => now_ms >= last + self.spec_config().interval_hours * MS_PER_HOUR,
        }
    }

    /// The time of the next backup as seen at `now_ms`: none when backups are
    /// disabled, at once when none was made yet, else the interval after the
    /// last one.
    pub open spec fn next_at(&self, now_ms: i64) -> Option<i64> {
        if !self.spec_config().enabled {
            None
        } else {
            match self.last() {
                None => Some(now_ms),
                Some(last) => Some(due_time(last, self.spec_config().interval_hours)),
            }
        }
    }

    /// Create a new backup scheduler.
    pub fn new(config: BackupConfig) -> (r: Self)
        ensures
            r.spec_config() == config,
            r.last() is None,
    {
        BackupScheduler { config, last_backup_time: None }
    }

    /// Create scheduler with known last backup time.
    pub fn with_last_backup(config: BackupConfig, last_backup_ms: i64) -> (r: Self)
        ensures
            r.spec_config() == config,
            r.last() == Some(last_backup_ms),
    {
        BackupScheduler { config, last_backup_time: Some(last_backup_ms) }
    }

    fn due_time_of(last_ms: i64, interval_hours: u32) -> (r: i64)
        ensures
            r == due_time(last_ms, interval_hours),
            last_ms + interval_hours * MS_PER_HOUR <= i64::MAX ==> r == last_ms + interval_hours
                * MS_PER_HOUR,
    {
        let shift: i64 = (interval_hours as i64) * MS_PER_HOUR;
        if last_ms > i64::MAX - shift {
            i64::MAX
        } else {
            last_ms + shift
        }
    }

    /// Check if a backup is due at `now_ms`.
    pub fn is_backup_due(&self, now_ms: i64) -> (r: bool)
        ensures
            r == self.due_at(now_ms),
    {
        if !self.config.enabled {
            return false;
        }
        match self.last_backup_time {
            None => true,
            Some(last) => {
                let shift: i64 = (self.config.interval_hours as i64) * MS_PER_HOUR;
                if last > i64::MAX - shift {
                    false
                } else {
                    now_ms >= last + shift
                }
            },
        }
    }

    /// Calculate the next backup time as seen at `now_ms`. Returns `None` if
    /// backups are disabled.
    pub fn next_backup_time(&self, now_ms: i64) -> (r: Option<i64>)
        ensures
            r == self.next_at(now_ms),
    {
        if !self.config.enabled {
            return None;
        }
        match self.last_backup_time {
            None => Some(now_ms),
            Some(last) => Some(BackupScheduler::due_time_of(last, self.config.interval_hours)),
        }
    }

    /// Update the last backup time to `now_ms`.
    pub fn mark_backup_complete(&mut self, now_ms: i64)
        ensures
            final(self).spec_config() == old(self).spec_config(),
            final(self).last() == Some(now_ms),
    {
        self.last_backup_time = Some(now_ms);
    }

    /// Update the last backup time to a specific time.
    pub fn set_last_backup_time(&mut self, time_ms: i64)
        ensures
            final(self).spec_config() == old(self).spec_config(),
            final(self).last() == Some(time_ms),
    {
        self.last_backup_time = Some(time_ms);
    }

    /// Get the last backup time.
    pub fn last_backup_time(&self) -> (r: Option<i64>)
        ensures
            r == self.last(),
    {
        self.last_backup_time
    }

    /// Check if backups are enabled.
    pub fn is_enabled(&self) -> (r: bool)
        ensures
            r == self.spec_config().enabled,
    {
        self.config.enabled
    }

    /// Get the backup interval in hours.
    pub fn interval_hours(&self) -> (r: u32)
        ensures
            r == self.spec_config().interval_hours,
    {
        self.config.interval_hours
    }

    /// Time until the next backup as seen at `now_ms`, in milliseconds.
    /// Returns `None` if backups are disabled or one is already due.
    pub fn time_until_next_backup(&self, now_ms: i64) -> (r: Option<i64>)
        ensures
            match self.next_at(now_ms) {
                None => r is None,
                Some(next) => if next > now_ms {
                    r == Some(
                        if next - now_ms > i64::MAX {
                            i64::MAX
                        } else {
                            (next - now_ms) as i64
                        },
                    )
                } else {
                    r is None
                },
            },
    {
        match self.next_backup_time(now_ms) {
            None => None,
            Some(next) => {
                if next > now_ms {
                    if now_ms < 0 && next > i64::MAX + now_ms {
                        Some(i64::MAX)
                    } else {
                        Some(next - now_ms)
                    }
                } else {
                    None
                }
            },
        }
    }
}

} // verus!
