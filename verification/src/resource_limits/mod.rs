//! Resource limits and tracking: memory, file descriptors, free disk space and
//! the read-only flag.
//!
//! Refusals happen before a resource is taken, never after. The trackers count
//! logical usage; disk readings are taken by the caller and handed in.

use vstd::prelude::*;
use vstd::string::*;
use crate::text::{
    lines_of,
    lines_of_text,
    number_fault,
    owned,
    parse_u64_or_fault,
    parsed_number,
    split_whitespace,
    whitespace_fields,
};

pub mod errors;

pub use errors::{ResourceError, ResourceResult, ResourceType};

verus! {

/// Limits of the resource manager.
#[derive(Debug, Clone, Copy, PartialEq, Eq, Structural)]
pub struct ResourceLimitsConfig {
    /// Free disk bytes that must remain after a write.
    pub min_free_disk_bytes: u64,
    /// Maximum logically allocated memory in bytes.
    pub max_memory_bytes: u64,
    /// Maximum open file descriptors.
    pub max_file_descriptors: usize,
    /// Maximum documents in a result set.
    pub max_result_set_docs: usize,
    /// Usage percentage from which health is Warning.
    pub warning_threshold_percent: u8,
    /// Usage percentage from which health is Critical.
    pub critical_threshold_percent: u8,
}

impl Default for ResourceLimitsConfig {
    fn default() -> (r: Self)
        ensures
            r.min_free_disk_bytes == 1073741824,
            r.max_memory_bytes == 4294967296,
            r.max_file_descriptors == 1000,
            r.max_result_set_docs == 10000,
            r.warning_threshold_percent == 75,
            r.critical_threshold_percent == 90,
    {
        ResourceLimitsConfig {
            min_free_disk_bytes: 1073741824,
            max_memory_bytes: 4294967296,
            max_file_descriptors: 1000,
            max_result_set_docs: 10000,
            warning_threshold_percent: 75,
            critical_threshold_percent: 90,
        }
    }
}

/// System health.
#[derive(Debug, Clone, Copy, PartialEq, Eq, Structural)]
pub enum HealthStatus {
    /// All resources healthy.
    Normal,
    /// A resource is at the warning threshold or above.
    Warning,
    /// A resource is at the critical threshold or above.
    Critical,
    /// The system is in read-only mode.
    ReadOnly,
}

/// A snapshot of resource usage.
#[derive(Debug, Clone, Copy, PartialEq, Eq, Structural)]
pub struct ResourceStatus {
    pub disk_usage_bytes: u64,
    pub disk_total_bytes: u64,
    pub disk_free_bytes: u64,
    pub memory_usage_bytes: u64,
    pub memory_limit_bytes: u64,
    pub open_file_descriptors: usize,
    pub fd_limit: usize,
    pub health_status: HealthStatus,
    pub read_only_mode: bool,
}

/// Usage as a whole percentage of the limit, rounded down and capped at 255.
/// A limit of zero gives zero.
pub open spec fn percent_of(current: nat, limit: nat) -> nat {
    if limit == 0 {
        0
    } else if current * 100 / limit > 255 {
        255
    } else {
        current * 100 / limit
    }
}

/// Computes `percent_of` without overflow.
pub fn usage_percent_of(current: u64, limit: u64) -> (r: u8)
    ensures
        r == percent_of(current as nat, limit as nat),
{
    if limit == 0 {
        return 0;
    }
    let scaled: u128 = (current as u128) * 100;
    let q: u128 = scaled / (limit as u128);
    if q > 255 {
        255
    } else {
        q as u8
    }
}

/// One step of memory accounting.
pub enum MemoryOp {
    /// A request to allocate so many bytes.
    Allocate(u64),
    /// The release of so many bytes.
    Release(u64),
}

/// The allocation count after one step. An allocation that would pass the
/// limit is refused and changes nothing. A release subtracts, wrapping round
/// the 64-bit range when more is released than is allocated.
pub open spec fn memory_step(limit: u64, allocated: u64, op: MemoryOp) -> u64 {
    match op {
        MemoryOp::Allocate(size) => if allocated + size <= limit {
            (allocated + size) as u64
        } else {
            allocated
        },
        MemoryOp::Release(size) => if size <= allocated {
            (allocated - size) as u64
        } else {
            (allocated - size + 0x1_0000_0000_0000_0000) as u64
        },
    }
}

/// The allocation count after a sequence of steps on a fresh tracker.
pub open spec fn memory_replay(limit: u64, ops: Seq<MemoryOp>) -> u64
    decreases ops.len(),
{
    if ops.len() == 0 {
        0
    } else {
        memory_step(limit, memory_replay(limit, ops.drop_last()), ops.last())
    }
}

/// Every release in the sequence gives back no more than was allocated at
/// that moment.
pub open spec fn releases_are_covered(limit: u64, ops: Seq<MemoryOp>) -> bool
    decreases ops.len(),
{
    if ops.len() == 0 {
        true
    } else {
        &&& releases_are_covered(limit, ops.drop_last())
        &&& match ops.last() {
            MemoryOp::Allocate(_) => true,
            MemoryOp::Release(size) => size <= memory_replay(limit, ops.drop_last()),
        }
    }
}

/// The logically allocated bytes never exceed the limit: after any sequence
/// of allocation requests and covered releases on a fresh tracker, the count
/// is at most the limit.
pub proof fn lemma_allocated_never_exceeds_limit(limit: u64, ops: Seq<MemoryOp>)
    requires
        releases_are_covered(limit, ops),
    ensures
        memory_replay(limit, ops) <= limit,
    decreases ops.len(),
{
    if ops.len() > 0 {
        lemma_allocated_never_exceeds_limit(limit, ops.drop_last());
    }
}

/// Tracks logical memory allocations against a limit.
#[derive(Debug)]
pub struct MemoryTracker {
    allocated: u64,
    limit: u64,
}

impl MemoryTracker {
    /// The bytes currently allocated.
    pub closed spec fn allocated(&self) -> u64 {
        self.allocated
    }

    /// The limit in bytes.
    pub closed spec fn spec_limit(&self) -> u64 {
        self.limit
    }

    /// A tracker with nothing allocated.
    pub fn new(limit: u64) -> (r: Self)
        ensures
            r.allocated() == 0,
            r.spec_limit() == limit,
    {
        MemoryTracker { allocated: 0, limit }
    }

    /// Allocates `size` bytes if the total stays within the limit. Otherwise
    /// refuses, naming usage, request and limit, and changes nothing.
    pub fn try_allocate(&mut self, size: u64) -> (r: ResourceResult<()>)
        ensures
            final(self).spec_limit() == old(self).spec_limit(),
            final(self).allocated() == memory_step(
                old(self).spec_limit(),
                old(self).allocated(),
                MemoryOp::Allocate(size),
            ),
            old(self).allocated() + size <= old(self).spec_limit() ==> r == Ok::<
                (),
                ResourceError,
            >(()),
            old(self).allocated() + size > old(self).spec_limit() ==> r == Err::<
                (),
                ResourceError,
            >(
                ResourceError::MemoryExhausted {
                    current: old(self).allocated(),
                    requested: size,
                    limit: old(self).spec_limit(),
                },
            ),
            old(self).allocated() <= old(self).spec_limit() ==> final(self).allocated()
                <= final(self).spec_limit(),
    {
        let current = self.allocated;
        if size > self.limit || current > self.limit - size {
            return Err(
                ResourceError::MemoryExhausted { current, requested: size, limit: self.limit },
            );
        }
        self.allocated = current + size;
        Ok(())
    }

    /// Releases `size` bytes. Releasing more than is allocated wraps round the
    /// 64-bit range.
    pub fn release(&mut self, size: u64)
        ensures
            final(self).spec_limit() == old(self).spec_limit(),
            final(self).allocated() == memory_step(
                old(self).spec_limit(),
                old(self).allocated(),
                MemoryOp::Release(size),
            ),
    {
        self.allocated = self.allocated.wrapping_sub(size);
    }

    /// Get current allocation.
    pub fn current(&self) -> (r: u64)
        ensures
            r == self.allocated(),
    {
        self.allocated
    }

    /// Get limit.
    pub fn limit(&self) -> (r: u64)
        ensures
            r == self.spec_limit(),
    {
        self.limit
    }

    /// Get usage percentage.
    pub fn usage_percent(&self) -> (r: u8)
        ensures
            r == percent_of(self.allocated() as nat, self.spec_limit() as nat),
    {
        usage_percent_of(self.allocated, self.limit)
    }
}

/// Tracks open file descriptors against a limit.
#[derive(Debug)]
pub struct FileDescriptorTracker {
    open_count: usize,
    limit: usize,
}

impl FileDescriptorTracker {
    /// The number of descriptors counted as open.
    pub closed spec fn open_count(&self) -> usize {
        self.open_count
    }

    /// The limit.
    pub closed spec fn spec_limit(&self) -> usize {
        self.limit
    }

    /// A tracker with nothing open.
    pub fn new(limit: usize) -> (r: Self)
        ensures
            r.open_count() == 0,
            r.spec_limit() == limit,
    {
        FileDescriptorTracker { open_count: 0, limit }
    }

    /// Counts one more descriptor as open, or refuses at the limit and
    /// changes nothing.
    pub fn try_open(&mut self) -> (r: ResourceResult<()>)
        ensures
            final(self).spec_limit() == old(self).spec_limit(),
            old(self).open_count() < old(self).spec_limit() ==> {
                &&& r == Ok::<(), ResourceError>(())
                &&& final(self).open_count() == old(self).open_count() + 1
            },
            old(self).open_count() >= old(self).spec_limit() ==> {
                &&& r == Err::<(), ResourceError>(
                    ResourceError::FileDescriptorLimit {
                        current: old(self).open_count(),
                        limit: old(self).spec_limit(),
                    },
                )
                &&& final(self).open_count() == old(self).open_count()
            },
    {
        let current = self.open_count;
        if current >= self.limit {
            return Err(ResourceError::FileDescriptorLimit { current, limit: self.limit });
        }
        self.open_count = current + 1;
        Ok(())
    }

    /// Counts one descriptor as closed. With none open the count stays zero.
    pub fn close(&mut self)
        ensures
            final(self).spec_limit() == old(self).spec_limit(),
            final(self).open_count() == if old(self).open_count() > 0 {
                (old(self).open_count() - 1) as usize
            } else {
                0
            },
    {
        if self.open_count > 0 {
            self.open_count = self.open_count - 1;
        }
    }

    /// Current open count.
    pub fn current(&self) -> (r: usize)
        ensures
            r == self.open_count(),
    {
        self.open_count
    }

    /// Get limit.
    pub fn limit(&self) -> (r: usize)
        ensures
            r == self.spec_limit(),
    {
        self.limit
    }

    /// Get usage percentage.
    pub fn usage_percent(&self) -> (r: u8)
        ensures
            r == percent_of(self.open_count() as nat, self.spec_limit() as nat),
    {
        usage_percent_of(self.open_count as u64, self.limit as u64)
    }
}

/// The bytes that must be free for a write of `required_bytes` to go ahead:
/// the reserve plus the write, capped at the 64-bit range.
pub open spec fn disk_needed(min_free_bytes: u64, required_bytes: u64) -> u64 {
    if min_free_bytes + required_bytes > u64::MAX {
        u64::MAX
    } else {
        (min_free_bytes + required_bytes) as u64
    }
}

/// Whether a write of `required_bytes` leaves less than the reserve free.
pub open spec fn disk_is_short(free_bytes: u64, min_free_bytes: u64, required_bytes: u64) -> bool {
    free_bytes < min_free_bytes + required_bytes
}

/// A number of bytes that the output of `df -B1` for one path reports, or
/// why none can be read from it: the number in the column given, counted
/// from 0, of the second line. `what` names the number in the report of a
/// text that is no number.
pub open spec fn df_column(stdout: Seq<char>, column: int, what: Seq<char>) -> Result<
    u64,
    Seq<char>,
> {
    let lines = lines_of_text(stdout);
    if lines.len() < 2 {
        Err("Unexpected df output format"@)
    } else if whitespace_fields(lines[1]).len() <= column {
        Err("Unexpected df output format"@)
    } else {
        match parsed_number(whitespace_fields(lines[1])[column], 10, u64::MAX) {
            Some(n) => Ok(n),
            None => Err(
                "Failed to parse "@ + what + " space: "@ + number_fault(
                    whitespace_fields(lines[1])[column],
                ),
            ),
        }
    }
}

/// The free bytes that the output of `df -B1` for one path reports: the
/// number in the fourth column.
pub open spec fn df_free_space(stdout: Seq<char>) -> Result<u64, Seq<char>> {
    df_column(stdout, 3, "free"@)
}

/// The total bytes that the output of `df -B1` for one path reports: the
/// number in the second column.
pub open spec fn df_total_space(stdout: Seq<char>) -> Result<u64, Seq<char>> {
    df_column(stdout, 1, "total"@)
}

fn space_from_df(stdout: &str, column: usize, what: &str) -> (r: ResourceResult<u64>)
    ensures
        match df_column(stdout@, column as int, what@) {
            Ok(n) => r == Ok::<u64, ResourceError>(n),
            Err(reason) => r is Err && r->Err_0 is IoError && r->Err_0->IoError_0@ == reason,
        },
{
    let lines = lines_of(stdout);
    if lines.len() < 2 {
        return Err(ResourceError::IoError(owned("Unexpected df output format")));
    }
    let parts = split_whitespace(lines[1].as_str());
    if parts.len() <= column {
        return Err(ResourceError::IoError(owned("Unexpected df output format")));
    }
    match parse_u64_or_fault(parts[column].as_str()) {
        Ok(n) => Ok(n),
        Err(fault) => {
            let mut message = owned("Failed to parse ");
            message.append(what);
            message.append(" space: ");
            message.append(fault);
            Err(ResourceError::IoError(message))
        },
    }
}

/// Reads the free bytes from the output of `df -B1` for one path.
pub fn free_space_from_df(stdout: &str) -> (r: ResourceResult<u64>)
    ensures
        match df_free_space(stdout@) {
            Ok(n) => r == Ok::<u64, ResourceError>(n),
            Err(reason) => r is Err && r->Err_0 is IoError && r->Err_0->IoError_0@ == reason,
        },
{
    space_from_df(stdout, 3, "free")
}

/// Reads the total bytes from the output of `df -B1` for one path.
pub fn total_space_from_df(stdout: &str) -> (r: ResourceResult<u64>)
    ensures
        match df_total_space(stdout@) {
            Ok(n) => r == Ok::<u64, ResourceError>(n),
            Err(reason) => r is Err && r->Err_0 is IoError && r->Err_0->IoError_0@ == reason,
        },
{
    space_from_df(stdout, 1, "total")
}


/// Checks free disk space against a reserve.
#[derive(Debug)]
pub struct DiskSpaceChecker {
    data_path: String,
    min_free_bytes: u64,
}

impl DiskSpaceChecker {
    /// The directory whose file system is watched.
    pub closed spec fn path(&self) -> Seq<char> {
        self.data_path@
    }

    /// The reserve in bytes.
    pub closed spec fn min_free(&self) -> u64 {
        self.min_free_bytes
    }

    /// A checker for the file system that holds `data_path`.
    pub fn new(data_path: String, min_free_bytes: u64) -> (r: Self)
        ensures
            r.path() == data_path@,
            r.min_free() == min_free_bytes,
    {
        DiskSpaceChecker { data_path, min_free_bytes }
    }

    /// The directory whose file system is watched.
    pub fn data_path(&self) -> (r: &str)
        ensures
            r@ == self.path(),
    {
        self.data_path.as_str()
    }

    /// Decides, for a reading of `free_bytes`, whether a write of
    /// `required_bytes` may go ahead: it may when the write leaves at least
    /// the reserve free.
    pub fn check_space(&self, free_bytes: u64, required_bytes: u64) -> (r: ResourceResult<()>)
        ensures
            !disk_is_short(free_bytes, self.min_free(), required_bytes) ==> r == Ok::<
                (),
                ResourceError,
            >(()),
            disk_is_short(free_bytes, self.min_free(), required_bytes) ==> r == Err::<
                (),
                ResourceError,
            >(
                ResourceError::DiskFull {
                    available: free_bytes,
                    required: disk_needed(self.min_free(), required_bytes),
                },
            ),
    {
        let needed: u64 = if required_bytes > u64::MAX - self.min_free_bytes {
            u64::MAX
        } else {
            self.min_free_bytes + required_bytes
        };
        if required_bytes > u64::MAX - self.min_free_bytes || free_bytes < needed {
            return Err(ResourceError::DiskFull { available: free_bytes, required: needed });
        }
        Ok(())
    }

    /// The used share of the disk in percent, for readings of the total and
    /// the free bytes.
    pub fn usage_percent(&self, total_bytes: u64, free_bytes: u64) -> (r: u8)
        ensures
            r == percent_of(disk_used(total_bytes, free_bytes) as nat, total_bytes as nat),
    {
        let used = if total_bytes >= free_bytes {
            total_bytes - free_bytes
        } else {
            0
        };
        usage_percent_of(used, total_bytes)
    }
}

/// The used bytes of a disk: the total less the free bytes, zero when the
/// readings disagree.
pub open spec fn disk_used(total_bytes: u64, free_bytes: u64) -> u64 {
    if total_bytes >= free_bytes {
        (total_bytes - free_bytes) as u64
    } else {
        0
    }
}

/// The health that follows from the read-only flag and the three usage
/// percentages: the highest percentage decides.
pub open spec fn health_of(
    read_only: bool,
    disk_percent: nat,
    memory_percent: nat,
    fd_percent: nat,
    warning: nat,
    critical: nat,
) -> HealthStatus {
    if read_only {
        HealthStatus::ReadOnly
    } else if disk_percent >= critical || memory_percent >= critical || fd_percent >= critical {
        HealthStatus::Critical
    } else if disk_percent >= warning || memory_percent >= warning || fd_percent >= warning {
        HealthStatus::Warning
    } else {
        HealthStatus::Normal
    }
}

/// Centralized resource manager.
#[derive(Debug)]
pub struct ResourceManager {
    config: ResourceLimitsConfig,
    memory: MemoryTracker,
    file_descriptors: FileDescriptorTracker,
    disk: DiskSpaceChecker,
    read_only_mode: bool,
}

impl ResourceManager {
    /// The configured limits.
    pub closed spec fn spec_config(&self) -> ResourceLimitsConfig {
        self.config
    }

    /// The bytes currently allocated.
    pub closed spec fn memory_allocated(&self) -> u64 {
        self.memory.allocated()
    }

    /// The memory limit in force.
    pub closed spec fn memory_limit(&self) -> u64 {
        self.memory.spec_limit()
    }

    /// The descriptors counted as open.
    pub closed spec fn fds_open(&self) -> usize {
        self.file_descriptors.open_count()
    }

    /// The descriptor limit in force.
    pub closed spec fn fd_limit(&self) -> usize {
        self.file_descriptors.spec_limit()
    }

    /// The disk reserve in force.
    pub closed spec fn disk_reserve(&self) -> u64 {
        self.disk.min_free()
    }

    /// Whether the system is in read-only mode.
    pub closed spec fn read_only(&self) -> bool {
        self.read_only_mode
    }

    /// Everything but the read-only flag is the same in both managers.
    pub open spec fn same_counters(&self, other: &Self) -> bool {
        &&& self.spec_config() == other.spec_config()
        &&& self.memory_allocated() == other.memory_allocated()
        &&& self.memory_limit() == other.memory_limit()
        &&& self.fds_open() == other.fds_open()
        &&& self.fd_limit() == other.fd_limit()
        &&& self.disk_reserve() == other.disk_reserve()
    }

    /// A manager with nothing allocated, nothing open and writes allowed.
    pub fn new(config: ResourceLimitsConfig, data_path: String) -> (r: Self)
        ensures
            r.spec_config() == config,
            r.memory_allocated() == 0,
            r.memory_limit() == config.max_memory_bytes,
            r.fds_open() == 0,
            r.fd_limit() == config.max_file_descriptors,
            r.disk_reserve() == config.min_free_disk_bytes,
            !r.read_only(),
    {
        ResourceManager {
            memory: MemoryTracker::new(config.max_memory_bytes),
            file_descriptors: FileDescriptorTracker::new(config.max_file_descriptors),
            disk: DiskSpaceChecker::new(data_path, config.min_free_disk_bytes),
            read_only_mode: false,
            config,
        }
    }

    /// Check if writes are allowed (not in read-only mode).
    pub fn writes_allowed(&self) -> (r: bool)
        ensures
            r == !self.read_only(),
    {
        !self.read_only_mode
    }

    /// Enter read-only mode.
    pub fn enter_read_only_mode(&mut self)
        ensures
            final(self).read_only(),
            final(self).same_counters(old(self)),
    {
        self.read_only_mode = true;
    }

    /// Leave read-only mode: the operator's command after remediation.
    pub fn exit_read_only_mode(&mut self)
        ensures
            !final(self).read_only(),
            final(self).same_counters(old(self)),
    {
        self.read_only_mode = false;
    }

    /// Checks disk space before a write, for a reading of `free_bytes`. When
    /// the write would leave less than the reserve free, it is refused and the
    /// system enters read-only mode. Otherwise the flag is left as it was.
    pub fn check_disk_space(&mut self, free_bytes: u64, required_bytes: u64) -> (r: ResourceResult<
        (),
    >)
        ensures
            final(self).same_counters(old(self)),
            !disk_is_short(free_bytes, old(self).disk_reserve(), required_bytes) ==> {
                &&& r == Ok::<(), ResourceError>(())
                &&& final(self).read_only() == old(self).read_only()
            },
            disk_is_short(free_bytes, old(self).disk_reserve(), required_bytes) ==> {
                &&& r == Err::<(), ResourceError>(
                    ResourceError::DiskFull {
                        available: free_bytes,
                        required: disk_needed(old(self).disk_reserve(), required_bytes),
                    },
                )
                &&& final(self).read_only()
            },
    {
        let r = self.disk.check_space(free_bytes, required_bytes);
        if r.is_err() {
            self.read_only_mode = true;
        }
        r
    }

    /// The admission of a write. A write that would leave less than the
    /// disk reserve free is refused with `DiskFull` and puts the system in
    /// read-only mode. With enough disk, a write is refused with
    /// `ReadOnlyMode` while the flag is set, and admitted otherwise.
    pub fn check_write(&mut self, free_bytes: u64, required_bytes: u64) -> (r: ResourceResult<()>)
        ensures
            final(self).same_counters(old(self)),
            disk_is_short(free_bytes, old(self).disk_reserve(), required_bytes) ==> {
                &&& r == Err::<(), ResourceError>(
                    ResourceError::DiskFull {
                        available: free_bytes,
                        required: disk_needed(old(self).disk_reserve(), required_bytes),
                    },
                )
                &&& final(self).read_only()
            },
            !disk_is_short(free_bytes, old(self).disk_reserve(), required_bytes) ==> {
                &&& final(self).read_only() == old(self).read_only()
                &&& old(self).read_only() ==> r == Err::<(), ResourceError>(
                    ResourceError::ReadOnlyMode,
                )
                &&& !old(self).read_only() ==> r == Ok::<(), ResourceError>(())
            },
    {
        let disk = self.check_disk_space(free_bytes, required_bytes);
        if disk.is_err() {
            return disk;
        }
        if self.read_only_mode {
            return Err(ResourceError::ReadOnlyMode);
        }
        Ok(())
    }

    /// Try to allocate memory: refused before allocation when the total would
    /// pass the limit.
    pub fn try_allocate_memory(&mut self, size: u64) -> (r: ResourceResult<()>)
        ensures
            final(self).spec_config() == old(self).spec_config(),
            final(self).memory_limit() == old(self).memory_limit(),
            final(self).fds_open() == old(self).fds_open(),
            final(self).fd_limit() == old(self).fd_limit(),
            final(self).disk_reserve() == old(self).disk_reserve(),
            final(self).read_only() == old(self).read_only(),
            final(self).memory_allocated() == memory_step(
                old(self).memory_limit(),
                old(self).memory_allocated(),
                MemoryOp::Allocate(size),
            ),
            old(self).memory_allocated() + size <= old(self).memory_limit() ==> r == Ok::<
                (),
                ResourceError,
            >(()),
            old(self).memory_allocated() + size > old(self).memory_limit() ==> r == Err::<
                (),
                ResourceError,
            >(
                ResourceError::MemoryExhausted {
                    current: old(self).memory_allocated(),
                    requested: size,
                    limit: old(self).memory_limit(),
                },
            ),
    {
        self.memory.try_allocate(size)
    }

    /// Release memory.
    pub fn release_memory(&mut self, size: u64)
        ensures
            final(self).spec_config() == old(self).spec_config(),
            final(self).memory_limit() == old(self).memory_limit(),
            final(self).fds_open() == old(self).fds_open(),
            final(self).fd_limit() == old(self).fd_limit(),
            final(self).disk_reserve() == old(self).disk_reserve(),
            final(self).read_only() == old(self).read_only(),
            final(self).memory_allocated() == memory_step(
                old(self).memory_limit(),
                old(self).memory_allocated(),
                MemoryOp::Release(size),
            ),
    {
        self.memory.release(size)
    }

    /// Try to open a file descriptor.
    pub fn try_open_fd(&mut self) -> (r: ResourceResult<()>)
        ensures
            final(self).spec_config() == old(self).spec_config(),
            final(self).memory_limit() == old(self).memory_limit(),
            final(self).memory_allocated() == old(self).memory_allocated(),
            final(self).fd_limit() == old(self).fd_limit(),
            final(self).disk_reserve() == old(self).disk_reserve(),
            final(self).read_only() == old(self).read_only(),
            old(self).fds_open() < old(self).fd_limit() ==> {
                &&& r == Ok::<(), ResourceError>(())
                &&& final(self).fds_open() == old(self).fds_open() + 1
            },
            old(self).fds_open() >= old(self).fd_limit() ==> {
                &&& r == Err::<(), ResourceError>(
                    ResourceError::FileDescriptorLimit {
                        current: old(self).fds_open(),
                        limit: old(self).fd_limit(),
                    },
                )
                &&& final(self).fds_open() == old(self).fds_open()
            },
    {
        self.file_descriptors.try_open()
    }

    /// Close a file descriptor.
    pub fn close_fd(&mut self)
        ensures
            final(self).spec_config() == old(self).spec_config(),
            final(self).memory_limit() == old(self).memory_limit(),
            final(self).memory_allocated() == old(self).memory_allocated(),
            final(self).fd_limit() == old(self).fd_limit(),
            final(self).disk_reserve() == old(self).disk_reserve(),
            final(self).read_only() == old(self).read_only(),
            final(self).fds_open() == if old(self).fds_open() > 0 {
                (old(self).fds_open() - 1) as usize
            } else {
                0
            },
    {
        self.file_descriptors.close()
    }

    /// The current resource status, for readings of the free and the total
    /// disk bytes.
    pub fn get_status(&self, disk_free: u64, disk_total: u64) -> (r: ResourceStatus)
        ensures
            r.disk_free_bytes == disk_free,
            r.disk_total_bytes == disk_total,
            r.disk_usage_bytes == disk_used(disk_total, disk_free),
            r.memory_usage_bytes == self.memory_allocated(),
            r.memory_limit_bytes == self.memory_limit(),
            r.open_file_descriptors == self.fds_open(),
            r.fd_limit == self.fd_limit(),
            r.read_only_mode == self.read_only(),
            r.health_status == health_of(
                self.read_only(),
                percent_of(disk_used(disk_total, disk_free) as nat, disk_total as nat),
                percent_of(self.memory_allocated() as nat, self.memory_limit() as nat),
                percent_of(self.fds_open() as nat, self.fd_limit() as nat),
                self.spec_config().warning_threshold_percent as nat,
                self.spec_config().critical_threshold_percent as nat,
            ),
    {
        let disk_usage = if disk_total >= disk_free {
            disk_total - disk_free
        } else {
            0
        };
        let memory_usage = self.memory.current();
        let memory_limit = self.memory.limit();
        let fd_current = self.file_descriptors.current();
        let fd_limit = self.file_descriptors.limit();
        let health_status = self.calculate_health_status(
            disk_usage,
            disk_total,
            memory_usage,
            memory_limit,
            fd_current,
            fd_limit,
        );
        ResourceStatus {
            disk_usage_bytes: disk_usage,
            disk_total_bytes: disk_total,
            disk_free_bytes: disk_free,
            memory_usage_bytes: memory_usage,
            memory_limit_bytes: memory_limit,
            open_file_descriptors: fd_current,
            fd_limit,
            health_status,
            read_only_mode: !self.writes_allowed(),
        }
    }

    fn calculate_health_status(
        &self,
        disk_usage: u64,
        disk_total: u64,
        memory_usage: u64,
        memory_limit: u64,
        fd_current: usize,
        fd_limit: usize,
    ) -> (r: HealthStatus)
        ensures
            r == health_of(
                self.read_only(),
                percent_of(disk_usage as nat, disk_total as nat),
                percent_of(memory_usage as nat, memory_limit as nat),
                percent_of(fd_current as nat, fd_limit as nat),
                self.spec_config().warning_threshold_percent as nat,
                self.spec_config().critical_threshold_percent as nat,
            ),
    {
        if !self.writes_allowed() {
            return HealthStatus::ReadOnly;
        }
        let disk_percent = usage_percent_of(disk_usage, disk_total);
        let memory_percent = usage_percent_of(memory_usage, memory_limit);
        let fd_percent = usage_percent_of(fd_current as u64, fd_limit as u64);
        let critical = self.config.critical_threshold_percent;
        let warning = self.config.warning_threshold_percent;
        if disk_percent >= critical || memory_percent >= critical || fd_percent >= critical {
            HealthStatus::Critical
        } else if disk_percent >= warning || memory_percent >= warning || fd_percent >= warning {
            HealthStatus::Warning
        } else {
            HealthStatus::Normal
        }
    }
}

} // verus!
