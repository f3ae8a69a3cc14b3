//! The commands: their configuration and what they decide.
//!
//! Reading files, standard input and the network is the caller's part. What
//! is decided about a configuration, a control action, a log or a deployment
//! is decided here.

use vstd::prelude::*;
use vstd::string::*;
use crate::cli::args::{ControlAction, DeployAction, DiagTarget, InspectTarget};
use crate::cli::errors::{CliError, CliErrorCode, CliResult};
use crate::ids::{parse_uuid, parsed_uuid, random_uuid};
use crate::version::{INIT_MARKER_FILE, VERSION_FILE};
use crate::text::{
    char_count,
    char_to_uppercase,
    chars_of,
    contains_seq,
    contains_text,
    join_path,
    joined_path,
    lines_of,
    lines_of_text,
    owned,
    same_text,
    slice_chars,
    split_at_char,
    split_chars,
    to_uppercase,
    trim,
    trimmed,
    uppercased,
    uppercased_char,
};

verus! {

/// The largest size of the log when none is configured: 1 GiB.
pub const DEFAULT_MAX_WAL_SIZE: u64 = 1073741824;

/// The limit of memory when none is configured: 512 MiB.
pub const DEFAULT_MAX_MEMORY: u64 = 536870912;

/// Configuration file structure.
#[derive(Debug, Clone, PartialEq, Eq)]
pub struct Config {
    /// Data directory (required).
    pub data_dir: String,
    /// Max WAL size in bytes.
    pub max_wal_size_bytes: u64,
    /// Max memory in bytes.
    pub max_memory_bytes: u64,
    /// WAL sync mode; only `fsync` is accepted.
    pub wal_sync_mode: String,
    /// Whether replication is enabled.
    pub replication_enabled: bool,
    /// Replication role: `primary` or `replica`.
    pub replication_role: String,
    /// Replica ID, a UUID.
    pub replica_id: Option<String>,
    /// Primary node address, required for replicas.
    pub primary_address: Option<String>,
}

/// The role of a node in replication.
#[derive(Debug, Clone, Copy, PartialEq, Eq, Structural)]
pub enum ReplicationRole {
    Primary,
    Replica,
}

/// The configuration of replication.
#[derive(Debug, Clone, PartialEq, Eq)]
pub enum ReplicationConfig {
    /// Replication is off.
    Disabled,
    /// The node is the primary.
    Primary,
    /// The node follows the primary at the address given.
    Replica { primary_address: String, replica_id: Option<u128> },
}

/// The state of replication of a node.
#[derive(Debug, Clone, Copy, PartialEq, Eq, Structural)]
pub enum ReplicationState {
    /// Replication is off.
    Disabled,
    /// The node is the active primary.
    PrimaryActive,
    /// The node is an active replica.
    ReplicaActive { replica_id: u128 },
}

/// Why a configuration is refused, if it is: the sync mode is not `fsync`,
/// or a size is zero, looked at in this order.
pub open spec fn config_fault(c: Config) -> Option<Seq<char>> {
    if c.wal_sync_mode@ != "fsync"@ {
        Some("Invalid wal_sync_mode: '"@ + c.wal_sync_mode@ + "'. Only 'fsync' is allowed."@)
    } else if c.max_wal_size_bytes == 0 {
        Some("max_wal_size_bytes must be > 0"@)
    } else if c.max_memory_bytes == 0 {
        Some("max_memory_bytes must be > 0"@)
    } else {
        None
    }
}

/// Whether `r` is the replication configuration that `c` asks for:
/// disabled unless enabled; else by the role, which has to be `primary` or
/// `replica`; a replica needs the primary's address, and its identifier, if
/// given, has to be a UUID.
pub open spec fn is_replication_config(c: Config, r: CliResult<ReplicationConfig>) -> bool {
    if !c.replication_enabled {
        r == Ok::<ReplicationConfig, CliError>(ReplicationConfig::Disabled)
    } else if c.replication_role@ == "primary"@ {
        r == Ok::<ReplicationConfig, CliError>(ReplicationConfig::Primary)
    } else if c.replication_role@ != "replica"@ {
        r is Err && r->Err_0.is(
            CliErrorCode::ConfigError,
            "Invalid replication_role: '"@ + c.replication_role@
                + "'. Must be 'primary' or 'replica'."@,
        )
    } else if c.primary_address is None {
        r is Err && r->Err_0.is(
            CliErrorCode::ConfigError,
            "primary_address is required when replication_role is 'replica'"@,
        )
    } else {
        match c.replica_id {
            None => r == Ok::<ReplicationConfig, CliError>(
                ReplicationConfig::Replica {
                    primary_address: c.primary_address->0,
                    replica_id: None,
                },
            ),
            Some(text) => match parsed_uuid(text@) {
                Ok(id) => r == Ok::<ReplicationConfig, CliError>(
                    ReplicationConfig::Replica {
                        primary_address: c.primary_address->0,
                        replica_id: Some(id),
                    },
                ),
                Err(e) => r is Err && r->Err_0.is(
                    CliErrorCode::ConfigError,
                    "Invalid replica_id UUID: "@ + e,
                ),
            },
        }
    }
}

/// Why the replication settings are refused, if they are.
pub open spec fn replication_fault(c: Config) -> Option<Seq<char>> {
    if !c.replication_enabled || c.replication_role@ == "primary"@ {
        None
    } else if c.replication_role@ != "replica"@ {
        Some(
            "Invalid replication_role: '"@ + c.replication_role@
                + "'. Must be 'primary' or 'replica'."@,
        )
    } else if c.primary_address is None {
        Some("primary_address is required when replication_role is 'replica'"@)
    } else {
        match c.replica_id {
            None => None,
            Some(text) => match parsed_uuid(text@) {
                Ok(_) => None,
                Err(e) => Some("Invalid replica_id UUID: "@ + e),
            },
        }
    }
}

/// Why a configuration does not pass its validation, if it does not: the
/// sync mode and the sizes are looked at first, then the replication
/// settings.
pub open spec fn validation_fault(c: Config) -> Option<Seq<char>> {
    match config_fault(c) {
        Some(fault) => Some(fault),
        None => replication_fault(c),
    }
}

impl Config {
    /// The configuration of a data directory with every option at its
    /// default.
    pub fn with_defaults(data_dir: String) -> (r: Self)
        ensures
            r.data_dir == data_dir,
            r.max_wal_size_bytes == DEFAULT_MAX_WAL_SIZE,
            r.max_memory_bytes == DEFAULT_MAX_MEMORY,
            r.wal_sync_mode@ == "fsync"@,
            !r.replication_enabled,
            r.replication_role@ == "primary"@,
            r.replica_id is None,
            r.primary_address is None,
    {
        Config {
            data_dir,
            max_wal_size_bytes: DEFAULT_MAX_WAL_SIZE,
            max_memory_bytes: DEFAULT_MAX_MEMORY,
            wal_sync_mode: owned("fsync"),
            replication_enabled: false,
            replication_role: owned("primary"),
            replica_id: None,
            primary_address: None,
        }
    }

    /// Validate the configuration: the sync mode and the sizes, then the
    /// replication settings.
    pub fn validate(&self) -> (r: CliResult<()>)
        ensures
            match validation_fault(*self) {
                Some(fault) => r is Err && r->Err_0.is(CliErrorCode::ConfigError, fault),
                None => r is Ok,
            },
    {
        if !same_text(self.wal_sync_mode.as_str(), "fsync") {
            let mut message = owned("Invalid wal_sync_mode: '");
            message.append(self.wal_sync_mode.as_str());
            message.append("'. Only 'fsync' is allowed.");
            return Err(CliError::config_error(message));
        }
        if self.max_wal_size_bytes == 0 {
            return Err(CliError::config_error(owned("max_wal_size_bytes must be > 0")));
        }
        if self.max_memory_bytes == 0 {
            return Err(CliError::config_error(owned("max_memory_bytes must be > 0")));
        }
        let repl = self.to_replication_config();
        match repl {
            Ok(_) => Ok(()),
            Err(e) => Err(e),
        }
    }

    /// Get the data directory.
    pub fn data_path(&self) -> (r: &str)
        ensures
            r@ == self.data_dir@,
    {
        self.data_dir.as_str()
    }

    /// Convert to the replication configuration for use during boot.
    pub fn to_replication_config(&self) -> (r: CliResult<ReplicationConfig>)
        ensures
            is_replication_config(*self, r),
    {
        if !self.replication_enabled {
            return Ok(ReplicationConfig::Disabled);
        }
        if same_text(self.replication_role.as_str(), "primary") {
            return Ok(ReplicationConfig::Primary);
        }
        if !same_text(self.replication_role.as_str(), "replica") {
            let mut message = owned("Invalid replication_role: '");
            message.append(self.replication_role.as_str());
            message.append("'. Must be 'primary' or 'replica'.");
            return Err(CliError::config_error(message));
        }
        let primary_address = match &self.primary_address {
            Some(address) => address.clone(),
            None => {
                return Err(
                    CliError::config_error(
                        owned("primary_address is required when replication_role is 'replica'"),
                    ),
                );
            },
        };
        let replica_id = match &self.replica_id {
            None => None,
            Some(text) => match parse_uuid(text.as_str()) {
                Ok(id) => Some(id),
                Err(e) => {
                    let mut message = owned("Invalid replica_id UUID: ");
                    message.append(e.as_str());
                    return Err(CliError::config_error(message));
                },
            },
        };
        Ok(ReplicationConfig::Replica { primary_address, replica_id })
    }

    /// Initialize the replication state from the configuration: disabled,
    /// the active primary, or an active replica, whose identifier is a fresh
    /// one when the configuration names none.
    pub fn init_replication_state(&self) -> (r: CliResult<ReplicationState>)
        ensures
            exists|repl: CliResult<ReplicationConfig>|
                is_replication_config(*self, repl) && match repl {
                    Err(e) => r == Err::<ReplicationState, CliError>(e),
                    Ok(ReplicationConfig::Disabled) => r == Ok::<ReplicationState, CliError>(
                        ReplicationState::Disabled,
                    ),
                    Ok(ReplicationConfig::Primary) => r == Ok::<ReplicationState, CliError>(
                        ReplicationState::PrimaryActive,
                    ),
                    Ok(ReplicationConfig::Replica { primary_address, replica_id }) => r is Ok
                        && r->Ok_0 is ReplicaActive && (replica_id is Some ==> r->Ok_0->replica_id
                        == replica_id->0),
                },
    {
        let repl = self.to_replication_config();
        match repl {
            Err(e) => Err(e),
            Ok(ReplicationConfig::Disabled) => Ok(ReplicationState::Disabled),
            Ok(ReplicationConfig::Primary) => Ok(ReplicationState::PrimaryActive),
            Ok(ReplicationConfig::Replica { primary_address, replica_id }) => {
                let id = match replica_id {
                    Some(id) => id,
                    None => random_uuid(),
                };
                Ok(ReplicationState::ReplicaActive { replica_id: id })
            },
        }
    }
}

/// The directories that `init` creates in a data directory: those of the
/// log, of the data and of the schemas.
pub fn init_directories(data_dir: &str) -> (r: Vec<String>)
    ensures
        r@.len() == 3,
        r@[0]@ == joined_path(data_dir@, "wal"@),
        r@[1]@ == joined_path(data_dir@, "data"@),
        r@[2]@ == joined_path(data_dir@, "metadata/schemas"@),
{
    let mut dirs: Vec<String> = Vec::new();
    dirs.push(join_path(data_dir, "wal"));
    dirs.push(join_path(data_dir, "data"));
    dirs.push(join_path(data_dir, "metadata/schemas"));
    dirs
}

/// A step of the initialization of a data directory.
#[derive(Debug, Clone, PartialEq, Eq)]
pub enum InitStep {
    /// A directory is created, with the directories above it.
    CreateDirectory(String),
    /// The version marker is written to the path given.
    WriteVersionMarker(String),
    /// The marker of a complete initialization is written to the path
    /// given.
    WriteInitMarker(String),
}

/// Whether the steps are the plan of the initialization of a data
/// directory: the directories of the log, of the data and of the schemas
/// are created, then the version marker is written, and the marker of a
/// complete initialization is written last. Nothing else is written: no
/// record of the log and no marker of a clean shutdown.
pub open spec fn is_init_plan(steps: Seq<InitStep>, data_dir: Seq<char>) -> bool {
    &&& steps.len() == 5
    &&& steps[0] is CreateDirectory
    &&& steps[0]->CreateDirectory_0@ == joined_path(data_dir, "wal"@)
    &&& steps[1] is CreateDirectory
    &&& steps[1]->CreateDirectory_0@ == joined_path(data_dir, "data"@)
    &&& steps[2] is CreateDirectory
    &&& steps[2]->CreateDirectory_0@ == joined_path(data_dir, "metadata/schemas"@)
    &&& steps[3] is WriteVersionMarker
    &&& steps[3]->WriteVersionMarker_0@ == joined_path(data_dir, VERSION_FILE@)
    &&& steps[4] is WriteInitMarker
    &&& steps[4]->WriteInitMarker_0@ == joined_path(data_dir, INIT_MARKER_FILE@)
}

/// In the plan of an initialization the marker of a complete
/// initialization is written last, and only once: every other step comes
/// before it, so an initialization that is interrupted leaves no such
/// marker.
pub proof fn lemma_init_marker_is_written_last(steps: Seq<InitStep>, data_dir: Seq<char>)
    requires
        is_init_plan(steps, data_dir),
    ensures
        steps.last() is WriteInitMarker,
        forall|i: int| 0 <= i < steps.len() - 1 ==> !((#[trigger] steps[i]) is WriteInitMarker),
{
}

/// Decides `init` for a data directory: it is refused when the directory is
/// initialized already, and else the plan of the initialization is
/// returned, for the caller to carry out in its order.
pub fn init(config: &Config, initialized: bool) -> (r: CliResult<Vec<InitStep>>)
    ensures
        match validation_fault(*config) {
            Some(fault) => r is Err && r->Err_0.is(CliErrorCode::ConfigError, fault),
            None => if initialized {
                r is Err && r->Err_0.is(
                    CliErrorCode::AlreadyInitialized,
                    "Data directory is already initialized"@,
                )
            } else {
                r is Ok && is_init_plan(r->Ok_0@, config.data_dir@)
            },
        },
{
    match config.validate() {
        Err(e) => {
            return Err(e);
        },
        Ok(_) => {},
    }
    if initialized {
        return Err(CliError::already_initialized());
    }
    let mut dirs = init_directories(config.data_path());
    let schemas = dirs.pop().unwrap();
    let data = dirs.pop().unwrap();
    let wal = dirs.pop().unwrap();
    let mut steps: Vec<InitStep> = Vec::new();
    steps.push(InitStep::CreateDirectory(wal));
    steps.push(InitStep::CreateDirectory(data));
    steps.push(InitStep::CreateDirectory(schemas));
    steps.push(InitStep::WriteVersionMarker(join_path(config.data_path(), VERSION_FILE)));
    steps.push(InitStep::WriteInitMarker(join_path(config.data_path(), INIT_MARKER_FILE)));
    Ok(steps)
}

/// A word with its first character in upper case.
pub open spec fn capitalized(word: Seq<char>) -> Seq<char> {
    if word.len() == 0 {
        word
    } else {
        uppercased_char(word[0]) + word.skip(1)
    }
}

/// The words in upper camel case: each with its first character in upper
/// case, one after the other.
pub open spec fn pascal_of(words: Seq<Seq<char>>) -> Seq<char>
    decreases words.len(),
{
    if words.len() == 0 {
        Seq::<char>::empty()
    } else {
        pascal_of(words.drop_last()) + capitalized(words.last())
    }
}

/// Convert a name with underscores to upper camel case, as the names of
/// TypeScript interfaces are written.
pub fn to_pascal_case(s: &str) -> (r: String)
    ensures
        r@ == pascal_of(split_at_char(s@, '_')),
{
    let words = split_chars(s, '_');
    let ghost all = split_at_char(s@, '_');
    let mut out = String::new();
    let mut i: usize = 0;
    assert(all.take(0) =~= Seq::<Seq<char>>::empty());
    while i < words.len()
        invariant
            i <= words@.len(),
            words@.len() == all.len(),
            forall|k: int| 0 <= k < words@.len() ==> (#[trigger] words@[k])@ == all[k],
            out@ == pascal_of(all.take(i as int)),
        decreases words@.len() - i,
    {
        let word = words[i].as_str();
        let n = char_count(word);
        proof {
            let next = all.take(i + 1);
            assert(next.drop_last() =~= all.take(i as int));
            assert(next.last() == all[i as int]);
        }
        if n > 0 {
            let first = word.get_char(0);
            let upper = char_to_uppercase(first);
            out.append(upper.as_str());
            out.append(slice_chars(word, 1, n));
            assert(word@.subrange(1, n as int) =~= word@.skip(1));
            assert(out@ =~= pascal_of(all.take(i as int)) + capitalized(word@));
        } else {
            assert(out@ =~= pascal_of(all.take(i as int)) + capitalized(word@));
        }
        i = i + 1;
    }
    assert(all.take(all.len() as int) =~= all);
    out
}

/// The TypeScript interface that is generated for a schema.
pub fn typescript_interface(name: &str) -> (r: String)
    ensures
        r@ == "// Auto-generated TypeScript types for "@ + name@ + "\nexport interface "@
            + pascal_of(split_at_char(name@, '_'))
            + " {\n  // TO"@ + "DO: Generate fields from schema\n  id: string;\n}\n"@,
{
    let mut out = owned("// Auto-generated TypeScript types for ");
    out.append(name);
    out.append("\nexport interface ");
    let pascal = to_pascal_case(name);
    out.append(pascal.as_str());
    out.append(" {\n  // TO");
    out.append("DO: Generate fields from schema\n  id: string;\n}\n");
    out
}

/// Whether a line of the log passes the filter of a level: no level passes
/// every line, and a level passes the lines that hold it, without regard to
/// case.
pub open spec fn line_passes(line: Seq<char>, level: Option<Seq<char>>) -> bool {
    match level {
        None => true,
        Some(l) => contains_seq(uppercased(line), uppercased(l)),
    }
}

/// The last `count` of the texts, or all of them where there are no more.
pub open spec fn last_of(lines: Seq<Seq<char>>, count: nat) -> Seq<Seq<char>> {
    if lines.len() <= count {
        lines
    } else {
        lines.skip(lines.len() - count)
    }
}

/// The lines of a log to show: those that pass the filter of the level, and
/// of these the last `count`.
pub open spec fn selected_lines(content: Seq<char>, count: nat, level: Option<Seq<char>>) -> Seq<
    Seq<char>,
> {
    last_of(lines_of_text(content).filter(|line: Seq<char>| line_passes(line, level)), count)
}

/// The text of a level, if one is given.
pub open spec fn level_text(level: Option<String>) -> Option<Seq<char>> {
    match level {
        Some(l) => Some(l@),
        None => None,
    }
}

/// What `logs` shows of a log.
#[derive(Debug, Clone, PartialEq, Eq)]
pub struct LogSelection {
    /// The lines shown.
    pub lines: Vec<String>,
    /// The number of lines in the log.
    pub total: usize,
}

/// Selects the lines of a log to show.
pub fn logs(content: &str, count: usize, level: &Option<String>) -> (r: LogSelection)
    ensures
        r.total == lines_of_text(content@).len(),
        r.lines@.len() == selected_lines(
            content@,
            count as nat,
            level_text(*level),
        ).len(),
        forall|i: int|
            0 <= i < r.lines@.len() ==> (#[trigger] r.lines@[i])@ == selected_lines(
                content@,
                count as nat,
                match *level {
                    Some(l) => Some(l@),
                    None => None,
                },
            )[i],
{
    let ghost wanted: Option<Seq<char>> = level_text(*level);
    let all = lines_of(content);
    let level_upper = match level {
        Some(l) => Some(to_uppercase(l.as_str())),
        None => None,
    };
    let ghost texts = lines_of_text(content@);
    let mut filtered: Vec<String> = Vec::new();
    let mut i: usize = 0;
    proof {
        assert(texts.take(0) =~= Seq::<Seq<char>>::empty());
        reveal(Seq::filter);
    }
    while i < all.len()
        invariant
            i <= all@.len(),
            all@.len() == texts.len(),
            forall|k: int| 0 <= k < all@.len() ==> (#[trigger] all@[k])@ == texts[k],
            wanted == level_text(*level),
            level_upper is Some == wanted is Some,
            level_upper is Some ==> level_upper->0@ == uppercased(wanted->0),
            filtered@.len() == texts.take(i as int).filter(
                |line: Seq<char>| line_passes(line, wanted),
            ).len(),
            forall|k: int|
                0 <= k < filtered@.len() ==> (#[trigger] filtered@[k])@ == texts.take(
                    i as int,
                ).filter(|line: Seq<char>| line_passes(line, wanted))[k],
        decreases all@.len() - i,
    {
        let ghost before = texts.take(i as int).filter(|line: Seq<char>| line_passes(line, wanted));
        proof {
            let next = texts.take(i + 1);
            assert(next.drop_last() =~= texts.take(i as int));
            assert(next.last() == texts[i as int]);
            reveal(Seq::filter);
        }
        let passes = match &level_upper {
            None => true,
            Some(l) => {
                let upper = to_uppercase(all[i].as_str());
                contains_text(upper.as_str(), l.as_str())
            },
        };
        if passes {
            let ghost old_filtered = filtered@;
            filtered.push(all[i].clone());
            proof {
                let now = texts.take(i + 1).filter(|line: Seq<char>| line_passes(line, wanted));
                assert(now =~= before.push(texts[i as int]));
                assert forall|k: int| 0 <= k < filtered@.len() implies (#[trigger] filtered@[k])@
                    == now[k] by {
                    if k < old_filtered.len() {
                        assert(filtered@[k] == old_filtered[k]);
                    }
                }
            }
        }
        i = i + 1;
    }
    assert(texts.take(texts.len() as int) =~= texts);
    let total = all.len();
    let skip = if filtered.len() > count {
        filtered.len() - count
    } else {
        0
    };
    let ghost passing = texts.filter(|line: Seq<char>| line_passes(line, wanted));
    let mut lines: Vec<String> = Vec::new();
    let mut k: usize = skip;
    while k < filtered.len()
        invariant
            skip <= k <= filtered@.len(),
            filtered@.len() == passing.len(),
            forall|j: int| 0 <= j < filtered@.len() ==> (#[trigger] filtered@[j])@ == passing[j],
            lines@.len() == k - skip,
            forall|j: int| 0 <= j < lines@.len() ==> (#[trigger] lines@[j])@ == passing[skip + j],
        decreases filtered@.len() - k,
    {
        let ghost old_lines = lines@;
        lines.push(filtered[k].clone());
        proof {
            assert forall|j: int| 0 <= j < lines@.len() implies (#[trigger] lines@[j])@
                == passing[skip + j] by {
                if j < old_lines.len() {
                    assert(lines@[j] == old_lines[j]);
                }
            }
        }
        k = k + 1;
    }
    LogSelection { lines, total }
}

/// A command of inspection.
#[derive(Debug, Clone, Copy, PartialEq, Eq, Structural)]
pub enum InspectionCommand {
    InspectClusterState,
    InspectNode { node_id: u128 },
    InspectReplicationStatus,
    InspectPromotionState,
}

/// A command of diagnosis.
#[derive(Debug, Clone, Copy, PartialEq, Eq, Structural)]
pub enum DiagnosticCommand {
    RunDiagnostics,
    InspectWal,
    InspectSnapshots,
}

/// A command that changes the cluster.
#[derive(Debug, Clone, PartialEq, Eq)]
#[allow(inconsistent_fields)]
pub enum ControlCommand {
    RequestPromotion { replica_id: u128, reason: Option<String> },
    RequestDemotion { node_id: u128, reason: Option<String> },
    ForcePromotion { replica_id: u128, reason: String, acknowledged_risks: Vec<String> },
}

/// A command of the control plane.
#[derive(Debug, Clone, PartialEq, Eq)]
pub enum ControlPlaneCommand {
    Inspection(InspectionCommand),
    Diagnostic(DiagnosticCommand),
    Control(ControlCommand),
}

/// The authority under which a command is given.
#[derive(Debug, Clone, Copy, PartialEq, Eq, Structural)]
pub enum AuthorityLevel {
    Observer,
    Operator,
}

/// The context of authority of a command.
#[derive(Debug, Clone, Copy, PartialEq, Eq, Structural)]
pub struct AuthorityContext {
    pub level: AuthorityLevel,
}

impl AuthorityContext {
    /// The authority of an operator.
    pub fn operator() -> (r: Self)
        ensures
            r.level == AuthorityLevel::Operator,
    {
        AuthorityContext { level: AuthorityLevel::Operator }
    }
}

/// The identifier that a text stands for, or the error that it is no UUID.
pub open spec fn is_uuid_result(text: Seq<char>, r: CliResult<u128>) -> bool {
    match parsed_uuid(text) {
        Ok(id) => r == Ok::<u128, CliError>(id),
        Err(e) => r is Err && r->Err_0.is(
            CliErrorCode::ConfigError,
            "Invalid UUID '"@ + text + "': "@ + e,
        ),
    }
}

/// Whether an error says that a text is no UUID, for the reason given.
pub open spec fn says_no_uuid(e: CliError, text: Seq<char>, reason: Seq<char>) -> bool {
    e.is(CliErrorCode::ConfigError, "Invalid UUID '"@ + text + "': "@ + reason)
}

/// Whether a command forces the promotion of the replica given, for the
/// reason given and with the risks that the text acknowledges.
pub open spec fn forces_promotion(
    command: ControlPlaneCommand,
    replica_id: u128,
    reason: String,
    risks: Seq<char>,
) -> bool {
    &&& command is Control
    &&& command->Control_0 is ForcePromotion
    &&& command->Control_0->ForcePromotion_replica_id == replica_id
    &&& command->Control_0->ForcePromotion_reason == reason
    &&& command->Control_0->ForcePromotion_acknowledged_risks@.len() == split_at_char(
        risks,
        ',',
    ).len()
    &&& forall|i: int|
        0 <= i < split_at_char(risks, ',').len()
            ==> (#[trigger] command->Control_0->ForcePromotion_acknowledged_risks@[i])@ == trimmed(
            split_at_char(risks, ',')[i],
        )
}

/// Parse a UUID from a string.
pub fn parse_uuid_arg(s: &str) -> (r: CliResult<u128>)
    ensures
        is_uuid_result(s@, r),
{
    match parse_uuid(s) {
        Ok(id) => Ok(id),
        Err(e) => {
            let mut message = owned("Invalid UUID '");
            message.append(s);
            message.append("': ");
            message.append(e.as_str());
            Err(CliError::config_error(message))
        },
    }
}

/// The risks that an operator acknowledges: the parts of the text between
/// commas, each without white space around it.
pub fn acknowledged_risks(text: &str) -> (r: Vec<String>)
    ensures
        r@.len() == split_at_char(text@, ',').len(),
        forall|i: int|
            0 <= i < r@.len() ==> (#[trigger] r@[i])@ == trimmed(split_at_char(text@, ',')[i]),
{
    let parts = split_chars(text, ',');
    let mut risks: Vec<String> = Vec::new();
    let mut i: usize = 0;
    while i < parts.len()
        invariant
            i <= parts@.len(),
            parts@.len() == split_at_char(text@, ',').len(),
            forall|k: int|
                0 <= k < parts@.len() ==> (#[trigger] parts@[k])@ == split_at_char(text@, ',')[k],
            risks@.len() == i,
            forall|k: int|
                0 <= k < i ==> (#[trigger] risks@[k])@ == trimmed(split_at_char(text@, ',')[k]),
        decreases parts@.len() - i,
    {
        let ghost old_risks = risks@;
        risks.push(owned(trim(parts[i].as_str())));
        proof {
            assert forall|k: int| 0 <= k < i + 1 implies (#[trigger] risks@[k])@ == trimmed(
                split_at_char(text@, ',')[k],
            ) by {
                if k < i {
                    assert(risks@[k] == old_risks[k]);
                }
            }
        }
        i = i + 1;
    }
    risks
}

/// Build a control plane command from an action of the command line, under
/// the authority of an operator. An identifier that is no UUID is refused.
pub fn build_command(action: ControlAction) -> (r: CliResult<
    (ControlPlaneCommand, AuthorityContext),
>)
    ensures
        r is Ok ==> r->Ok_0.1.level == AuthorityLevel::Operator,
        match action {
            ControlAction::Inspect { target } => match target {
                InspectTarget::Cluster => r is Ok && r->Ok_0.0 == ControlPlaneCommand::Inspection(
                    InspectionCommand::InspectClusterState,
                ),
                InspectTarget::Node { node_id } => match parsed_uuid(node_id@) {
                    Ok(id) => r is Ok && r->Ok_0.0 == ControlPlaneCommand::Inspection(
                        InspectionCommand::InspectNode { node_id: id },
                    ),
                    Err(e) => r is Err && says_no_uuid(r->Err_0, node_id@, e),
                },
                InspectTarget::Replication => r is Ok && r->Ok_0.0
                    == ControlPlaneCommand::Inspection(InspectionCommand::InspectReplicationStatus),
                InspectTarget::Promotion => r is Ok && r->Ok_0.0
                    == ControlPlaneCommand::Inspection(InspectionCommand::InspectPromotionState),
            },
            ControlAction::Diag { target } => r is Ok && r->Ok_0.0
                == ControlPlaneCommand::Diagnostic(
                match target {
                    DiagTarget::Diagnostics { .. } => DiagnosticCommand::RunDiagnostics,
                    DiagTarget::Wal => DiagnosticCommand::InspectWal,
                    DiagTarget::Snapshots => DiagnosticCommand::InspectSnapshots,
                },
            ),
            ControlAction::Promote { replica_id, reason, confirm } => match parsed_uuid(
                replica_id@,
            ) {
                Ok(id) => r is Ok && r->Ok_0.0 == ControlPlaneCommand::Control(
                    ControlCommand::RequestPromotion { replica_id: id, reason },
                ),
                Err(e) => r is Err && says_no_uuid(r->Err_0, replica_id@, e),
            },
            ControlAction::Demote { node_id, reason, confirm } => match parsed_uuid(node_id@) {
                Ok(id) => r is Ok && r->Ok_0.0 == ControlPlaneCommand::Control(
                    ControlCommand::RequestDemotion { node_id: id, reason },
                ),
                Err(e) => r is Err && says_no_uuid(r->Err_0, node_id@, e),
            },
            ControlAction::ForcePromote {
                replica_id,
                reason,
                acknowledge_risks,
                confirm,
            } => match parsed_uuid(replica_id@) {
                Ok(id) => r is Ok && forces_promotion(r->Ok_0.0, id, reason, acknowledge_risks@),
                Err(e) => r is Err && says_no_uuid(r->Err_0, replica_id@, e),
            },
        },
{
    let authority = AuthorityContext::operator();
    let command = match action {
        ControlAction::Inspect { target } => {
            let inspection = match target {
                InspectTarget::Cluster => InspectionCommand::InspectClusterState,
                InspectTarget::Node { node_id } => {
                    match parse_uuid_arg(node_id.as_str()) {
                        Ok(id) => InspectionCommand::InspectNode { node_id: id },
                        Err(e) => {
                            return Err(e);
                        },
                    }
                },
                InspectTarget::Replication => InspectionCommand::InspectReplicationStatus,
                InspectTarget::Promotion => InspectionCommand::InspectPromotionState,
            };
            ControlPlaneCommand::Inspection(inspection)
        },
        ControlAction::Diag { target } => {
            let diagnostic = match target {
                DiagTarget::Diagnostics { .. } => DiagnosticCommand::RunDiagnostics,
                DiagTarget::Wal => DiagnosticCommand::InspectWal,
                DiagTarget::Snapshots => DiagnosticCommand::InspectSnapshots,
            };
            ControlPlaneCommand::Diagnostic(diagnostic)
        },
        ControlAction::Promote { replica_id, reason, confirm } => {
            match parse_uuid_arg(replica_id.as_str()) {
                Ok(id) => ControlPlaneCommand::Control(
                    ControlCommand::RequestPromotion { replica_id: id, reason },
                ),
                Err(e) => {
                    return Err(e);
                },
            }
        },
        ControlAction::Demote { node_id, reason, confirm } => {
            match parse_uuid_arg(node_id.as_str()) {
                Ok(id) => ControlPlaneCommand::Control(
                    ControlCommand::RequestDemotion { node_id: id, reason },
                ),
                Err(e) => {
                    return Err(e);
                },
            }
        },
        ControlAction::ForcePromote { replica_id, reason, acknowledge_risks, confirm } => {
            match parse_uuid_arg(replica_id.as_str()) {
                Ok(id) => ControlPlaneCommand::Control(
                    ControlCommand::ForcePromotion {
                        replica_id: id,
                        reason,
                        acknowledged_risks: acknowledged_risks(acknowledge_risks.as_str()),
                    },
                ),
                Err(e) => {
                    return Err(e);
                },
            }
        },
    };
    Ok((command, authority))
}

/// The Docker Compose file that `deploy docker` writes.
pub const DOCKER_COMPOSE: &'static str = "# AeroDB Docker Compose Configuration\n# Auto-generated - customize as needed\n\nversion: \"3.8\"\n\nservices:\n  aerodb:\n    image: aerodb/aerodb:latest\n    ports:\n      - \"54321:54321\"\n    volumes:\n      - aerodb_data:/var/lib/aerodb\n      - ./aerodb.json:/etc/aerodb/config.json:ro\n    environment:\n      - AERODB_CONFIG=/etc/aerodb/config.json\n    restart: unless-stopped\n    healthcheck:\n      test: [\"CMD\", \"aerodb\", \"control\", \"diag\", \"diagnostics\"]\n      interval: 30s\n      timeout: 10s\n      retries: 3\n\nvolumes:\n  aerodb_data:\n";

/// The Kubernetes deployment that `deploy k8s` writes.
pub const K8S_DEPLOYMENT: &'static str = "# AeroDB Kubernetes Deployment\napiVersion: apps/v1\nkind: Deployment\nmetadata:\n  name: aerodb\n  labels:\n    app: aerodb\nspec:\n  replicas: 1\n  selector:\n    matchLabels:\n      app: aerodb\n  template:\n    metadata:\n      labels:\n        app: aerodb\n    spec:\n      containers:\n      - name: aerodb\n        image: aerodb/aerodb:latest\n        ports:\n        - containerPort: 54321\n        volumeMounts:\n        - name: data\n          mountPath: /var/lib/aerodb\n        - name: config\n          mountPath: /etc/aerodb\n        env:\n        - name: AERODB_CONFIG\n          value: /etc/aerodb/config.json\n      volumes:\n      - name: data\n        persistentVolumeClaim:\n          claimName: aerodb-data\n      - name: config\n        configMap:\n          name: aerodb-config\n";

/// The Kubernetes service that `deploy k8s` writes.
pub const K8S_SERVICE: &'static str = "# AeroDB Kubernetes Service\napiVersion: v1\nkind: Service\nmetadata:\n  name: aerodb\nspec:\n  selector:\n    app: aerodb\n  ports:\n  - port: 54321\n    targetPort: 54321\n  type: ClusterIP\n";

/// The Kubernetes volume claim that `deploy k8s` writes.
pub const K8S_PVC: &'static str = "# AeroDB Persistent Volume Claim\napiVersion: v1\nkind: PersistentVolumeClaim\nmetadata:\n  name: aerodb-data\nspec:\n  accessModes:\n  - ReadWriteOnce\n  resources:\n    requests:\n      storage: 10Gi\n";

/// The environment file that `deploy env` writes.
pub const ENV_TEMPLATE: &'static str = "# AeroDB Environment Configuration\n# Copy this file to .env and customize\n\n# Server Configuration\nAERODB_HOST=0.0.0.0\nAERODB_PORT=54321\n\n# Data Directory\nAERODB_DATA_DIR=/var/lib/aerodb\n\n# JWT Configuration\nAERODB_JWT_SECRET=your-super-secret-jwt-key-change-in-production\nAERODB_JWT_EXPIRY=3600\n\n# WAL Configuration\nAERODB_MAX_WAL_SIZE=1073741824\nAERODB_WAL_SYNC_MODE=fsync\n\n# Replication (optional)\n# AERODB_REPLICATION_ENABLED=false\n# AERODB_REPLICATION_ROLE=primary\n\n# Logging\nAERODB_LOG_LEVEL=info\n";

/// A file that a deployment command writes.
#[derive(Debug, Clone, PartialEq, Eq)]
pub struct DeployFile {
    /// The file's path.
    pub path: String,
    /// The file's content.
    pub content: &'static str,
}

/// The files that a deployment command writes: the Compose file, the three
/// Kubernetes manifests in the output directory, or the environment file;
/// none for the status.
pub fn deploy(action: &DeployAction) -> (r: Vec<DeployFile>)
    ensures
        match *action {
            DeployAction::Docker { output } => r@.len() == 1 && r@[0].path@ == output@
                && r@[0].content@ == DOCKER_COMPOSE@,
            DeployAction::K8s { output } => {
                &&& r@.len() == 3
                &&& r@[0].path@ == joined_path(output@, "deployment.yaml"@)
                &&& r@[0].content@ == K8S_DEPLOYMENT@
                &&& r@[1].path@ == joined_path(output@, "service.yaml"@)
                &&& r@[1].content@ == K8S_SERVICE@
                &&& r@[2].path@ == joined_path(output@, "pvc.yaml"@)
                &&& r@[2].content@ == K8S_PVC@
            },
            DeployAction::Status => r@.len() == 0,
            DeployAction::Env { output } => r@.len() == 1 && r@[0].path@ == output@
                && r@[0].content@ == ENV_TEMPLATE@,
        },
{
    let mut files: Vec<DeployFile> = Vec::new();
    match action {
        DeployAction::Docker { output } => {
            files.push(DeployFile { path: output.clone(), content: DOCKER_COMPOSE });
        },
        DeployAction::K8s { output } => {
            files.push(
                DeployFile {
                    path: join_path(output.as_str(), "deployment.yaml"),
                    content: K8S_DEPLOYMENT,
                },
            );
            files.push(
                DeployFile { path: join_path(output.as_str(), "service.yaml"), content: K8S_SERVICE },
            );
            files.push(
                DeployFile { path: join_path(output.as_str(), "pvc.yaml"), content: K8S_PVC },
            );
        },
        DeployAction::Status => {},
        DeployAction::Env { output } => {
            files.push(DeployFile { path: output.clone(), content: ENV_TEMPLATE });
        },
    }
    files
}

} // verus!
