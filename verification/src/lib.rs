//! AeroDB: the durability and recovery core of a document database, and
//! the rules of the services around it.
//!
//! The core turns a stream of mutations into a state that survives crashes
//! and can be rebuilt from the log: the write-ahead log with its frame
//! format ([`wal`]), the store that records are applied to and its page
//! ([`storage`], [`page`]), the schemas and the indexes ([`schema`],
//! [`index`]), recovery ([`recovery`], [`database`]), snapshots and backups
//! ([`snapshot`], [`backup`]), the path of a write ([`write_path`]), and
//! what these promise together ([`durability`]). Around it stand the layers that protect it: admission
//! and backpressure, resource accounting with read-only mode, the
//! confirmation of destructive operations, and the version check.
//!
//! Every function carries a contract. The contracts are proved, but for the
//! few calls into outside code, whose contracts say what is taken on trust.
//! The file system and the network are the caller's: what is read comes in
//! as plain values, and what touches the disk goes out as commands that the
//! caller carries out and reports back on. So does the time, wherever a
//! result depends on it.

pub mod admission_control;
pub mod auth;
pub mod backpressure;
pub mod backup;
pub mod cli;
pub mod config_validator;
pub mod control_plane;
pub mod core_error;
pub mod dangerous_ops;
pub mod database;
pub mod document;
pub mod durability;
pub mod functions;
pub mod http_server;
pub mod ids;
pub mod index;
pub mod migrations;
pub mod observability;
pub mod page;
pub mod panic_handler;
pub mod query_limits;
pub mod realtime;
pub mod recovery;
pub mod resource_limits;
pub mod rest_api;
pub mod schema;
pub mod seqs;
pub mod snapshot;
pub mod storage;
pub mod text;
pub mod version;
pub mod wal;
pub mod write_path;
