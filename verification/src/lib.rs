//! Build orchestration engine of a scriptable native-code build tool:
//! the persistent cache, the target backends and the workspace that wires
//! them together.

pub mod args;
pub mod backend;
pub mod blob;
pub mod build_cache;
pub mod cache;
pub mod cli;
pub mod command;
pub mod composite;
pub mod editor;
pub mod either;
pub mod environment;
pub mod error;
pub mod fields;
pub mod filesystem;
pub mod flag_type;
pub mod format;
pub mod hashing;
pub mod incremental;
pub mod init;
pub mod paths;
pub mod plan;
pub mod project;
pub mod project_language;
pub mod project_type;
pub mod relative;
pub mod report;
pub mod run;
pub mod search;
pub mod source_file_collection;
pub mod source_file_type;
pub mod target;
pub mod task_manager;
pub mod text;
pub mod toml_store;
pub mod vendor_env;
pub mod workspace;
