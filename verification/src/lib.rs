//! Verified core of the Oxide command line tool: configuration, aliases,
//! colors, update checks and the small text-processing rules of the commands.
pub mod text;
pub mod toml;
pub mod error;
pub mod config_map;
pub mod config;
pub mod config_from_file;
pub mod config_alias;
pub mod env;
pub mod colors;
pub mod types;
pub mod cmd_open;
pub mod cmd_version;
pub mod config_from_env;
pub mod update;
pub mod ssh;
pub mod config_file;
pub mod iostreams;
pub mod context;
pub mod cmd_api;
pub mod cmd_generate;
pub mod naming;
pub mod cmd_config;
pub mod cmd_alias;
pub mod cmd_auth;
pub mod cli;
pub mod confirm;
pub mod cmd_org;
pub mod cmd_instance;
pub mod cmd_disk;
pub mod cmd_project;
pub mod cmd_vpc;
pub mod cmd_router;
pub mod cmd_route;
pub mod cmd_ssh_key;
pub mod cmd_update;
pub mod docs;
pub mod docs_markdown;
pub mod docs_man;
pub mod serial;
pub mod crud;
