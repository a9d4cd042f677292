//! Decision core of a packet-filter control utility.
//!
//! The library computes everything the tool decides: the text of the
//! packet-filter rule files, the idempotent anchor insertion into the main
//! filter configuration, the root-privilege decision, and the exact plan of
//! file writes and commands that each subcommand performs. Running the plan
//! (spawning processes, touching files) is left to the binary around it.

pub mod conf;
pub mod plan;
pub mod root;
pub mod rules;
pub mod text;

pub use conf::updated_pf_conf;
pub use plan::remove_rules;
pub use plan::save_state;
pub use plan::scan_network;
pub use plan::setup_bandwidth_limit;
pub use plan::setup_monitoring;
pub use plan::show_status;
pub use plan::CliError;
pub use plan::Step;
pub use root::is_root;
pub use rules::bandwidth_limit_rules;
pub use rules::monitoring_rules;
pub use text::str_contains;
pub use text::u32_to_string;
