//! RunnerBuddy keeps track of the CI runners installed on one machine: it
//! records them as profiles, supervises them through the service manager
//! of the operating system, finds installs that it does not know yet, and
//! moves an install into its own storage without losing it.
//!
//! The library decides and records; it touches neither files nor
//! processes. Its functions take what was observed and return what is to be
//! done, so that every rule of the workflow is stated in a contract and proved.

pub mod text;
pub mod errors;
pub mod config;
pub mod host;
pub mod json;
pub mod plist_file;
pub mod logging;
pub mod procedure;
pub mod service_mgmt;
pub mod store;
pub mod load;
pub mod discovery;
pub mod migration;
pub mod profiles;
pub mod state;
pub mod runner_mgmt;
pub mod github_api;
pub mod logs;
pub mod util;
pub mod secrets;
pub mod gh_cli;
