//! Planning logic of a desktop package installer: path arithmetic on Unix
//! paths, naming of installed applications, `.desktop` file handling,
//! ranking of executables and icons, and the checks that keep every write
//! lexically under the directories the user chose.
pub mod text;
pub mod paths;
pub mod order;
pub mod sorting;
pub mod errors;
pub mod model;
pub mod names;
pub mod desktop;
pub mod candidates;
pub mod install;
pub mod report;
pub mod flow;
pub mod copy_flow;
pub mod install_flow;
pub mod preview_flow;
pub mod search;
pub mod walk;
pub mod removal_flow;
pub mod listing_flow;
pub mod laws;
pub mod flow_laws;
pub mod search_runs;
