//! A command-line helper that keeps a list of DuckDNS domains and installs,
//! starts and stops the executor service that updates them.
//!
//! The library holds the decisions: the domain list operations, the paths the
//! tool uses, the text of the service unit and of the log report, the edit of
//! the shell start-up file, and the steps of starting and stopping the service.

pub mod text;
pub mod entry;
pub mod domains;
pub mod paths;
pub mod install;
pub mod proc_info;
pub mod service;
pub mod logs;
pub mod commands;
