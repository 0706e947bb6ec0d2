//! Provisioning and orchestration engine for a multi-node cloud software
//! stack: decision logic for retry and poll loops, command-string builders,
//! cloud API payload models, configuration-file generation, and the
//! deployment pipeline state machine. Network and shell I/O stay outside the
//! library; every decision about what to send, what an answer means, and
//! when to wait, retry or give up is taken and verified here.
pub mod args;
pub mod command;
pub mod config;
pub mod errors;
pub mod inifile;
pub mod models;
pub mod polling;
pub mod remote;
pub mod request;
pub mod strutil;
pub mod utils;
pub mod worker;
