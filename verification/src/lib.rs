//! A TCP port scanner's decision core.
//!
//! The crate holds everything a scan decides: which configurations are
//! accepted, in which order ports are handed out under a bounded number of
//! concurrency slots, what a single port's task does after each network
//! outcome, when a banner capture reads on, ends or fails, how raw banner
//! bytes become text, how a result is rendered, and how the command line's
//! options are read.
//! Sockets, threads and the console belong to the caller, which performs the
//! actions that the state machines here ask for and hands back what happened.

pub mod banner;
pub mod capture;
pub mod config;
pub mod coordinator;
pub mod options;
pub mod outcome;
pub mod report;
pub mod slots;
pub mod task;
