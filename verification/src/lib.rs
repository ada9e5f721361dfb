//! Verified core of a parallel SSH dispatcher.
//!
//! The crate decides; the embedding program talks to the network. Every
//! function here is pure: it turns a configuration into a registry of
//! distinct hosts, a registry and an operation into one task per host, and
//! the state of one host's session together with what happened on the wire
//! into the next state and the next thing to do.
//!
//! There are two clients. [`SshClient`] is one host: its configuration and
//! its session. [`MasshClient`] is many hosts: the registry, and the tasks of
//! an operation.

pub mod config;
pub mod failure;
pub mod host;
pub mod massh_client;
pub mod report;
pub mod ssh_client;
pub mod text;

pub use config::{HostLookup, MasshConfig, MasshHostConfig, SSH_PORT};
pub use failure::{Failure, FailureKind};
pub use host::{host_name, Endpoint, HostAddr, MasshHost};
pub use massh_client::{Concurrency, EffectiveHost, HostTask, MasshClient};
pub use report::{shown_bytes, shown_text, signed_decimal_string, summary_line, Tally, Verdict};
pub use ssh_client::{
    carry_out, confirm_authenticated, CommandOutput, ConnectStep, Request, SshAuth, SshClient,
    Step,
};
pub use text::{decimal_string, find_char, join_path};
