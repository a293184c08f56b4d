//! The logic of `plz`, which checks interactive shell commands before they run.
//!
//! A client hands each command to a daemon of the same user. The daemon answers
//! from its cache of verdicts, or asks a provider for one; where the verdict
//! calls for it, the client has the user confirm the command.
//!
//! This library decides; it does no input or output. What takes several steps is
//! a machine: the program performs an action, tells what came of it, and is told
//! the next action.
//!
//! - [`cli`]: what the program is asked to do, and how it ends
//! - [`check`]: a client checks a command
//! - [`connect`]: a client reaches the daemon
//! - [`daemon`]: the life of the daemon
//! - [`handle`]: the daemon handles a request
//! - [`provider`]: the provider is asked, and asked again
//! - [`cache`]: the key under which a verdict is kept
//! - [`store`]: what is kept, and the laws of the cache
//! - [`whole`]: client and daemon together
//! - [`protocol`]: the messages between them
//! - [`edit`]: the prompt is edited
//! - [`settings`], [`status`], [`terminal`], [`paths`]: what the user sees and sets
//! - [`json`], [`text`], [`error`]: what all of them use
pub mod cache;
pub mod check;
pub mod cli;
pub mod connect;
pub mod daemon;
pub mod edit;
pub mod error;
pub mod handle;
pub mod json;
pub mod paths;
pub mod protocol;
pub mod provider;
pub mod settings;
pub mod status;
pub mod store;
pub mod terminal;
pub mod text;
pub mod whole;
