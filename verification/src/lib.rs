//! Plugin registry and external-process lifecycle core.
//!
//! The crate holds the decisions of a small plugin orchestrator: which plugin
//! answers a request, whether a request is well formed, where a model file is
//! fetched from and stored, and which service process is tracked for which
//! task category. It performs no I/O: a host carries out the effects that the
//! plans name and reports their outcomes back.
//!
//! - [`model`], [`error`]: the values of the plugin contract.
//! - [`registry`]: the plugin contract and the registry of plugins.
//! - [`routes`]: the operations by plugin identifier, with failures as status
//!   codes.
//! - [`llmserver`]: the external-process plugin.
//! - [`download`], [`lifecycle`], [`process`]: what the plugin plans and
//!   tracks.
//! - [`text`]: the text predicates underneath.
//! - [`trusted`]: the calls into unverified code.

pub mod download;
pub mod error;
pub mod lifecycle;
pub mod llmserver;
pub mod model;
pub mod process;
pub mod registry;
pub mod routes;
pub mod text;
pub mod trusted;
