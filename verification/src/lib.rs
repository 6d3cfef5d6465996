//! A small framework for building Kubernetes-style controllers.
//!
//! The framework has two halves. The reconciliation engine drives a single
//! resource type in a single namespace through a finalizer-guarded reconcile
//! protocol: every observed object is classified into an apply or cleanup
//! event, the controller's finalizer is added or removed as the protocol
//! demands, and handler failures are routed to a fixed-backoff error policy.
//! The composition layer combines any number of such controllers into one
//! process with aggregated preflight validation and aggregated startup
//! errors.
//!
//! All cluster traffic (namespace lookup, list, watch, patch) is performed by
//! the embedding process; this crate takes the outcomes of those calls as
//! plain values and decides every step of the protocol.

pub mod action;
pub mod app;
pub mod config;
pub mod controller;
pub mod errors;
pub mod metrics;
pub mod preflight;
pub mod resource;
pub mod service;
pub mod tfws;
pub mod workspace;
