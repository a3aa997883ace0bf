//! Provisioning library for a multi-node container cluster.
//!
//! The library holds the decision logic of the tool: parsing the node
//! descriptor file, synthesizing the deployment descriptor from a service
//! selection, building the per-node remote commands, classifying command
//! outcomes into per-node reports, and the cluster lifecycle state machine.
//! Everything that touches the outside world (spawning processes, reading
//! files and environment variables, writing the descriptor to disk) lives in
//! the surrounding binary, which feeds this library plain values and carries
//! its decisions out.

pub mod bootstrap;
pub mod config;
pub mod descriptor;
pub mod executor;
pub mod fleet;
pub mod lifecycle;
pub mod models;
pub mod paths;
pub mod selection;
pub mod strutil;
pub mod synthesize;
