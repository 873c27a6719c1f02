//! Verified core of AgentMesh: configuration, domain model, provenance and
//! the decisions of the workflow daemon.

pub mod a2a;
pub mod auth;
pub mod cleanup;
pub mod client;
pub mod collections;
pub mod config;
pub mod cross_context;
pub mod error;
pub mod ids;
pub mod json;
pub mod lease;
pub mod model;
pub mod paths;
pub mod planner;
pub mod protocol;
pub mod provenance;
pub mod provenance_service;
pub mod recovery;
pub mod registry;
pub mod replan;
pub mod runtime;
pub mod server;
pub mod text;
pub mod workflow;
