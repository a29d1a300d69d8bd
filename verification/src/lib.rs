//! Decision core of the PurpleSector telemetry collector and ingress gateway.
//!
//! The library reads simulator datagrams, assembles frames into batches, drives the
//! transport and pipeline life cycles, and decides what the gateway accepts and
//! publishes. It touches neither network nor disk: a shell hands it plain values and
//! carries out the actions it returns.

pub mod auth;
pub mod batch;
pub mod capture;
pub mod config;
pub mod delivery;
pub mod float32;
pub mod gateway;
pub mod grpc;
pub mod icon;
pub mod laws;
pub mod pipeline;
pub mod proto;
pub mod text;
pub mod time;
pub mod wire;
