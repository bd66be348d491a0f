//! Verified core of a small tracing-enabled web service: its configuration,
//! request handlers, the gRPC greeting service, trace-context carriers over
//! gRPC metadata, and the request-forwarding rules of its web front end.

pub mod config;
pub mod metadata;
pub mod holdings;
pub mod grpc;
pub mod statemachine;
pub mod web_ui;
pub mod handlers;
pub mod web_api;
pub mod telemetry;
