//! The external schema: what callers send and receive.

pub mod create_deployment;
pub mod get_connection_string;
pub mod list_deployments;

