//! The boundary between the stable external schema of local Atlas deployments
//! and the deployment engine's own representation.

pub mod engine;
pub mod error;
pub mod ip;
pub mod ip_laws;
pub mod models;
pub mod text;
pub mod version;

