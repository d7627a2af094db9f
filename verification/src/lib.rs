pub mod camera;
pub mod capture_flow;
pub mod capture_store;
pub mod config;
pub mod error;
pub mod handlers;
pub mod laws;
pub mod models;
pub mod operation_laws;
pub mod text;
