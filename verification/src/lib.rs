//! The decisions of a Flight SQL server: who may open a session, which session a request
//! belongs to, which plans and results are kept under which handle, and what each request is
//! answered.

pub mod status;
pub mod text;
pub mod base64;
pub mod auth;
pub mod metadata;
pub mod wire;
pub mod handle;
pub mod engine;
pub mod binding;
pub mod tables;
pub mod service;
pub mod statements;
pub mod laws;
pub mod request_laws;
pub mod auth_laws;
pub mod binding_laws;
pub mod setup_laws;
pub mod unsupported;
pub mod udf;
pub mod settings;

pub use service::FlightSqlServiceImpl;
pub use wire::FetchResults;
