//! A small HTTP service with two static JSON endpoints.
//!
//! The library holds everything the service decides: the response records,
//! the two handlers, the route table with its fallback answers, and the
//! reading of the listen port. Sockets, the runtime and JSON encoding live
//! in the binary around it.

pub mod config;
pub mod handlers;
pub mod models;
pub mod router;

pub use config::{Config, ConfigError, ListenAddr};
pub use handlers::{health_check, welcome};
pub use models::{MessageResponse, StatusResponse};
pub use router::{dispatch, Body, HttpResponse, Method};
