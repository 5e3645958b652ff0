//! Environment recognition and trust decisions for incoming requests.
//!
//! The library works out where a request comes from (its host, its root
//! domain, its kind of channel), decides whether it is approved, pending
//! approval or blocked, and describes what a web middleware should answer.
pub mod text;
pub mod domain_utils;
pub mod str_map;
pub mod outside;
pub mod env_request;
pub mod structs;
pub mod env;
pub mod logs;
pub mod middleware;

pub use env::Env;
pub use structs::{Endorsement, EnvStatus, EnvType, TrustLevel};
pub use middleware::ActixMiddleware as ThisEnvMiddleware;
pub use middleware::ActixMwConfig as ThisEnvMiddlewareConfig;
