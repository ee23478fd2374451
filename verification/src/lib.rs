//! A gateway in front of the server that delegates reflection: it checks the bearer
//! token of each request, refuses the tools that the token does not open, and hands
//! the rest on with the name of the client.
//!
//! The library decides; the program around it reads, sends and serves. Each part of
//! a request is decided by one function from what the program has found out to what
//! it does next: [`acteur_middleware`], then [`mcp_handler`], then [`forward`].

pub mod auth;
pub mod boot;
pub mod forward;
pub mod handler;
pub mod names;
pub mod policy;
pub mod router;
pub mod service;
pub mod text;
pub mod wire;

pub use crate::auth::{acteur_middleware, ClientIdentity};
pub use crate::boot::{load_static_token, mirror_legacy_env};
pub use crate::forward::forward;
pub use crate::handler::mcp_handler;
pub use crate::policy::policy;
pub use crate::router::{build_router, build_router_with_filestore, ServiceConfig};
pub use crate::service::{Service, OUTILS_ECRITURE, OUTILS_LECTURE};
