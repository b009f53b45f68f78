//! Resolution of the relay's declarative configuration into the concrete
//! parameters that the indexing engine and the message-queue producer start with.

pub mod config;
pub mod net;
pub mod paths;
pub mod resolve;
pub mod yaml;
