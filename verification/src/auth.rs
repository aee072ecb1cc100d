//! Authentication: identity providers, their adapters, and the use cases
//! that sign a user in.

pub mod models;
pub mod store;
pub mod services;
pub mod resolver;
