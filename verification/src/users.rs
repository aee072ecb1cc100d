//! Users: validated values, the user aggregate, its store and the lookup of
//! the authenticated user.

pub mod models;
pub mod services;
pub mod store;
pub mod values;
