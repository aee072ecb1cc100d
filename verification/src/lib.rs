//! Identity and token lifecycle: validated user values, the user aggregate
//! with its provider connections, signed access and refresh tokens, token
//! revocation, and the use cases that compose them.

pub mod api;
pub mod auth;
pub mod clock;
pub mod config;
pub mod error;
pub mod id;
pub mod jwt;
pub mod keyed;
pub mod response;
pub mod service;
pub mod text;
pub mod users;
