//! Signed tokens: their claims, how they are issued and checked, and how a
//! refresh token is revoked.

pub mod models;
pub mod store;
pub mod services;
