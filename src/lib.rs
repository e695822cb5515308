//! Role-based access guard for an administrative backend: signed session
//! tokens, bearer extraction, a fail-closed permission resolver and the
//! access gate that composes them.

pub mod auth;
pub mod bearer;
pub mod config;
pub mod directory;
pub mod dto;
pub mod gate;
pub mod model;
pub mod records;
pub mod requests;
pub mod resolver;
pub mod responses;
pub mod store;
pub mod text;
pub mod time;
pub mod token;
