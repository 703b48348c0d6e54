//! The authentication core of a small catalog backend: password hashing,
//! signed session tokens, the cookie that carries them, the guard in front of
//! protected operations, and the decisions of the request handlers.

pub mod errors;
pub mod password;
pub mod text;
pub mod token;
pub mod cookie;
pub mod auth;
pub mod models;
pub mod handlers;
pub mod upload;
