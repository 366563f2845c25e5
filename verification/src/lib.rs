//! Decision logic of a small contest board backend: session tokens, the
//! bearer-header resolver, credential checks and the mapping from request
//! bodies to stored records. Storage and transport live with the caller.

pub mod auth;
pub mod comments;
pub mod contests;
pub mod error;
pub mod models;
pub mod posts;
pub mod token;
pub mod users;
pub mod utils;
