//! Bodies that the client sends to the admin API.

pub mod request;
pub mod state;
