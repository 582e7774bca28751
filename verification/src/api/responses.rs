//! Records that the admin API answers with.

pub mod mapping;
pub mod object;
pub mod request;
pub mod response;
pub mod scenario;
