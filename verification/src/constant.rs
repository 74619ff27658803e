//! Constants shared by the server.

pub mod error_code;
