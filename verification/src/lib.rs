//! The rules of a small post service: what each request is answered with,
//! given what the table of posts said.

pub mod models;
pub mod response;
pub mod service;
pub mod table;
pub mod text;
