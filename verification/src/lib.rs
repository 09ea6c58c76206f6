//! A Discord client library: REST and gateway logic with verified contracts.

pub mod auth;
pub mod bootstrap;
pub mod connect;
pub mod gateway;
pub mod guild;
pub mod headers;
pub mod json;
pub mod parser;
pub mod properties;
pub mod rate_limit;
pub mod request;
pub mod response;
pub mod retry;
pub mod routes;
pub mod structs;
pub mod text;


