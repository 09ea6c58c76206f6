pub mod json_model;
pub mod commands;
pub mod session;
pub mod subscription;
pub mod requested;
