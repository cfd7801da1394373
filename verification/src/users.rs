//! The user resource: entity, validation stage, repository
//! abstraction, use cases and HTTP decision layer.

pub mod commands;
pub mod entity;
pub mod http;
pub mod repository;
pub mod use_cases;
pub mod validation;
