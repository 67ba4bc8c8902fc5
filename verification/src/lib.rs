//! Verified core logic of the cronback scheduling service.

pub mod text;
pub mod clock;
pub mod schedule;
pub mod strings;
pub mod auth;
pub mod auth_middleware;
pub mod name_cache;
pub mod codegen;
pub mod proto;
pub mod types;
pub mod dispatch;
pub mod spinner;
pub mod config;
pub mod service;
pub mod metadata;
pub mod handlers;
pub mod webhook;
