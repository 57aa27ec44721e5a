//! Scribe: projects, tasks, todos, time tracking, reminders, an inbox and
//! notes, with the rules that tie them together.

pub mod cli;
pub mod auth;
pub mod clock;
pub mod config;
pub mod datetime;
pub mod domain;
pub mod error;
pub mod mcp;
pub mod numbers;
pub mod ops;
pub mod report;
pub mod service;
pub mod store;
pub mod text;
