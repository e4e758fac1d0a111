//! Job supervision and similarity ranking for a catalog of competitive-programming problems.
//!
//! The crate holds the decisions of the service: which job may start, how a finished
//! helper process is recorded, when a daily fetch may be repeated, which arguments a
//! helper accepts, and how nearest neighbours become ranked results. Processes, files,
//! the database and the HTTP surface are the caller's business.

pub mod args;
pub mod auth;
pub mod catalog;
pub mod config;
pub mod daily;
pub mod date;
pub mod detect;
pub mod domain;
pub mod fallback;
pub mod health;
pub mod job;
pub mod listing;
pub mod natsort;
pub mod pattern;
pub mod problem;
pub mod procgroup;
pub mod requests;
pub mod similar;
pub mod slot;
pub mod sources;
pub mod status;
pub mod supervisor;
pub mod text;
pub mod validate;
pub mod vector;
