//! A playbook interpreter for multi-party protocols: the model of a playbook,
//! the template engine that resolves its dynamic strings, and the engine that
//! decides, step by step, what a role invocation does next.

pub mod error;
pub mod text;
pub mod pattern;
pub mod helper;
pub mod document;
pub mod spec_parser;
pub mod config_process;
pub mod encoding;
pub mod participant;
pub mod action;
pub mod interpreter;
pub mod laws;
pub mod runtime;
