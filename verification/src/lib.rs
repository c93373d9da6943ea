//! Library for a small terminal client that sends prompts to a remote
//! text-completion service: configuration parsing, request assembly,
//! reply extraction, response sanitization, and the read-eval-print
//! loop's decision logic.

pub mod config;
pub mod repl;
pub mod reply;
pub mod request;
pub mod sanitize;
