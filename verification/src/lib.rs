//! Transport-independent core of a Model Context Protocol server that exposes
//! the RescueGroups REST API as callable tools.
//!
//! The core decides and never waits. It is handed what arrived (a line, a
//! request, the answer of the upstream API, what the cache found) and says
//! what is due (a line to write, a response to send, a request to make, an
//! event to push). Whoever runs the server does the reading, the waiting and
//! the sending around it.
//!
//! - [`json`]: JSON values and their model.
//! - [`error`]: the error kinds and their JSON-RPC codes.
//! - [`config`]: the settings and how they are merged.
//! - [`cli`]: the argument records of the tools.
//! - [`tools`]: the registry of tool descriptors.
//! - [`client`]: the requests to the upstream API and the gateway in front
//!   of it.
//! - [`fmt`]: Markdown texts for the answers.
//! - [`mcp`]: the JSON-RPC dispatcher.
//! - [`server`]: the stdio and the HTTP transports.
//! - [`text`]: joining and sorting of texts.
//! - [`laws`]: what holds of the server whatever the request.

pub mod cli;
pub mod client;
pub mod config;
pub mod error;
pub mod fmt;
pub mod json;
pub mod laws;
pub mod mcp;
pub mod server;
pub mod text;
pub mod tools;
