//! A small IPC server library: a fixed 12-byte binary header, two
//! length-declared content blocks per message, and a per-connection
//! request pipeline that validates a request, renders a template and
//! builds the framed response.

pub mod codec;
pub mod config;
pub mod json;
pub mod protocol;
