//! Verified core of a Telegram MCP server: the request and output records that the
//! tools exchange, and the decisions the server takes between its Telegram calls.

pub mod collect;
pub mod comments;
pub mod config;
pub mod errors;
pub mod laws;
pub mod laws_fields;
pub mod login;
pub mod participants;
pub mod peer;
pub mod search;
pub mod text;
pub mod tg_structs;
