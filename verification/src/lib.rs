//! Verified core of a fleet of chat-driven bots: the grammar of the lines a
//! server sends, the login handshake, the dispatch of remote commands, and
//! the table of running bots.

pub mod auth;
pub mod command;
pub mod dispatch;
pub mod message;
pub mod supervisor;
pub mod text;
