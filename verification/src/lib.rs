//! Verified core of a Discord music bot: message parsing, command dispatch,
//! the SQL statements it sends, and the decisions around voice sessions.

pub mod text;
pub mod command;
pub mod decimal;
pub mod error;
pub mod voice;
pub mod db;
pub mod link;
pub mod config;
pub mod dispatch;
