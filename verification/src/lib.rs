//! The decisions behind a chat connection: how requests cross to an app-supplied wire and back,
//! how a connection moves from pending to running, how server events reach a listener, and how
//! backup records are handed to apps. Everything that opens a socket or awaits lives outside.

pub mod text;
pub mod account;
pub mod time;
pub mod headers;
pub mod body;
pub mod request;
pub mod call;
pub mod requester;
pub mod log_line;
pub mod connect;
pub mod connection;
pub mod listener;
pub mod stream;
pub mod backup;
pub mod services;
pub mod remote_derives;
