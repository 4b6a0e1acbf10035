//! A multi-user chat service: the per-connection session engine, the registry
//! that routes messages between live sessions, and the private-chat
//! negotiation with its authenticated encryption.

pub mod text;
pub mod crypto;
pub mod registry;
pub mod client;
pub mod wire;
pub mod message;
pub mod outcome;
pub mod labels;
pub mod session;
pub mod users;
pub mod auth;
pub mod log;
pub mod notice;
