//! Server library for a collaborative rich-text editor: the text protocol,
//! folder resolution, the per-channel document actor, the channel lobby and
//! the decisions of a client session.

pub mod channel;
pub mod command;
pub mod config;
pub mod document;
pub mod folder;
pub mod http;
pub mod ids;
pub mod lobby;
pub mod model;
pub mod session;
pub mod text;
