//! The core of a terminal chat relay: the session's key-driven state machine, the bounded
//! message history, and the decisions and configuration behind the broker clients.

pub mod broker;
pub mod channel;
pub mod history;
pub mod lemmas;
pub mod models;
pub mod session;
pub mod text;
pub mod wire;
