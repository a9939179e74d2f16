//! Decision core of a minimal chat bot.
//!
//! The bot listens on a long-lived gateway connection for a single command,
//! `!ping`, and answers `Pong!`. Everything the bot decides — how a startup
//! token is validated, which capability flags the connection requests, how
//! each incoming event is answered, and how failures are classified and
//! rendered — lives here as verified, pure logic. The gateway protocol,
//! networking and process wiring sit outside the library and feed it plain
//! values.

pub mod bootstrap;
pub mod error;
pub mod handler;
