//! Decision logic of a personal end-to-end encrypted Matrix bot: configuration and
//! data layout, session start, cross-signing bootstrap, interactive verification
//! with the owner, auto-joining the owner's invites, and the echo reply.

pub mod autojoin;
pub mod bootstrap;
pub mod config;
pub mod identity;
pub mod rooms;
pub mod session;
pub mod verification;
