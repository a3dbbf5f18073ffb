//! The rules of a music bot for chat servers: how a remote video becomes a
//! playable, described track, and how the bot words and lays out what it says.
//!
//! Nothing here talks to the network. Each operation takes what a collaborator
//! returned as plain values and says what has to happen next.

pub mod audio;
pub mod commands;
pub mod paginate;
pub mod text;
