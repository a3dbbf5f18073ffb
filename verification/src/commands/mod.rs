//! What each command of the bot decides and says.

pub mod admin;
pub mod games;
pub mod music;
pub mod others;
