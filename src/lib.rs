//! Relays a day's set of pictures from the wall.cat feed to a Telegram channel.
//!
//! The feed side (`wallcat`) decodes the feed's response envelopes, the bot side
//! (`telegram`) describes the outbound requests, and `pipeline` decides, step by
//! step, what a publishing run does next.

pub mod wallcat;
pub mod telegram;
pub mod pipeline;
