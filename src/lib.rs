//! Change detection, notification batching and message composition for a
//! community chat bot that watches manga feeds, fuel prices and daily game
//! rewards.
//!
//! Each poller reads its watched entities and what the remote service
//! reports for them; [`tracker`] decides which entities changed and what is
//! written back, [`batching`] splits the resulting notifications into
//! messages of bounded size, and the integration modules ([`chapters`],
//! [`gas`], [`claims`]) compose the text. [`links`], [`listing`] and
//! [`commands`] hold the decisions of the chat commands and message
//! handlers.

pub mod batching;
pub mod chapters;
pub mod claims;
pub mod commands;
pub mod gas;
pub mod links;
pub mod listing;
pub mod models;
pub mod pattern;
pub mod text;
pub mod tracker;
