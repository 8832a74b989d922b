//! The decisions of a chat bot that imports Telegram sticker packs and
//! migrates maunium sticker packs into the rooms it is in.
//!
//! The bot keeps its pending jobs in a queue in the account data of its own
//! account, works them off one at a time while it goes on listening, and
//! remembers what it has uploaded. This crate holds what the bot decides and
//! computes; talking to the homeserver, to Telegram and to the web is left to
//! whoever drives it.
//!
//! - [`command`]: what an incoming message or invitation asks for
//! - [`auth`]: the allow-list of administrators, and the configuration
//! - [`state`]: jobs, the queue, and the form in which the queue is stored
//! - [`worker`]: the loop that takes jobs from the queue and runs them
//! - [`import`], [`migrate`]: the two kinds of job
//! - [`pack`]: sticker packs and their identifiers
//! - [`db`]: the cache of uploaded media
//! - [`err`]: the report of a failure and its causes
//! - [`json`], [`text`], [`keys`]: documents, strings and ordered maps

pub mod auth;
pub mod command;
pub mod db;
pub mod err;
pub mod import;
pub mod json;
pub mod keys;
pub mod migrate;
pub mod pack;
pub mod state;
pub mod text;
pub mod worker;
