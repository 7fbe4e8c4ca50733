//! The decisions of a multi-account HASH token miner: proof-of-work search, the
//! per-account mining loop, retry pacing, start-up configuration and the Telegram bot.
//!
//! Everything here is a function of plain values. The program around the library talks
//! to the chain, to Telegram and to the console, and hands back what happened.
pub mod account;
pub mod command;
pub mod config;
pub mod json;
pub mod laws;
pub mod miner;
pub mod pow;
pub mod retry;
pub mod rules;
pub mod session;
pub mod stats;
pub mod steps;
pub mod telegram;
pub mod text;
