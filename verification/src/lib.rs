//! Verified core of a personal web service and its Telegram companion bot:
//! settings and environments, the profile page, routing, and the decisions
//! the bot makes for every message it receives.

pub mod actions;
pub mod chat;
pub mod chatroom;
pub mod clock;
pub mod commands;
pub mod database;
pub mod dispatch;
pub mod environment;
pub mod errors;
pub mod members;
pub mod profile;
pub mod routes;
pub mod server;
pub mod settings;
pub mod telegram;
pub mod telemetry;
pub mod text;
