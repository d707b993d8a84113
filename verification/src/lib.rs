//! The verified core of a small chat service: identifiers, the rules that turn
//! database results into answers, the live-session registry that routes events
//! to subscribed streams, and the endpoint tables of each module.

pub mod chats;
pub mod ids;
pub mod listeners;
pub mod users;
pub mod sessions;
pub mod routing;
pub mod admin;
pub mod decimal;
pub mod outcome;
pub mod events;
pub mod contacts;
pub mod files;
pub mod messages;
pub mod api;
pub mod db;
