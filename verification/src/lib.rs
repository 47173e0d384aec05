//! Command routing, reply construction and voice-session bookkeeping for a
//! chat bot, with every rule stated as a contract and proved.

pub mod chat;
pub mod client;
pub mod events;
pub mod general;
pub mod json;
pub mod music;
pub mod reply;
pub mod router;
pub mod text;
