//! The decisions of a peer-to-peer recipe node: which peers it keeps in its
//! view of the shared topic, what it does with the messages that the topic
//! delivers, and how it handles the events of its local loop.

pub mod behaviour;
pub mod client;
pub mod constants;
pub mod json;
pub mod membership;
pub mod messages;
pub mod recipe;
pub mod router;
pub mod server;
pub mod text;
pub mod wire;
