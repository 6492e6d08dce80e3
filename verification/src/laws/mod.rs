//! What the operations of the library come to: laws over calls of its functions, for every argument
//! and every result.
pub mod basics;
pub mod contacts;
pub mod conversations;
pub mod flows;
pub mod friends;
pub mod gateway;
pub mod group_messages;
pub mod groups;
pub mod history;
pub mod identity;
pub mod locked;
pub mod messages;
pub mod objects;
pub mod recovery;
pub mod refusals;
pub mod relay;
pub mod sessions;
pub mod tokens;
pub mod transfers;
pub mod words;
