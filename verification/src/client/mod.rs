//! The client: what it holds, and what it asks of the account database.

pub mod a2i;
pub mod account;
pub mod contact;
pub mod conversation;
pub mod dm;
pub mod dm_session;
pub mod federation;
pub mod group;
pub mod group_session;
pub mod identity;
pub mod object;
pub mod own_device_sync;
pub mod recovery;
pub mod state;
