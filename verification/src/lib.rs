//! Client library for the Ramflux messaging network.

pub mod attachment_flow;
pub mod chunks;
pub mod client;
pub mod constants;
pub mod contact;
pub mod digest;
pub mod dm;
pub mod dm_flow;
pub mod error;
pub mod gateway;
pub mod group;
pub mod group_control;
pub mod group_flow;
pub mod itest_bus_fault;
pub mod itest_crash_seam;
pub mod itest_rfd_fault;
pub mod json;
pub mod laws;
pub mod manifest;
pub mod name_list;
pub mod object;
pub mod object_grants;
pub mod own_device_sync;
pub mod prekey;
pub mod records;
pub mod recovery;
pub mod relay_requests;
pub mod relay_token;
pub mod share_flow;
pub mod store;
pub mod sync_flow;
pub mod text;
pub mod tombstone_flow;
pub mod transfer;
pub mod transfer_laws;
