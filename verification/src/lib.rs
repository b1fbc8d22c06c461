//! A quorum list server for Dash Core: the quorum list it serves, and a cache of the Evo
//! masternodes that is refreshed by probing each node for the software versions it runs.

pub mod api;
pub mod config;
pub mod encoding;
pub mod grpc_client;
pub mod masternode;
pub mod masternode_cache;
pub mod probe;
pub mod quorum_list;
pub mod quorum_loader;
pub mod snapshot;
pub mod text;
pub mod version;
