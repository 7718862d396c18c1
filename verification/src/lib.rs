//! A node-local slice of a distributed compute/storage cluster: the typed
//! RPC message registry with its structural-validity checks, and the
//! coordination service ("MasterKv") that serves durable key/value storage
//! plus cluster-wide advisory locking on top of a narrow storage-engine
//! interface.

pub mod config;
pub mod master_kv;
pub mod msg_pack;
pub mod result;
