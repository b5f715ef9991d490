//! Core logic of a peer-to-peer NAT-traversal (rendezvous connection) engine.
//!
//! Two peers, each behind a NAT, cooperate through an out-of-band signalling
//! channel and public rendezvous servers to open one direct TCP connection.
//! This crate holds the verified decision core: the wire formats, the key
//! tiebreak, the signalling exchange, the candidate race and the choose
//! protocol, each as data types and step functions with contracts. The
//! surrounding I/O (sockets, timers, encryption) is driven by the embedder,
//! which feeds observed events into these step functions.

pub mod addr;
pub mod chooser;
pub mod engine;
pub mod errors;
pub mod exchange;
pub mod keys;
pub mod msg;
pub mod query;
pub mod resolver;
pub mod timing;
