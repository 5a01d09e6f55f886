//! A node of a peer-addressable messaging network: signed identity claims
//! over secp256k1, a password-locked vault for the node's secrets, and the
//! per-connection protocol state machine.

pub mod cert;
pub mod config;
pub mod connection;
pub mod crypto;
pub mod db;
pub mod message;
pub mod node;
pub mod ui;
pub mod user;
pub mod vault;
