//! An ACME (RFC 8555) protocol engine for DNS-01 certificate issuance.
//!
//! The crate holds the protocol's rules as plain functions on plain values:
//! request signing, the account's nonce discipline, the order and
//! authorization state, the account persistence format and the course of an
//! issuance. Network traffic and storage are left to the caller: the crate
//! says what to send and what to do next, and takes what came back.

pub mod account;
pub mod authorization;
pub mod codec;
pub mod config;
pub mod crypto;
pub mod csr;
pub mod encoding;
pub mod issuance;
pub mod json;
pub mod keys;
pub mod model;
pub mod orchestrator;
pub mod order;
pub mod payload;
pub mod porkbun;
pub mod signed_json;
pub mod status;
