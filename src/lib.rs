//! Verified core of a hierarchical-deterministic wallet and credential
//! toolkit: seed and network parsing, hex codecs, attribute-revelation
//! policies, anonymity-revoker thresholds, positional key and signature
//! maps, and the key pairing that precedes a Web3-ID commitment check.

pub mod encoding;
pub mod credential;
pub mod error;
pub mod identity;
pub mod policy;
pub mod wallet;
pub mod web3;
