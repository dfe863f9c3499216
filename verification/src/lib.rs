//! Verified core of a Nostr wallet plugin: encrypted plugin storage, Nostr Wallet Connect
//! request decisions and zap receipt bookkeeping.
pub mod hex_codec;
pub mod cipher;
pub mod storage;
pub mod model;
pub mod error;
pub mod event;
pub mod nwc;
pub mod zaps;
pub mod persist;
pub mod context;
pub mod laws;
pub mod nwc_request;
pub mod nwc_wire;
