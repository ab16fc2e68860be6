//! Asset abstraction for a token-swap ("zapper") contract.
//!
//! The crate unifies two fungible-value representations — chain-native coins
//! and contract-issued (CW20) tokens — behind one [`asset::Asset`] type,
//! validates the funds attached to an inbound call, renders assets into a
//! canonical string of the form `native:<denom>:<amount>` /
//! `cw20:<address>:<amount>`, and looks key/value attributes up in
//! execution-log events.

pub mod asset;
pub mod event;
pub mod render;
