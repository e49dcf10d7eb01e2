//! Verified core of a desktop client for the Valorant in-game store:
//! login redirect parsing, session bookkeeping, Riot API request shaping,
//! response extraction and the cookie vault.
pub mod api;
pub mod auth;
pub mod codec;
pub mod crypto;
pub mod error;
pub mod json;
pub mod redirect;
pub mod store;
pub mod text;
