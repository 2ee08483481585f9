//! Resource economy and status mirroring for a two-player tower game.
//!
//! Each player owns one [`resource::Resource`] ledger per [`resource::ResourceType`]
//! plus tower and walls health ([`player::Player`]). The display side keeps a
//! [`player_info::PlayerInfo`] mirror per player that copies those values once
//! per frame and is never aliased with the live state.
pub mod consts;
pub mod decimal;
pub mod player;
pub mod player_info;
pub mod resource;
