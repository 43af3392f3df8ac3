//! A discrete action-execution mechanism for a turn-based game engine:
//! player-issued commands that validate their preconditions against shared
//! game state and apply an atomic mutation when valid.

pub mod action;
pub mod state;
