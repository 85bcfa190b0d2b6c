//! Matchmaking lobbies on Discord: the rules behind `/lobby`, `/join`, `/leave`, `/kick`,
//! `/resetlobby`, `/readycheck`, the lobby message's reactions and the maintenance commands.
pub mod answers;
pub mod closing;
pub mod commands;
pub mod config;
pub mod fakes;
pub mod flows;
pub mod ids;
pub mod joining;
pub mod kinds;
pub mod lobby;
pub mod locking;
pub mod matching;
pub mod message;
pub mod moderation;
pub mod plan;
pub mod players;
pub mod presence;
pub mod protocol;
pub mod readycheck;
pub mod registration;
pub mod roster;
pub mod sets;
pub mod text;
