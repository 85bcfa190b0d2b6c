//! What a ready check is asked to do, and what it plans.
use vstd::prelude::*;
use std::collections::BTreeMap;
use std::collections::BTreeSet;
use crate::kinds::LobbyKind;
use crate::kinds::LobbyScope;
use crate::readycheck::ReadycheckPlayerData;

verus! {

/// Whether the message of the running check can still be found.
#[derive(Clone, Copy, Debug, PartialEq, Eq, Structural)]
pub enum ExistingMessageState {
    Available,
    Missing,
    Unknown,
}

/// A request for a ready check.
#[derive(Clone, Debug, PartialEq, Eq)]
pub struct ReadycheckCommandRequest {
    pub scope: LobbyScope,
    pub invoker_id: i64,
    pub invocation_channel_id: i64,
    pub confirm_invoker: bool,
    pub existing_message: ExistingMessageState,
    pub reserved_players: BTreeSet<i64>,
}

/// The right to publish one new check.
#[derive(Clone, Copy, Debug, PartialEq, Eq, Structural)]
pub struct PublicationPermit {
    pub id: u64,
    pub invoker_id: i64,
    pub confirm_invoker: bool,
}

/// Something to tidy up before a check is published.
#[derive(Clone, Debug, PartialEq, Eq)]
pub enum PlanOperation {
    DeleteReadycheck { channel_id: i64, message_id: i64 },
    RemoveDepartedReaction { channel_id: i64, message_id: i64, player_id: i64, emoji: String },
    SyncLobbyDisplays { scope: LobbyScope },
    Other,
}

/// Whether a check is published anew, or the running one is refreshed.
#[derive(Clone, Copy, Debug, PartialEq, Eq, Structural)]
pub enum PublicationMode {
    New,
    Refresh,
}

/// How a ready check is going to be carried out.
#[derive(Clone, Debug, PartialEq, Eq)]
pub struct ReadycheckCommandPlan {
    pub scope: LobbyScope,
    pub mode: PublicationMode,
    pub permit: Option<PublicationPermit>,
    pub pruned_players: BTreeSet<i64>,
    pub mention_ids: BTreeSet<i64>,
    pub operations: Vec<PlanOperation>,
}

/// A plan with what it needs to be carried out.
#[derive(Clone, Debug, PartialEq, Eq)]
pub struct PlanOrder {
    pub plan: ReadycheckCommandPlan,
    pub players: BTreeMap<i64, ReadycheckPlayerData>,
    pub mentionable: BTreeSet<i64>,
    pub invocation_channel_id: i64,
    pub mirror_invocation: bool,
}

/// A request to reset a lobby.
#[derive(Clone, Debug, PartialEq, Eq)]
pub struct ResetLobbyRequest {
    pub guild_id: i64,
    pub user_id: i64,
    pub is_admin: bool,
    pub explicit_kind: Option<LobbyKind>,
    pub interaction_channel_id: i64,
}

} // verus!
