//! What a shuffle sees of a lobby, and what it does to one.
use vstd::prelude::*;
use std::collections::BTreeMap;
use std::collections::BTreeSet;
use crate::flows::evict::EvictFlow;
use crate::flows::evict::Evicted;
use crate::flows::pool::PoolFlow;
use crate::flows::pool::Refreshed;
use crate::flows::reset::ShuffleReset;
use crate::flows::reset::WasReset;
use crate::ids::to_unsigned_option;
use crate::kinds::LobbyKind;
use crate::kinds::LobbyScope;
use crate::lobby::JoinTime;
use crate::lobby::LobbySnapshot;
use crate::protocol::Action;
use crate::protocol::Turn;
use crate::readycheck::ReadycheckGeneration;
use crate::sets::key_set;
use crate::sets::members;

verus! {

/// A lobby as a shuffle sees it.
#[derive(Clone, Debug, PartialEq, Eq)]
pub struct MatchLobbySnapshot {
    pub guild_id: i64,
    pub lobby_kind: LobbyKind,
    pub created_by: Option<i64>,
    pub player_ids: Vec<i64>,
    pub player_join_times: BTreeMap<i64, JoinTime>,
    pub confirmed_player_ids: Option<BTreeSet<i64>>,
    pub ready_threshold: usize,
    pub lobby_channel_id: Option<u64>,
    pub lobby_message_id: Option<u64>,
    pub origin_channel_id: Option<u64>,
    pub thread_id: Option<u64>,
}

/// A draft in progress, as a shuffle sees it.
#[derive(Clone, Debug, PartialEq, Eq)]
pub struct MatchActiveDraft {
    pub lobby_kind: LobbyKind,
    pub captain_ids: BTreeSet<i64>,
}

/// The players who confirmed the running ready check, if one is running.
pub open spec fn confirmed(check: Option<ReadycheckGeneration>) -> Option<Set<i64>> {
    match check {
        Some(generation) => Some(generation.reacted@.dom()),
        None => None,
    }
}

/// The optional set, seen as its members.
pub open spec fn optional_set(ids: Option<BTreeSet<i64>>) -> Option<Set<i64>> {
    match ids {
        Some(ids) => Some(ids@),
        None => None,
    }
}

/// The snapshot shows this lobby and its running ready check.
pub open spec fn shows_lobby(
    snapshot: MatchLobbySnapshot,
    guild_id: i64,
    kind: LobbyKind,
    lobby: LobbySnapshot,
    check: Option<ReadycheckGeneration>,
    ready_threshold: usize,
) -> bool {
    &&& snapshot.guild_id == guild_id
    &&& snapshot.lobby_kind == kind
    &&& snapshot.created_by == lobby.created_by
    &&& snapshot.player_ids@ == crate::sets::listing(lobby.players@)
    &&& snapshot.player_join_times@ == lobby.player_join_times@
    &&& optional_set(snapshot.confirmed_player_ids) == confirmed(check)
    &&& snapshot.ready_threshold == ready_threshold
    &&& snapshot.lobby_channel_id == crate::ids::unsigned_option(lobby.message_ids.channel_id)
    &&& snapshot.lobby_message_id == crate::ids::unsigned_option(lobby.message_ids.message_id)
    &&& snapshot.origin_channel_id == crate::ids::unsigned_option(
        lobby.message_ids.origin_channel_id,
    )
    &&& snapshot.thread_id == crate::ids::unsigned_option(lobby.message_ids.thread_id)
}

/// A draft in progress: its lobby and the captains it has so far.
#[derive(Clone, Copy, Debug, PartialEq, Eq)]
pub struct DraftState {
    pub lobby_kind: LobbyKind,
    pub captain1_id: Option<i64>,
    pub captain2_id: Option<i64>,
}

/// A player is one of the captains that a draft has so far.
pub open spec fn captains(draft: DraftState, id: i64) -> bool {
    draft.captain1_id == Some(id) || draft.captain2_id == Some(id)
}

/// What shuffles use of the lobbies.
#[derive(Clone, Copy, Debug, PartialEq, Eq)]
pub struct MatchLobbyPort {
    /// So many players have to be ready.
    pub ready_threshold: usize,
}

impl MatchLobbyPort {
    /// What a shuffle sees of a lobby; nothing, where there is none.
    pub fn snapshot(
        &self,
        guild_id: i64,
        kind: LobbyKind,
        lobby: Option<LobbySnapshot>,
        check: &Option<ReadycheckGeneration>,
    ) -> (r: Option<MatchLobbySnapshot>)
        ensures
            r is Some <==> lobby is Some,
            lobby matches Some(lobby) ==> (r matches Some(snapshot) && shows_lobby(
                snapshot,
                guild_id,
                kind,
                lobby,
                *check,
                self.ready_threshold,
            )),
    {
        let lobby = match lobby {
            Some(lobby) => lobby,
            None => {
                return None;
            },
        };
        let confirmed_player_ids = match check {
            Some(generation) => Some(key_set(&generation.reacted)),
            None => None,
        };
        Some(
            MatchLobbySnapshot {
                guild_id,
                lobby_kind: kind,
                created_by: lobby.created_by,
                player_ids: members(&lobby.players),
                player_join_times: lobby.player_join_times,
                confirmed_player_ids,
                ready_threshold: self.ready_threshold,
                lobby_channel_id: to_unsigned_option(lobby.message_ids.channel_id),
                lobby_message_id: to_unsigned_option(lobby.message_ids.message_id),
                origin_channel_id: to_unsigned_option(lobby.message_ids.origin_channel_id),
                thread_id: to_unsigned_option(lobby.message_ids.thread_id),
            },
        )
    }

    /// What a shuffle sees of a draft: its lobby, and the captains there are.
    pub fn active_draft(&self, draft: Option<DraftState>) -> (r: Option<MatchActiveDraft>)
        ensures
            r is Some <==> draft is Some,
            draft matches Some(draft) ==> (r matches Some(active) && active.lobby_kind
                == draft.lobby_kind && (forall|id: i64| #[trigger]
                active.captain_ids@.contains(id) <==> captains(draft, id))),
    {
        let draft = match draft {
            Some(draft) => draft,
            None => {
                return None;
            },
        };
        let mut captain_ids: BTreeSet<i64> = BTreeSet::new();
        if let Some(id) = draft.captain1_id {
            captain_ids.insert(id);
        }
        if let Some(id) = draft.captain2_id {
            captain_ids.insert(id);
        }
        Some(MatchActiveDraft { lobby_kind: draft.lobby_kind, captain_ids })
    }

    /// Takes the players of a match out of the lobby that they were not matched in.
    pub fn evict_from_other_lobby(
        &self,
        guild_id: i64,
        source_kind: LobbyKind,
        matched_player_ids: BTreeSet<i64>,
    ) -> (r: (EvictFlow, Turn<Evicted>))
        ensures
            r.0.scope == crate::flows::evict::sibling_scope(guild_id, source_kind),
            !r.0.over,
            r.1.only_asks(
                Action::RemovePlayers { players: matched_player_ids, scope: r.0.scope },
            ),
    {
        EvictFlow::start(guild_id, source_kind, matched_player_ids)
    }

    /// The message to be unpinned once a lobby is shuffled, as channel and message, if it has
    /// one.
    pub fn unpin_source_message(&self, snapshot: &MatchLobbySnapshot) -> (r: Option<(u64, u64)>)
        ensures
            r == match (snapshot.lobby_channel_id, snapshot.lobby_message_id) {
                (Some(channel_id), Some(message_id)) => Some((channel_id, message_id)),
                _ => None,
            },
    {
        match (snapshot.lobby_channel_id, snapshot.lobby_message_id) {
            (Some(channel_id), Some(message_id)) => Some((channel_id, message_id)),
            _ => None,
        }
    }

    /// Clears a lobby whose players went into a match.
    pub fn reset_after_shuffle(&self, guild_id: i64, kind: LobbyKind) -> (r: (
        ShuffleReset,
        Turn<WasReset>,
    ))
        ensures
            r.0.scope == (LobbyScope { guild_id, kind }),
            r.0.at is Clearing,
            r.1.only_asks(Action::ClearLobby { scope: LobbyScope { guild_id, kind } }),
    {
        ShuffleReset::start(LobbyScope { guild_id, kind })
    }

    /// Repaints the lobbies of a guild after the pool for the first game changed.
    pub fn refresh_first_game_pool_lobbies(&self, guild_id: i64) -> (r: (
        PoolFlow,
        Turn<Refreshed>,
    ))
        ensures
            crate::flows::pool::pool_starts(guild_id, r.0, r.1),
    {
        PoolFlow::start(guild_id)
    }
}

/// What a shuffle sees of a lobby is that lobby: everybody in it and since when, who created it, who
/// confirmed its check if one runs, how many have to be ready, and where it is shown.
pub proof fn shuffles_see_the_lobby_as_it_is(
    snapshot: MatchLobbySnapshot,
    guild_id: i64,
    kind: LobbyKind,
    lobby: LobbySnapshot,
    check: Option<ReadycheckGeneration>,
    ready_threshold: usize,
    id: i64,
)
    requires
        shows_lobby(snapshot, guild_id, kind, lobby, check, ready_threshold),
        lobby.players@.finite(),
    ensures
        snapshot.guild_id == guild_id && snapshot.lobby_kind == kind,
        snapshot.created_by == lobby.created_by,
        snapshot.player_ids@.contains(id) <==> lobby.players@.contains(id),
        snapshot.player_ids@.no_duplicates(),
        snapshot.player_join_times@ == lobby.player_join_times@,
        snapshot.ready_threshold == ready_threshold,
        snapshot.confirmed_player_ids is Some <==> check is Some,
        snapshot.confirmed_player_ids matches Some(confirmed) ==> (check matches Some(generation) && (
        confirmed@.contains(id) <==> generation.reacted@.dom().contains(id))),
        lobby.message_ids.channel_id matches Some(channel) ==> (channel >= 0
            ==> snapshot.lobby_channel_id == Some(channel as u64)),
        lobby.message_ids.message_id matches Some(message) ==> (message >= 0
            ==> snapshot.lobby_message_id == Some(message as u64)),
        lobby.message_ids.origin_channel_id matches Some(origin) ==> (origin >= 0
            ==> snapshot.origin_channel_id == Some(origin as u64)),
        lobby.message_ids.thread_id matches Some(thread) ==> (thread >= 0 ==> snapshot.thread_id
            == Some(thread as u64)),
{
    crate::sets::finite_sets_can_be_listed(lobby.players@);
    let listed = crate::sets::listing(lobby.players@);
    assert(listed.contains(id) <==> lobby.players@.contains(id));
}

/// Both captains of a draft count, and nobody else does.
pub proof fn drafts_have_their_own_captains(draft: DraftState, id: i64)
    ensures
        draft.captain1_id == Some(id) ==> captains(draft, id),
        draft.captain2_id == Some(id) ==> captains(draft, id),
        draft.captain1_id != Some(id) && draft.captain2_id != Some(id) ==> !captains(draft, id),
{
}

} // verus!
