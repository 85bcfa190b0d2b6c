//! Lobbies as they are stored, and what is read off them.
use vstd::prelude::*;
use std::collections::BTreeMap;
use std::collections::BTreeSet;
use crate::ids::to_stored;
use crate::ids::to_u64;
use crate::kinds::LobbyKind;
use crate::kinds::LobbyScope;

verus! {

/// A moment a player joined: the bit pattern of its clock reading, carried unread.
#[derive(Clone, Copy, Debug, PartialEq, Eq, Structural)]
pub struct JoinTime {
    pub bits: u64,
}

/// The Discord objects that show a lobby.
#[derive(Clone, Copy, Debug, PartialEq, Eq, Structural)]
pub struct LobbyMessageIds {
    pub message_id: Option<i64>,
    pub channel_id: Option<i64>,
    pub thread_id: Option<i64>,
    pub embed_message_id: Option<i64>,
    pub origin_channel_id: Option<i64>,
}

/// A lobby at one moment.
#[derive(Clone, Debug, PartialEq, Eq)]
pub struct LobbySnapshot {
    pub scope: LobbyScope,
    pub created_by: Option<i64>,
    pub created_at_ns: i64,
    pub players: BTreeSet<i64>,
    pub player_join_times: BTreeMap<i64, JoinTime>,
    pub message_ids: LobbyMessageIds,
}

/// Whether a lobby still takes players.
#[derive(Clone, Copy, Debug, PartialEq, Eq, Structural)]
pub enum LobbyStatus {
    Open,
    Closed,
}

/// A lobby as the ready check keeps it.
#[derive(Clone, Debug, PartialEq, Eq)]
pub struct ReadyLobby {
    pub scope: LobbyScope,
    pub created_by: i64,
    pub created_at: String,
    pub players: BTreeSet<i64>,
    pub legacy_conditional_players: BTreeSet<i64>,
    pub player_join_times: BTreeMap<i64, JoinTime>,
    pub status: LobbyStatus,
    pub thread_id: Option<i64>,
}

/// The RFC 3339 text of a moment given in nanoseconds since the Unix epoch, in UTC.
pub uninterp spec fn rfc3339_of_nanos(nanos: int) -> Seq<char>;

/// `chrono::DateTime::from_timestamp_nanos` followed by `to_rfc3339`: the text is a function of
/// the nanoseconds alone, and every `i64` is in range.
#[verifier::external_body]
fn rfc3339(nanos: i64) -> (r: String)
    ensures
        r@ == rfc3339_of_nanos(nanos as int),
{
    chrono::DateTime::from_timestamp_nanos(nanos).to_rfc3339()
}

/// The ready check's record of a lobby, given the text of its creation time. A lobby that is
/// stored is open.
pub open spec fn mirrors(ready: ReadyLobby, lobby: LobbySnapshot, created_at: Seq<char>) -> bool {
    &&& ready.scope == lobby.scope
    &&& ready.created_by == match lobby.created_by {
        Some(creator) => creator,
        None => 0,
    }
    &&& ready.created_at@ == created_at
    &&& ready.players@ == lobby.players@
    &&& ready.legacy_conditional_players@ == Set::<i64>::empty()
    &&& ready.player_join_times@ == lobby.player_join_times@
    &&& ready.status == LobbyStatus::Open
    &&& ready.thread_id == lobby.message_ids.thread_id
}

/// The ready check's record of a lobby whose creation time reads `created_at`.
pub fn ready_lobby_created_at(lobby: &LobbySnapshot, created_at: String) -> (r: ReadyLobby)
    ensures
        mirrors(r, *lobby, created_at@),
{
    let created_by = match lobby.created_by {
        Some(creator) => creator,
        None => 0,
    };
    ReadyLobby {
        scope: lobby.scope,
        created_by,
        created_at,
        players: lobby.players.clone(),
        legacy_conditional_players: BTreeSet::new(),
        player_join_times: lobby.player_join_times.clone(),
        status: LobbyStatus::Open,
        thread_id: lobby.message_ids.thread_id,
    }
}

/// The ready check's record of a lobby.
pub fn to_ready_lobby(lobby: &LobbySnapshot) -> (r: ReadyLobby)
    ensures
        mirrors(r, *lobby, rfc3339_of_nanos(lobby.created_at_ns as int)),
{
    ready_lobby_created_at(lobby, rfc3339(lobby.created_at_ns))
}

/// What the ready check does with the current lobby of a scope.
#[derive(Clone, Debug, PartialEq, Eq)]
pub enum ReadySync {
    /// Takes over this record.
    Put(ReadyLobby),
    /// Forgets the lobby of the scope.
    Forget,
}

/// The ready check follows the lobby: it takes over a lobby that exists and forgets one that
/// does not.
pub fn sync_ready_lobby(lobby: &Option<LobbySnapshot>) -> (r: ReadySync)
    ensures
        match *lobby {
            Some(lobby) => r matches ReadySync::Put(ready) && mirrors(
                ready,
                lobby,
                rfc3339_of_nanos(lobby.created_at_ns as int),
            ),
            None => r is Forget,
        },
{
    match lobby {
        Some(lobby) => ReadySync::Put(to_ready_lobby(lobby)),
        None => ReadySync::Forget,
    }
}

/// A lobby has a message that can be repainted.
pub open spec fn displayed(lobby: Option<LobbySnapshot>) -> bool {
    lobby matches Some(lobby) && lobby.message_ids.channel_id is Some
        && lobby.message_ids.message_id is Some
}

/// Whether a lobby has a message that can be repainted.
pub fn has_display(lobby: &Option<LobbySnapshot>) -> (r: bool)
    ensures
        r == displayed(*lobby),
{
    match lobby {
        Some(lobby) => lobby.message_ids.channel_id.is_some()
            && lobby.message_ids.message_id.is_some(),
        None => false,
    }
}

/// The channel and message that show a lobby; each missing piece is reported.
pub fn display_ids(lobby: &Option<LobbySnapshot>) -> (r: Result<(i64, i64), String>)
    ensures
        r is Ok <==> displayed(*lobby),
        r matches Ok(ids) ==> lobby matches Some(lobby) && lobby.message_ids.channel_id == Some(
            ids.0,
        ) && lobby.message_ids.message_id == Some(ids.1),
        r matches Err(message) ==> message@ == match *lobby {
            None => "lobby no longer exists"@,
            Some(lobby) => if lobby.message_ids.channel_id is None {
                "lobby has no channel id"@
            } else {
                "lobby has no message id"@
            },
        },
{
    match lobby {
        None => Err("lobby no longer exists".to_owned()),
        Some(lobby) => match lobby.message_ids.channel_id {
            None => Err("lobby has no channel id".to_owned()),
            Some(channel_id) => match lobby.message_ids.message_id {
                None => Err("lobby has no message id".to_owned()),
                Some(message_id) => Ok((channel_id, message_id)),
            },
        },
    }
}

/// The first of a channel, message and player id that is not a Discord id.
pub open spec fn first_bad_id(channel_id: i64, message_id: i64, player_id: i64) -> Option<i64> {
    if channel_id < 0 {
        Some(channel_id)
    } else if message_id < 0 {
        Some(message_id)
    } else if player_id < 0 {
        Some(player_id)
    } else {
        None
    }
}

/// The reaction of a player on the message of a lobby, as channel, message and user; a lobby
/// without a message has none.
pub fn lobby_reaction(lobby: &Option<LobbySnapshot>, player_id: i64) -> (r: Result<
    Option<(u64, u64, u64)>,
    String,
>)
    ensures
        match *lobby {
            Some(lobby) => match (lobby.message_ids.channel_id, lobby.message_ids.message_id) {
                (Some(channel_id), Some(message_id)) => match first_bad_id(
                    channel_id,
                    message_id,
                    player_id,
                ) {
                    Some(bad) => r matches Err(text) && text@ == crate::ids::bad_snowflake_text(
                        bad as int,
                    ),
                    None => r == Ok::<Option<(u64, u64, u64)>, String>(
                        Some((channel_id as u64, message_id as u64, player_id as u64)),
                    ),
                },
                _ => r == Ok::<Option<(u64, u64, u64)>, String>(None),
            },
            None => r == Ok::<Option<(u64, u64, u64)>, String>(None),
        },
{
    let ids = match lobby {
        Some(lobby) => lobby.message_ids,
        None => {
            return Ok(None);
        },
    };
    match (ids.channel_id, ids.message_id) {
        (Some(channel_id), Some(message_id)) => {
            let channel = to_u64(channel_id)?;
            let message = to_u64(message_id)?;
            let player = to_u64(player_id)?;
            Ok(Some((channel, message, player)))
        },
        _ => Ok(None),
    }
}

/// `lobby` is shown by this message of this guild.
pub open spec fn shown_by(lobby: LobbySnapshot, guild_id: i64, message_id: i64) -> bool {
    lobby.scope.guild_id == guild_id && lobby.message_ids.message_id == Some(message_id)
}

/// The scope of the first lobby that the message shows, if any.
pub open spec fn scope_shown(lobbies: Seq<LobbySnapshot>, guild_id: i64, message_id: i64) -> Option<
    LobbyScope,
>
    decreases lobbies.len(),
{
    if lobbies.len() == 0 {
        None
    } else if shown_by(lobbies[0], guild_id, message_id) {
        Some(lobbies[0].scope)
    } else {
        scope_shown(lobbies.drop_first(), guild_id, message_id)
    }
}

/// The scope of the first lobby that a reacted message shows; ids that cannot be stored belong
/// to no lobby.
pub open spec fn lobby_message_scope(
    lobbies: Seq<LobbySnapshot>,
    guild_id: Option<u64>,
    message_id: u64,
) -> Option<LobbyScope> {
    match guild_id {
        Some(guild_id) => match (crate::ids::stored(guild_id), crate::ids::stored(message_id)) {
            (Some(guild_id), Some(message_id)) => scope_shown(lobbies, guild_id, message_id),
            _ => None,
        },
        None => None,
    }
}

fn first_shown(lobbies: &Vec<LobbySnapshot>, guild_id: i64, message_id: i64) -> (r: Option<
    LobbyScope,
>)
    ensures
        r == scope_shown(lobbies@, guild_id, message_id),
{
    let mut i: usize = 0;
    assert(lobbies@.skip(0) =~= lobbies@);
    while i < lobbies.len()
        invariant
            i <= lobbies.len(),
            scope_shown(lobbies@, guild_id, message_id) == scope_shown(
                lobbies@.skip(i as int),
                guild_id,
                message_id,
            ),
        decreases lobbies.len() - i,
    {
        let lobby = &lobbies[i];
        assert(lobbies@.skip(i as int)[0] == lobbies@[i as int]);
        assert(lobbies@.skip(i as int).drop_first() =~= lobbies@.skip(i + 1));
        if lobby.scope.guild_id == guild_id && is_message(
            lobby.message_ids.message_id,
            message_id,
        ) {
            return Some(lobby.scope);
        }
        i = i + 1;
    }
    None
}

/// The lobby whose message was reacted to.
pub fn scope_for_lobby_message(
    lobbies: &Vec<LobbySnapshot>,
    guild_id: Option<u64>,
    message_id: u64,
) -> (r: Option<LobbyScope>)
    ensures
        r == lobby_message_scope(lobbies@, guild_id, message_id),
{
    match guild_id {
        Some(guild_id) => match (to_stored(guild_id), to_stored(message_id)) {
            (Some(guild_id), Some(message_id)) => first_shown(lobbies, guild_id, message_id),
            _ => None,
        },
        None => None,
    }
}

/// The lobby of a guild whose ready check is this message; the open lobby is looked at first.
pub open spec fn readycheck_message_scope(
    open_check: Option<i64>,
    low_skill_check: Option<i64>,
    guild_id: Option<u64>,
    message_id: u64,
) -> Option<LobbyScope> {
    match guild_id {
        Some(guild_id) => match (crate::ids::stored(guild_id), crate::ids::stored(message_id)) {
            (Some(guild_id), Some(message_id)) => if open_check == Some(message_id) {
                Some(LobbyScope { guild_id, kind: LobbyKind::Open })
            } else if low_skill_check == Some(message_id) {
                Some(LobbyScope { guild_id, kind: LobbyKind::LowSkill })
            } else {
                None
            },
            _ => None,
        },
        None => None,
    }
}

fn is_message(check: Option<i64>, message_id: i64) -> (r: bool)
    ensures
        r == (check == Some(message_id)),
{
    match check {
        Some(id) => id == message_id,
        None => false,
    }
}

/// The lobby whose ready check was reacted to, given the ready-check messages of the guild.
pub fn scope_for_readycheck_message(
    open_check: Option<i64>,
    low_skill_check: Option<i64>,
    guild_id: Option<u64>,
    message_id: u64,
) -> (r: Option<LobbyScope>)
    ensures
        r == readycheck_message_scope(open_check, low_skill_check, guild_id, message_id),
{
    let guild_id = match guild_id {
        Some(guild_id) => guild_id,
        None => {
            return None;
        },
    };
    match (to_stored(guild_id), to_stored(message_id)) {
        (Some(guild_id), Some(message_id)) => {
            if is_message(open_check, message_id) {
                Some(LobbyScope { guild_id, kind: LobbyKind::Open })
            } else if is_message(low_skill_check, message_id) {
                Some(LobbyScope { guild_id, kind: LobbyKind::LowSkill })
            } else {
                None
            }
        },
        _ => None,
    }
}

/// The first of these lobbies that the message shows is that of this scope.
pub open spec fn shows(
    lobbies: Seq<LobbySnapshot>,
    guild_id: Option<u64>,
    message_id: u64,
    scope: LobbyScope,
) -> bool {
    &&& scope.guild_id >= 0
    &&& guild_id == Some(scope.guild_id as u64)
    &&& message_id <= i64::MAX
    &&& exists|i: int|
        {
            &&& 0 <= i < lobbies.len()
            &&& (#[trigger] lobbies[i]).scope == scope
            &&& lobbies[i].message_ids.message_id == Some(message_id as i64)
            &&& forall|j: int|
                0 <= j < i ==> !((#[trigger] lobbies[j]).scope.guild_id == scope.guild_id
                    && lobbies[j].message_ids.message_id == Some(message_id as i64))
        }
}

proof fn the_first_shown_is_found(
    lobbies: Seq<LobbySnapshot>,
    guild_id: i64,
    message_id: i64,
    i: int,
)
    requires
        0 <= i <= lobbies.len(),
        forall|j: int|
            0 <= j < i ==> !((#[trigger] lobbies[j]).scope.guild_id == guild_id
                && lobbies[j].message_ids.message_id == Some(message_id)),
        i < lobbies.len() ==> lobbies[i].scope.guild_id == guild_id
            && lobbies[i].message_ids.message_id == Some(message_id),
    ensures
        i < lobbies.len() ==> scope_shown(lobbies, guild_id, message_id) == Some(lobbies[i].scope),
        i == lobbies.len() ==> scope_shown(lobbies, guild_id, message_id) is None,
    decreases lobbies.len(),
{
    if i > 0 {
        let rest = lobbies.drop_first();
        assert(!(lobbies[0].scope.guild_id == guild_id && lobbies[0].message_ids.message_id == Some(
            message_id,
        )));
        assert forall|j: int| 0 <= j < i - 1 implies !((#[trigger] rest[j]).scope.guild_id
            == guild_id && rest[j].message_ids.message_id == Some(message_id)) by {
            assert(rest[j] == lobbies[j + 1]);
        }
        the_first_shown_is_found(rest, guild_id, message_id, i - 1);
    }
}

proof fn found_lobbies_are_shown(lobbies: Seq<LobbySnapshot>, guild_id: i64, message_id: i64) -> (i:
    int)
    requires
        scope_shown(lobbies, guild_id, message_id) is Some,
    ensures
        0 <= i < lobbies.len(),
        lobbies[i].scope.guild_id == guild_id,
        lobbies[i].message_ids.message_id == Some(message_id),
        scope_shown(lobbies, guild_id, message_id) == Some(lobbies[i].scope),
        forall|j: int|
            0 <= j < i ==> !((#[trigger] lobbies[j]).scope.guild_id == guild_id
                && lobbies[j].message_ids.message_id == Some(message_id)),
    decreases lobbies.len(),
{
    if shown_by(lobbies[0], guild_id, message_id) {
        0
    } else {
        let rest = lobbies.drop_first();
        let k = found_lobbies_are_shown(rest, guild_id, message_id);
        assert(lobbies[k + 1] == rest[k]);
        assert forall|j: int| 0 <= j < k + 1 implies !((#[trigger] lobbies[j]).scope.guild_id
            == guild_id && lobbies[j].message_ids.message_id == Some(message_id)) by {
            if j > 0 {
                assert(rest[j - 1] == lobbies[j]);
            }
        }
        k + 1
    }
}

/// A message of a guild leads to the lobby of that guild that it shows, and a message that shows
/// none leads nowhere.
pub proof fn messages_lead_to_the_lobby_they_show(
    lobbies: Seq<LobbySnapshot>,
    guild_id: Option<u64>,
    message_id: u64,
    scope: LobbyScope,
)
    ensures
        lobby_message_scope(lobbies, guild_id, message_id) == Some(scope) <==> shows(
            lobbies,
            guild_id,
            message_id,
            scope,
        ),
{
    if shows(lobbies, guild_id, message_id, scope) {
        let i = choose|i: int|
            {
                &&& 0 <= i < lobbies.len()
                &&& (#[trigger] lobbies[i]).scope == scope
                &&& lobbies[i].message_ids.message_id == Some(message_id as i64)
                &&& forall|j: int|
                    0 <= j < i ==> !((#[trigger] lobbies[j]).scope.guild_id == scope.guild_id
                        && lobbies[j].message_ids.message_id == Some(message_id as i64))
            };
        the_first_shown_is_found(lobbies, scope.guild_id, message_id as i64, i);
    }
    if lobby_message_scope(lobbies, guild_id, message_id) == Some(scope) {
        let guild = guild_id->0 as i64;
        let i = found_lobbies_are_shown(lobbies, guild, message_id as i64);
        assert(lobbies[i].scope == scope);
    }
}

/// The message is the ready check of this lobby of its guild; where both lobbies claim it, it is
/// that of the open one.
pub open spec fn checks(
    open_check: Option<i64>,
    low_skill_check: Option<i64>,
    guild_id: Option<u64>,
    message_id: u64,
    scope: LobbyScope,
) -> bool {
    &&& scope.guild_id >= 0
    &&& guild_id == Some(scope.guild_id as u64)
    &&& message_id <= i64::MAX
    &&& match scope.kind {
        LobbyKind::Open => open_check == Some(message_id as i64),
        LobbyKind::LowSkill => low_skill_check == Some(message_id as i64) && open_check != Some(
            message_id as i64,
        ),
    }
}

/// The message of a ready check leads to the lobby of its own guild that the check runs for, and
/// any other message leads nowhere.
pub proof fn messages_lead_to_the_check_they_show(
    open_check: Option<i64>,
    low_skill_check: Option<i64>,
    guild_id: Option<u64>,
    message_id: u64,
    scope: LobbyScope,
)
    ensures
        readycheck_message_scope(open_check, low_skill_check, guild_id, message_id) == Some(scope)
            <==> checks(open_check, low_skill_check, guild_id, message_id, scope),
{
}

/// The ready check keeps a lobby as it is: its scope, everybody in it and since when, its thread,
/// and who created it; nobody is in it by half, and it takes players.
pub proof fn ready_lobbies_are_the_lobbies(
    ready: ReadyLobby,
    lobby: LobbySnapshot,
    created_at: Seq<char>,
    id: i64,
)
    requires
        mirrors(ready, lobby, created_at),
    ensures
        ready.scope == lobby.scope,
        ready.players@.contains(id) <==> lobby.players@.contains(id),
        ready.player_join_times@.dom().contains(id) <==> lobby.player_join_times@.dom().contains(id),
        lobby.player_join_times@.dom().contains(id) ==> ready.player_join_times@[id]
            == lobby.player_join_times@[id],
        !ready.legacy_conditional_players@.contains(id),
        ready.thread_id == lobby.message_ids.thread_id,
        lobby.created_by matches Some(creator) ==> ready.created_by == creator,
        lobby.created_by is None ==> ready.created_by == 0,
        ready.created_at@ == created_at,
        ready.status is Open,
{
}

/// A lobby can be repainted exactly if both the channel and the message that show it are known; and
/// an id is refused exactly if Discord cannot have issued it, the earliest one first.
pub proof fn ids_are_refused_in_order(
    lobby: LobbySnapshot,
    channel_id: i64,
    message_id: i64,
    player_id: i64,
)
    ensures
        displayed(Some(lobby)) <==> lobby.message_ids.channel_id is Some
            && lobby.message_ids.message_id is Some,
        !displayed(None),
        first_bad_id(channel_id, message_id, player_id) is None <==> channel_id >= 0 && message_id
            >= 0 && player_id >= 0,
        first_bad_id(channel_id, message_id, player_id) matches Some(bad) ==> {
            &&& bad < 0
            &&& bad == channel_id || (channel_id >= 0 && bad == message_id) || (channel_id >= 0
                && message_id >= 0 && bad == player_id)
        },
{
}

} // verus!
