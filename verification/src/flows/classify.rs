//! Looking at the players of a lobby, one after the other.
use vstd::prelude::*;
use std::collections::BTreeMap;
use std::collections::BTreeSet;
use crate::ids::to_unsigned;
use crate::lobby::LobbySnapshot;
use crate::presence::GuildMember;
use crate::presence::absent_group;
use crate::presence::readiness;
use crate::protocol::Action;
use crate::protocol::Event;
use crate::protocol::Next;
use crate::protocol::Turn;
use crate::readycheck::ReadycheckPlayerData;
use crate::sets::members;

verus! {

/// What was seen of the players: how ready each looks, and who can be mentioned.
#[derive(Debug, PartialEq, Eq)]
pub struct Sightings {
    pub players: BTreeMap<i64, ReadycheckPlayerData>,
    pub mentionable: BTreeSet<i64>,
}

/// Where the look at the players stands.
#[derive(Debug, PartialEq, Eq)]
pub enum ClassifyAt {
    /// It is being found out who joined recently.
    Recent,
    /// A player is being looked up among the members of the server.
    Member { player_id: i64 },
    /// A name is being found for a player who is not on the server.
    Naming { player_id: i64 },
    /// Nothing is left to be done.
    Over,
}

/// A look at the players of a lobby, in progress: those still to be looked at, those who joined
/// recently, and what was seen.
#[derive(Debug, PartialEq, Eq)]
pub struct ClassifyFlow {
    pub guild_id: i64,
    pub rest: Vec<i64>,
    pub recent: BTreeSet<i64>,
    pub seen: Sightings,
    pub at: ClassifyAt,
}

/// The beginning: the players are lined up, and it is asked who joined recently.
pub open spec fn classify_starts(
    lobby: LobbySnapshot,
    flow: ClassifyFlow,
    turn: Turn<Sightings>,
) -> bool {
    &&& flow.guild_id == lobby.scope.guild_id
    &&& flow.rest@ == crate::sets::listing(lobby.players@)
    &&& flow.seen.players@ == Map::<i64, ReadycheckPlayerData>::empty()
    &&& flow.seen.mentionable@ == Set::<i64>::empty()
    &&& flow.at is Recent
    &&& turn.only_asks(Action::FindRecent { joined: lobby.player_join_times })
}

/// The next player is looked at: up among the members where Discord can know them, and for a
/// name otherwise. After the last one, what was seen is handed over.
pub open spec fn classify_goes_on(
    guild_id: i64,
    ids: Seq<i64>,
    recent: Set<i64>,
    players: Map<i64, ReadycheckPlayerData>,
    mentionable: Set<i64>,
    post: ClassifyFlow,
    turn: Turn<Sightings>,
) -> bool {
    &&& post.guild_id == guild_id
    &&& turn.before@.len() == 0
    &&& if ids.len() == 0 {
        &&& post.at is Over
        &&& turn.next matches Next::End(seen) && seen.players@ == players && seen.mentionable@
            == mentionable
    } else {
        let id = ids[0];
        &&& post.rest@ == ids.drop_first()
        &&& post.recent@ == recent
        &&& post.seen.players@ == players
        &&& post.seen.mentionable@ == mentionable
        &&& if guild_id >= 0 && id >= 0 {
            &&& post.at == (ClassifyAt::Member { player_id: id })
            &&& turn.next == Next::<Sightings>::Ask(
                Action::FindMember { guild_id: guild_id as u64, user_id: id as u64 },
            )
        } else {
            &&& post.at == (ClassifyAt::Naming { player_id: id })
            &&& turn.next == Next::<Sightings>::Ask(Action::NamePlayer { player_id: id, guild_id })
        }
    }
}

/// A member was found: they can be mentioned, and look as ready as they do.
pub open spec fn member_seen(
    pre: ClassifyFlow,
    player_id: i64,
    member: GuildMember,
    post: ClassifyFlow,
    turn: Turn<Sightings>,
) -> bool {
    let data = ReadycheckPlayerData {
        name: member.display_name,
        group: crate::presence::group_of(
            pre.recent@.contains(player_id),
            Some(crate::presence::seen(member)),
        ),
    };
    classify_goes_on(
        pre.guild_id,
        pre.rest@,
        pre.recent@,
        pre.seen.players@.insert(player_id, data),
        pre.seen.mentionable@.insert(player_id),
        post,
        turn,
    )
}

/// A name was found for a player who is not on the server.
pub open spec fn absent_seen(
    pre: ClassifyFlow,
    player_id: i64,
    name: String,
    post: ClassifyFlow,
    turn: Turn<Sightings>,
) -> bool {
    let data = ReadycheckPlayerData {
        name,
        group: crate::presence::group_of(pre.recent@.contains(player_id), None),
    };
    classify_goes_on(
        pre.guild_id,
        pre.rest@,
        pre.recent@,
        pre.seen.players@.insert(player_id, data),
        pre.seen.mentionable@,
        post,
        turn,
    )
}

/// One step of the look at the players.
pub open spec fn classify_step(
    pre: ClassifyFlow,
    event: Event,
    post: ClassifyFlow,
    turn: Turn<Sightings>,
) -> bool {
    match (pre.at, event) {
        (ClassifyAt::Recent, Event::Players(recent)) => classify_goes_on(
            pre.guild_id,
            pre.rest@,
            recent@,
            pre.seen.players@,
            pre.seen.mentionable@,
            post,
            turn,
        ),
        (ClassifyAt::Member { player_id }, Event::Member(found)) => match found {
            Ok(Some(member)) => member_seen(pre, player_id, member, post, turn),
            _ => {
                &&& post == (ClassifyFlow { at: ClassifyAt::Naming { player_id }, ..pre })
                &&& turn.only_asks(Action::NamePlayer { player_id, guild_id: pre.guild_id })
            },
        },
        (ClassifyAt::Naming { player_id }, Event::Text(name)) => absent_seen(
            pre,
            player_id,
            name,
            post,
            turn,
        ),
        _ => post == pre && turn.waits(),
    }
}

fn go_on(guild_id: i64, rest: Vec<i64>, recent: BTreeSet<i64>, seen: Sightings) -> (r: (
    ClassifyFlow,
    Turn<Sightings>,
))
    ensures
        classify_goes_on(
            guild_id,
            rest@,
            recent@,
            seen.players@,
            seen.mentionable@,
            r.0,
            r.1,
        ),
{
    let mut rest = rest;
    if rest.len() == 0 {
        let nothing = Sightings { players: BTreeMap::new(), mentionable: BTreeSet::new() };
        return (
            ClassifyFlow { guild_id, rest, recent, seen: nothing, at: ClassifyAt::Over },
            Turn::end(seen),
        );
    }
    let ghost all = rest@;
    let player_id: i64 = rest.remove(0);
    assert(rest@ =~= all.drop_first());
    match (to_unsigned(guild_id), to_unsigned(player_id)) {
        (Some(guild), Some(user_id)) => (
            ClassifyFlow { guild_id, rest, recent, seen, at: ClassifyAt::Member { player_id } },
            Turn::ask(Action::FindMember { guild_id: guild, user_id }),
        ),
        _ => (
            ClassifyFlow { guild_id, rest, recent, seen, at: ClassifyAt::Naming { player_id } },
            Turn::ask(Action::NamePlayer { player_id, guild_id }),
        ),
    }
}

impl ClassifyFlow {
    /// Begins to look at the players of a lobby.
    pub fn start(lobby: LobbySnapshot) -> (r: (ClassifyFlow, Turn<Sightings>))
        ensures
            classify_starts(lobby, r.0, r.1),
            r.1.goes_on(|action: Action| r.0.awaits(action)),
    {
        let seen = Sightings { players: BTreeMap::new(), mentionable: BTreeSet::new() };
        (
            ClassifyFlow {
                guild_id: lobby.scope.guild_id,
                rest: members(&lobby.players),
                recent: BTreeSet::new(),
                seen,
                at: ClassifyAt::Recent,
            },
            Turn::ask(Action::FindRecent { joined: lobby.player_join_times }),
        )
    }

    /// Goes on with what came of the last question.
    pub fn resume(self, event: Event) -> (r: (ClassifyFlow, Turn<Sightings>))
        ensures
            classify_step(self, event, r.0, r.1),
    {
        let ClassifyFlow { guild_id, rest, recent, seen, at } = self;
        match (at, event) {
            (ClassifyAt::Recent, Event::Players(recent)) => go_on(guild_id, rest, recent, seen),
            (ClassifyAt::Member { player_id }, Event::Member(found)) => match found {
                Ok(Some(member)) => {
                    let group = readiness(recent.contains(&player_id), &member);
                    let mut seen = seen;
                    seen.players.insert(
                        player_id,
                        ReadycheckPlayerData { name: member.display_name, group },
                    );
                    seen.mentionable.insert(player_id);
                    go_on(guild_id, rest, recent, seen)
                },
                _ => (
                    ClassifyFlow {
                        guild_id,
                        rest,
                        recent,
                        seen,
                        at: ClassifyAt::Naming { player_id },
                    },
                    Turn::ask(Action::NamePlayer { player_id, guild_id }),
                ),
            },
            (ClassifyAt::Naming { player_id }, Event::Text(name)) => {
                let group = absent_group(recent.contains(&player_id));
                let mut seen = seen;
                seen.players.insert(player_id, ReadycheckPlayerData { name, group });
                go_on(guild_id, rest, recent, seen)
            },
            (at, _) => (ClassifyFlow { guild_id, rest, recent, seen, at }, Turn::wait()),
        }
    }
}

/// The player who is being looked at.
pub open spec fn looked_at(at: ClassifyAt) -> Option<i64> {
    match at {
        ClassifyAt::Member { player_id } => Some(player_id),
        ClassifyAt::Naming { player_id } => Some(player_id),
        _ => None,
    }
}

/// Every player of the roster was seen, is being looked at or is still to be looked at, and
/// nobody else; only players who were seen can be mentioned.
pub open spec fn accounts_for(flow: ClassifyFlow, roster: Set<i64>) -> bool {
    &&& forall|id: i64| #[trigger]
        roster.contains(id) <==> flow.seen.players@.dom().contains(id) || flow.rest@.contains(id)
            || looked_at(flow.at) == Some(id)
    &&& flow.seen.mentionable@.subset_of(flow.seen.players@.dom())
}

/// What is handed over covers the roster exactly.
pub open spec fn covers_roster(seen: Sightings, roster: Set<i64>) -> bool {
    &&& seen.players@.dom() == roster
    &&& seen.mentionable@.subset_of(roster)
}

/// A look at the players begins with the roster of the lobby.
pub proof fn looks_begin_with_the_roster(
    lobby: LobbySnapshot,
    flow: ClassifyFlow,
    turn: Turn<Sightings>,
)
    requires
        classify_starts(lobby, flow, turn),
        lobby.players@.finite(),
    ensures
        accounts_for(flow, lobby.players@),
{
    crate::sets::finite_sets_can_be_listed(lobby.players@);
    assert forall|id: i64| #[trigger] lobby.players@.contains(id) <==> flow.rest@.contains(id) by {
        assert(crate::sets::listing(lobby.players@).contains(id) <==> lobby.players@.contains(id));
    }
}

/// No player is lost on the way and none is made up: what is handed over at the end covers the
/// roster exactly, and nobody can be mentioned who is not on it.
pub proof fn looks_cover_the_roster(
    pre: ClassifyFlow,
    event: Event,
    post: ClassifyFlow,
    turn: Turn<Sightings>,
    roster: Set<i64>,
)
    requires
        classify_step(pre, event, post, turn),
        accounts_for(pre, roster),
        !(pre.at is Over),
    ensures
        turn.next matches Next::End(seen) ==> covers_roster(seen, roster),
        !(turn.next is End) ==> accounts_for(post, roster),
{
    let ids = pre.rest@;
    assert forall|id: i64| ids.len() > 0 implies (ids.contains(id) <==> ids.drop_first().contains(id)
        || id == ids[0]) by {
        if ids.drop_first().contains(id) {
            let k = choose|k: int| 0 <= k < ids.drop_first().len() && ids.drop_first()[k] == id;
            assert(ids[k + 1] == id);
        }
        if ids.contains(id) {
            let k = choose|k: int| 0 <= k < ids.len() && ids[k] == id;
            if k > 0 {
                assert(ids.drop_first()[k - 1] == id);
            }
        }
    }
    if let Next::End(seen) = turn.next {
        assert(seen.players@.dom() =~= roster);
    } else {
        assert forall|id: i64| #[trigger] roster.contains(id) <==> post.seen.players@.dom().contains(
            id,
        ) || post.rest@.contains(id) || looked_at(post.at) == Some(id) by {
            assert(roster.contains(id) <==> pre.seen.players@.dom().contains(id)
                || pre.rest@.contains(id) || looked_at(pre.at) == Some(id));
        }
    }
}

impl ClassifyFlow {
    /// What is waited for: the answer to this question.
    pub open spec fn awaits(self, action: Action) -> bool {
        match self.at {
            ClassifyAt::Recent => action is FindRecent,
            ClassifyAt::Member { .. } => action is FindMember,
            ClassifyAt::Naming { .. } => action is NamePlayer,
            ClassifyAt::Over => false,
        }
    }
}

/// Looking at the players is never left waiting by the answer to what it asked for: it goes on to
/// its end or to its next question, and waits for the answer to that.
pub proof fn sightings_go_on_when_answered(
    pre: ClassifyFlow,
    asked: Action,
    event: Event,
    post: ClassifyFlow,
    turn: Turn<Sightings>,
)
    requires
        classify_step(pre, event, post, turn),
        pre.awaits(asked),
        asked.answered_by(event),
    ensures
        turn.goes_on(|action: Action| post.awaits(action)),
{
}

/// Looking at a lobby begins by finding out who of it joined recently, by the times they joined.
pub proof fn looks_begin_with_the_join_times(
    lobby: LobbySnapshot,
    flow: ClassifyFlow,
    turn: Turn<Sightings>,
)
    requires
        classify_starts(lobby, flow, turn),
    ensures
        turn.next == Next::<Sightings>::Ask(Action::FindRecent { joined: lobby.player_join_times }),
        flow.guild_id == lobby.scope.guild_id,
        flow.seen.players@.dom().is_empty() && flow.seen.mentionable@.is_empty(),
{
}

/// What is known so far: after a step, of the players who were looked at.
pub open spec fn known(post: ClassifyFlow, turn: Turn<Sightings>) -> (
    Map<i64, ReadycheckPlayerData>,
    Set<i64>,
) {
    match turn.next {
        Next::End(seen) => (seen.players@, seen.mentionable@),
        _ => (post.seen.players@, post.seen.mentionable@),
    }
}

/// Everybody is judged by what was found of them: a member goes by the name they show and can be
/// mentioned; anybody else goes by the name that was found for them, cannot be mentioned, and is
/// away unless they joined recently. Who joined recently counts as recent; otherwise who plays does,
/// then who is in voice or online is ready, and the rest are away. What was known of others stays.
pub proof fn players_are_judged_by_what_was_found(
    pre: ClassifyFlow,
    event: Event,
    post: ClassifyFlow,
    turn: Turn<Sightings>,
    other: i64,
)
    requires
        classify_step(pre, event, post, turn),
    ensures
        pre.at matches ClassifyAt::Member { player_id } ==> (event matches Event::Member(
            Ok(Some(member)),
        ) ==> {
            let (players, mentionable) = known(post, turn);
            let data = players[player_id];
            let awake = member.in_voice || member.presence is Online
                || member.presence is DoNotDisturb;
            let plays = crate::presence::plays_dota(member.activities@);
            &&& players.dom().contains(player_id)
            &&& mentionable.contains(player_id)
            &&& data.name == member.display_name
            &&& data.group is Recent <==> pre.recent@.contains(player_id)
            &&& data.group is PlayingDota <==> !pre.recent@.contains(player_id) && plays
            &&& data.group is Ready <==> !pre.recent@.contains(player_id) && !plays && awake
            &&& data.group is Afk <==> !pre.recent@.contains(player_id) && !plays && !awake
        }),
        pre.at matches ClassifyAt::Naming { player_id } ==> (event matches Event::Text(name) ==> {
            let (players, mentionable) = known(post, turn);
            &&& players.dom().contains(player_id)
            &&& players[player_id].name == name
            &&& players[player_id].group is Recent <==> pre.recent@.contains(player_id)
            &&& players[player_id].group is Afk <==> !pre.recent@.contains(player_id)
            &&& mentionable.contains(player_id) == pre.seen.mentionable@.contains(player_id)
        }),
        looked_at(pre.at) != Some(other) && !turn.waits() ==> {
            let (players, mentionable) = known(post, turn);
            &&& players.dom().contains(other) == pre.seen.players@.dom().contains(other)
            &&& pre.seen.players@.dom().contains(other) ==> players[other]
                == pre.seen.players@[other]
            &&& mentionable.contains(other) == pre.seen.mentionable@.contains(other)
        },
        pre.at is Recent ==> (event matches Event::Players(recent) ==> (!(turn.next is End)
            ==> post.recent@ == recent@)),
        !(pre.at is Recent) && !(turn.next is End) ==> post.recent@ == pre.recent@,
{
}

/// A player is looked up among the members of the lobby's own server, and named by the lobby's own
/// guild where they are not found there.
pub proof fn players_are_looked_up_on_their_server(
    pre: ClassifyFlow,
    event: Event,
    post: ClassifyFlow,
    turn: Turn<Sightings>,
)
    requires
        classify_step(pre, event, post, turn),
    ensures
        turn.next is End || post.guild_id == pre.guild_id,
        turn.next matches Next::Ask(Action::FindMember { guild_id, user_id }) ==> guild_id
            == pre.guild_id && looked_at(post.at) == Some(user_id as i64) && user_id <= i64::MAX,
        turn.next matches Next::Ask(Action::NamePlayer { guild_id, player_id }) ==> guild_id
            == pre.guild_id && looked_at(post.at) == Some(player_id),
        pre.at matches ClassifyAt::Member { player_id } ==> (event matches Event::Member(found)
            ==> (!(found matches Ok(Some(_))) ==> turn.next == Next::<Sightings>::Ask(
            Action::NamePlayer { player_id, guild_id: pre.guild_id },
        ))),
        post.at matches ClassifyAt::Member { player_id } ==> pre.at == post.at || player_id >= 0,
{
}

} // verus!
