//! Taking matched players out of the sibling lobby.
use vstd::prelude::*;
use std::collections::BTreeSet;
use crate::kinds::LobbyKind;
use crate::kinds::LobbyScope;
use crate::kinds::sibling_kind;
use crate::protocol::Action;
use crate::protocol::Event;
use crate::protocol::Next;
use crate::protocol::Turn;
use crate::protocol::WorkFailure;

verus! {

/// How an eviction ends: who was taken out.
pub type Evicted = Result<BTreeSet<i64>, String>;

/// An eviction in progress.
#[derive(Debug, PartialEq, Eq)]
pub struct EvictFlow {
    pub scope: LobbyScope,
    pub over: bool,
}

/// The sibling of a lobby in the same guild.
pub open spec fn sibling_scope(guild_id: i64, source: LobbyKind) -> LobbyScope {
    LobbyScope { guild_id, kind: crate::kinds::sibling(source) }
}

/// The beginning: the players are taken out of the other lobby of the guild.
pub open spec fn evict_starts(
    guild_id: i64,
    source: LobbyKind,
    players: BTreeSet<i64>,
    post: EvictFlow,
    turn: Turn<Evicted>,
) -> bool {
    &&& post == (EvictFlow { scope: sibling_scope(guild_id, source), over: false })
    &&& turn.only_asks(Action::RemovePlayers { players, scope: sibling_scope(guild_id, source) })
}

/// The players were taken out of the sibling lobby: where anybody was in it, that shows.
pub open spec fn eviction_done(
    scope: LobbyScope,
    removed: Result<BTreeSet<i64>, WorkFailure>,
    turn: Turn<Evicted>,
) -> bool {
    match removed {
        Err(failure) => {
            &&& turn.before@.len() == 0
            &&& turn.next matches Next::End(Err(error)) && error@ == failure.told(
                "sibling lobby eviction task failed: "@,
            )
        },
        Ok(removed) => {
            &&& turn.next == Next::<Evicted>::End(Ok(removed))
            &&& if removed@.is_empty() {
                turn.before@.len() == 0
            } else {
                &&& turn.before@.len() == 2
                &&& turn.before@[0] == (Action::SyncReadyLobby { scope })
                &&& turn.before@[1] == (Action::SyncDisplay { scope })
            }
        },
    }
}

/// One step of an eviction.
pub open spec fn evict_step(
    pre: EvictFlow,
    event: Event,
    post: EvictFlow,
    turn: Turn<Evicted>,
) -> bool {
    &&& post.scope == pre.scope
    &&& match event {
        Event::Removed(removed) => if pre.over {
            post.over && turn.waits()
        } else {
            post.over && eviction_done(pre.scope, removed, turn)
        },
        _ => post.over == pre.over && turn.waits(),
    }
}

impl EvictFlow {
    /// Begins to take matched players out of the sibling of the lobby they were matched in.
    pub fn start(guild_id: i64, source: LobbyKind, players: BTreeSet<i64>) -> (r: (
        EvictFlow,
        Turn<Evicted>,
    ))
        ensures
            evict_starts(guild_id, source, players, r.0, r.1),
            r.1.goes_on(|action: Action| r.0.awaits(action)),
    {
        let scope = LobbyScope::new(guild_id, sibling_kind(source));
        (
            EvictFlow { scope, over: false },
            Turn::ask(Action::RemovePlayers { players, scope }),
        )
    }

    /// Goes on with what came of the last question.
    pub fn resume(self, event: Event) -> (r: (EvictFlow, Turn<Evicted>))
        ensures
            evict_step(self, event, r.0, r.1),
    {
        let EvictFlow { scope, over } = self;
        if over {
            return (EvictFlow { scope, over }, Turn::wait());
        }
        match event {
            Event::Removed(removed) => {
                let turn = match removed {
                    Err(failure) => Turn::end(
                        Err(failure.tell("sibling lobby eviction task failed: ")),
                    ),
                    Ok(removed) => if removed.is_empty() {
                        Turn::end(Ok(removed))
                    } else {
                        Turn::end_after(
                            vec![
                                Action::SyncReadyLobby { scope },
                                Action::SyncDisplay { scope },
                            ],
                            Ok(removed),
                        )
                    },
                };
                (EvictFlow { scope, over: true }, turn)
            },
            _ => (EvictFlow { scope, over }, Turn::wait()),
        }
    }
}

/// An eviction leaves the lobby alone that the match was made in: it takes players out of the
/// sibling, which is never that lobby.
pub proof fn evictions_spare_the_source(guild_id: i64, source: LobbyKind)
    ensures
        sibling_scope(guild_id, source) != (LobbyScope { guild_id, kind: source }),
        sibling_scope(guild_id, source).guild_id == guild_id,
{
    crate::kinds::sibling_is_an_involution(source);
}

impl EvictFlow {
    /// What is waited for: the answer to this question.
    pub open spec fn awaits(self, action: Action) -> bool {
        !self.over && action is RemovePlayers
    }
}

/// An eviction is never left waiting by the answer to what it asked for: it goes on to its end or
/// to its next question, and waits for the answer to that.
pub proof fn evictions_go_on_when_answered(
    pre: EvictFlow,
    asked: Action,
    event: Event,
    post: EvictFlow,
    turn: Turn<Evicted>,
)
    requires
        evict_step(pre, event, post, turn),
        pre.awaits(asked),
        asked.answered_by(event),
    ensures
        turn.goes_on(|action: Action| post.awaits(action)),
{
}

/// An eviction takes exactly the given players out of the other lobby of the guild and of no other;
/// where anybody was taken out, that lobby's ready check and message follow. It reports who was
/// taken out, or the failure in its own words.
pub proof fn evictions_clear_the_other_lobby(
    guild_id: i64,
    source: LobbyKind,
    players: BTreeSet<i64>,
    start: EvictFlow,
    first: Turn<Evicted>,
    event: Event,
    post: EvictFlow,
    turn: Turn<Evicted>,
)
    requires
        evict_starts(guild_id, source, players, start, first),
        evict_step(start, event, post, turn),
    ensures
        first.next matches Next::Ask(Action::RemovePlayers { players: taken, scope }) && taken
            == players && scope.guild_id == guild_id && scope.kind != source,
        start.scope.guild_id == guild_id && start.scope.kind != source,
        event matches Event::Removed(Ok(removed)) ==> {
            &&& turn.next == Next::<Evicted>::End(Ok(removed))
            &&& !removed@.is_empty() ==> turn.does(Action::SyncReadyLobby { scope: start.scope })
                && turn.does(Action::SyncDisplay { scope: start.scope })
            &&& removed@.is_empty() ==> turn.before@.len() == 0
        },
        event matches Event::Removed(Err(failure)) ==> (turn.next matches Next::End(Err(said))
            && crate::text::contains_text(said@, failure.report@)),
{
    match event {
        Event::Removed(Ok(removed)) => {
            if !removed@.is_empty() {
                assert(turn.before@.contains(turn.before@[0]));
                assert(turn.before@.contains(turn.before@[1]));
            }
        },
        Event::Removed(Err(failure)) => {
            crate::text::middles_stand(
                "sibling lobby eviction task failed: "@,
                failure.report@,
                Seq::empty(),
            );
            crate::text::texts_contain_themselves(failure.report@);
        },
        _ => {},
    }
}

} // verus!
