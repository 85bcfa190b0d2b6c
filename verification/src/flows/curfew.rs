//! Showing that a player was taken out of a lobby by their curfew.
use vstd::prelude::*;
use crate::flows::display::Shown;
use crate::kinds::LobbyKind;
use crate::kinds::LobbyScope;
use crate::protocol::Action;
use crate::protocol::Event;
use crate::protocol::Next;
use crate::protocol::Turn;

verus! {

/// The display of a curfew in progress.
#[derive(Clone, Copy, Debug, PartialEq, Eq)]
pub struct CurfewFlow {
    pub scope: LobbyScope,
    pub over: bool,
}

/// The beginning: the ready check of the lobby follows, and then its message.
pub open spec fn curfew_starts(
    guild_id: i64,
    kind: LobbyKind,
    post: CurfewFlow,
    turn: Turn<Shown>,
) -> bool {
    &&& post == (CurfewFlow { scope: LobbyScope { guild_id, kind }, over: false })
    &&& turn.before@.len() == 1
    &&& turn.before@[0] == (Action::SyncReadycheck { scope: post.scope })
    &&& turn.next == Next::<Shown>::Ask(Action::SyncDisplay { scope: post.scope })
}

/// One step: the fate of the repaint ends it.
pub open spec fn curfew_step(
    pre: CurfewFlow,
    event: Event,
    post: CurfewFlow,
    turn: Turn<Shown>,
) -> bool {
    &&& post.scope == pre.scope
    &&& match event {
        Event::Done(result) => if pre.over {
            post == pre && turn.waits()
        } else {
            post.over && turn.only_ends(result)
        },
        _ => post == pre && turn.waits(),
    }
}

impl CurfewFlow {
    /// Begins to show it: first the running ready check follows the roster, then the message of
    /// the lobby is repainted.
    pub fn start(guild_id: i64, kind: LobbyKind) -> (r: (CurfewFlow, Turn<Shown>))
        ensures
            curfew_starts(guild_id, kind, r.0, r.1),
            r.1.goes_on(|action: Action| r.0.awaits(action)),
    {
        let scope = LobbyScope { guild_id, kind };
        (
            CurfewFlow { scope, over: false },
            Turn::ask_after(vec![Action::SyncReadycheck { scope }], Action::SyncDisplay { scope }),
        )
    }

    /// Goes on with what came of the last question.
    pub fn resume(self, event: Event) -> (r: (CurfewFlow, Turn<Shown>))
        ensures
            curfew_step(self, event, r.0, r.1),
    {
        match event {
            Event::Done(result) => if self.over {
                (self, Turn::wait())
            } else {
                (CurfewFlow { scope: self.scope, over: true }, Turn::end(result))
            },
            _ => (self, Turn::wait()),
        }
    }
}

/// Showing a curfew leaves every lobby as it is.
pub proof fn curfews_are_only_shown(
    pre: CurfewFlow,
    event: Event,
    post: CurfewFlow,
    turn: Turn<Shown>,
)
    requires
        curfew_step(pre, event, post, turn),
    ensures
        crate::locking::leaves_lobbies_alone(turn),
{
}

impl CurfewFlow {
    /// What is waited for: the answer to this question.
    pub open spec fn awaits(self, action: Action) -> bool {
        !self.over && action is SyncDisplay
    }
}

/// A departure at curfew is never left waiting by the answer to what it asked for: it goes on to
/// its end or to its next question, and waits for the answer to that.
pub proof fn departures_go_on_when_answered(
    pre: CurfewFlow,
    asked: Action,
    event: Event,
    post: CurfewFlow,
    turn: Turn<Shown>,
)
    requires
        curfew_step(pre, event, post, turn),
        pre.awaits(asked),
        asked.answered_by(event),
    ensures
        turn.goes_on(|action: Action| post.awaits(action)),
{
}

/// After a curfew took players out of a lobby, the ready check and the message of exactly that lobby
/// follow, and what came of the repaint is what is reported.
pub proof fn curfews_show_in_their_own_lobby(
    guild_id: i64,
    kind: LobbyKind,
    start: CurfewFlow,
    first: Turn<Shown>,
    event: Event,
    post: CurfewFlow,
    turn: Turn<Shown>,
)
    requires
        curfew_starts(guild_id, kind, start, first),
        curfew_step(start, event, post, turn),
    ensures
        first.does(Action::SyncReadycheck { scope: LobbyScope { guild_id, kind } }),
        first.does(Action::SyncDisplay { scope: LobbyScope { guild_id, kind } }),
        event matches Event::Done(result) ==> turn.only_ends(result),
{
    assert(first.before@.contains(first.before@[0]));
}

} // verus!
