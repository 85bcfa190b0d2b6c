//! Announcing that enough players are ready.
use vstd::prelude::*;
use crate::ids::to_u64;
use crate::kinds::LobbyScope;
use crate::lobby::LobbySnapshot;
use crate::protocol::Action;
use crate::protocol::Event;
use crate::protocol::Next;
use crate::protocol::Turn;

verus! {

/// Where the announcement stands.
#[derive(Debug, PartialEq, Eq)]
pub enum CompletionAt {
    /// The announcement is being claimed.
    Claiming,
    /// The running check is being read.
    Reading,
    /// The lobby is being read, for the channel it was created in.
    Targeting { channel_id: i64 },
    /// The announcement is being made.
    Announcing,
    /// Nothing is left to be done.
    Over,
}

/// An announcement in progress.
#[derive(Debug, PartialEq, Eq)]
pub struct CompletionFlow {
    pub scope: LobbyScope,
    pub message_id: i64,
    pub threshold: usize,
    pub at: CompletionAt,
}

/// The beginning: the announcement is claimed.
pub open spec fn completion_starts(
    scope: LobbyScope,
    message_id: i64,
    threshold: usize,
    post: CompletionFlow,
    turn: Turn<()>,
) -> bool {
    &&& post == (CompletionFlow { scope, message_id, threshold, at: CompletionAt::Claiming })
    &&& turn.only_asks(Action::TakeCompletion { scope, message_id, threshold })
}

/// The channel of an announcement: where the lobby was created, or else that of the check.
pub open spec fn announced_in(lobby: Option<LobbySnapshot>, channel_id: i64) -> i64 {
    crate::flows::reaction::ringing_channel(lobby, channel_id)
}

/// The claim is given back and the announcement is over.
pub open spec fn releases(
    scope: LobbyScope,
    message_id: i64,
    post: CompletionAt,
    turn: Turn<()>,
) -> bool {
    &&& post is Over
    &&& turn.before@.len() == 1
    &&& turn.before@[0] == (Action::ReleaseCompletion { scope, message_id })
    &&& turn.next == Next::End(())
}

/// One step of an announcement.
pub open spec fn completion_step(
    pre: CompletionFlow,
    event: Event,
    post: CompletionFlow,
    turn: Turn<()>,
) -> bool {
    &&& post.scope == pre.scope
    &&& post.message_id == pre.message_id
    &&& post.threshold == pre.threshold
    &&& match (pre.at, event) {
        (CompletionAt::Claiming, Event::Flag(claimed)) => if claimed {
            post.at is Reading && turn.only_asks(Action::ReadCheck { scope: pre.scope })
        } else {
            post.at is Over && turn.only_ends(())
        },
        (CompletionAt::Reading, Event::Check(check)) => match check {
            None => post.at is Over && turn.only_ends(()),
            Some(generation) => {
                &&& post.at == (CompletionAt::Targeting { channel_id: generation.channel_id })
                &&& turn.only_asks(Action::ReadLobby { scope: pre.scope })
            },
        },
        (CompletionAt::Targeting { channel_id }, Event::Lobby(lobby)) => {
            let target = announced_in(lobby, channel_id);
            if target < 0 {
                releases(pre.scope, pre.message_id, post.at, turn)
            } else {
                &&& post.at is Announcing
                &&& turn.only_asks(
                    Action::Announce {
                        channel_id: target as u64,
                        kind: pre.scope.kind,
                        threshold: pre.threshold,
                    },
                )
            }
        },
        (CompletionAt::Announcing, Event::Done(result)) => match result {
            Ok(_) => post.at is Over && turn.only_ends(()),
            Err(_) => releases(pre.scope, pre.message_id, post.at, turn),
        },
        _ => post.at == pre.at && turn.waits(),
    }
}

fn release(scope: LobbyScope, message_id: i64) -> (r: (CompletionAt, Turn<()>))
    ensures
        releases(scope, message_id, r.0, r.1),
{
    (
        CompletionAt::Over,
        Turn::end_after(vec![Action::ReleaseCompletion { scope, message_id }], ()),
    )
}

fn target(lobby: Option<LobbySnapshot>, channel_id: i64) -> (r: i64)
    ensures
        r == announced_in(lobby, channel_id),
{
    match lobby {
        Some(lobby) => match lobby.message_ids.origin_channel_id {
            Some(origin) => origin,
            None => channel_id,
        },
        None => channel_id,
    }
}

impl CompletionFlow {
    /// Begins an announcement by claiming it.
    pub fn start(scope: LobbyScope, message_id: i64, threshold: usize) -> (r: (
        CompletionFlow,
        Turn<()>,
    ))
        ensures
            completion_starts(scope, message_id, threshold, r.0, r.1),
            r.1.goes_on(|action: Action| r.0.awaits(action)),
    {
        (
            CompletionFlow { scope, message_id, threshold, at: CompletionAt::Claiming },
            Turn::ask(Action::TakeCompletion { scope, message_id, threshold }),
        )
    }

    /// Goes on with what came of the last question.
    pub fn resume(self, event: Event) -> (r: (CompletionFlow, Turn<()>))
        ensures
            completion_step(self, event, r.0, r.1),
    {
        let CompletionFlow { scope, message_id, threshold, at } = self;
        let (at, turn) = match (at, event) {
            (CompletionAt::Claiming, Event::Flag(claimed)) => if claimed {
                (CompletionAt::Reading, Turn::ask(Action::ReadCheck { scope }))
            } else {
                (CompletionAt::Over, Turn::end(()))
            },
            (CompletionAt::Reading, Event::Check(check)) => match check {
                None => (CompletionAt::Over, Turn::end(())),
                Some(generation) => (
                    CompletionAt::Targeting { channel_id: generation.channel_id },
                    Turn::ask(Action::ReadLobby { scope }),
                ),
            },
            (CompletionAt::Targeting { channel_id }, Event::Lobby(lobby)) => match to_u64(
                target(lobby, channel_id),
            ) {
                Err(_) => release(scope, message_id),
                Ok(channel_id) => (
                    CompletionAt::Announcing,
                    Turn::ask(Action::Announce { channel_id, kind: scope.kind, threshold }),
                ),
            },
            (CompletionAt::Announcing, Event::Done(result)) => match result {
                Ok(_) => (CompletionAt::Over, Turn::end(())),
                Err(_) => release(scope, message_id),
            },
            (at, _) => (at, Turn::wait()),
        };
        (CompletionFlow { scope, message_id, threshold, at }, turn)
    }
}

/// The announcement is claimed before it is made, and a claim is given back exactly where the
/// announcement could not be delivered: its channel is no channel, or the delivery failed.
pub proof fn claims_follow_delivery(
    pre: CompletionFlow,
    event: Event,
    post: CompletionFlow,
    turn: Turn<()>,
)
    requires
        completion_step(pre, event, post, turn),
    ensures
        turn.next matches Next::Ask(Action::Announce { .. }) ==> pre.at is Targeting,
        (exists|i: int|
            0 <= i < turn.before@.len() && #[trigger] turn.before@[i] == (
            Action::ReleaseCompletion { scope: pre.scope, message_id: pre.message_id })) <==> (
        (pre.at is Announcing && event matches Event::Done(Err(_))) || (pre.at matches
            CompletionAt::Targeting { channel_id } && (event matches Event::Lobby(lobby)
            && announced_in(lobby, channel_id) < 0))),
        crate::locking::leaves_lobbies_alone(turn),
{
    let given = Action::ReleaseCompletion { scope: pre.scope, message_id: pre.message_id };
    if turn.before@.len() > 0 {
        assert(turn.before@[0] == given);
    }
}

impl CompletionFlow {
    /// What is waited for: the answer to this question.
    pub open spec fn awaits(self, action: Action) -> bool {
        match self.at {
            CompletionAt::Claiming => action is TakeCompletion,
            CompletionAt::Reading => action is ReadCheck,
            CompletionAt::Targeting { .. } => action is ReadLobby,
            CompletionAt::Announcing => action is Announce,
            CompletionAt::Over => false,
        }
    }
}

/// A completion is never left waiting by the answer to what it asked for: it goes on to its end or
/// to its next question, and waits for the answer to that.
pub proof fn completions_go_on_when_answered(
    pre: CompletionFlow,
    asked: Action,
    event: Event,
    post: CompletionFlow,
    turn: Turn<()>,
)
    requires
        completion_step(pre, event, post, turn),
        pre.awaits(asked),
        asked.answered_by(event),
    ensures
        turn.goes_on(|action: Action| post.awaits(action)),
{
}

/// A completion is claimed for its own check and number of players. Once it is claimed, it is
/// announced for that lobby and that number of players, where the lobby was created, or else where
/// the check stands; a claim that nobody heard of is given back. One that was not claimed is not
/// announced.
pub proof fn completions_are_announced_where_they_belong(
    scope: LobbyScope,
    message_id: i64,
    threshold: usize,
    start: CompletionFlow,
    first: Turn<()>,
    pre: CompletionFlow,
    event: Event,
    post: CompletionFlow,
    turn: Turn<()>,
)
    requires
        completion_starts(scope, message_id, threshold, start, first),
        pre.scope == scope,
        pre.message_id == message_id,
        pre.threshold == threshold,
        completion_step(pre, event, post, turn),
    ensures
        start.scope == scope && start.message_id == message_id && start.threshold == threshold,
        post.scope == scope && post.message_id == message_id && post.threshold == threshold,
        first.next == Next::<()>::Ask(Action::TakeCompletion { scope, message_id, threshold }),
        pre.at is Claiming && event == Event::Flag(true) ==> turn.next == Next::<()>::Ask(
            Action::ReadCheck { scope },
        ),
        pre.at is Claiming && event == Event::Flag(false) ==> turn.only_ends(()),
        pre.at is Reading ==> (event matches Event::Check(Some(generation)) ==> {
            &&& post.at == (CompletionAt::Targeting { channel_id: generation.channel_id })
            &&& turn.next == Next::<()>::Ask(Action::ReadLobby { scope })
        }),
        pre.at matches CompletionAt::Targeting { channel_id } ==> (event matches Event::Lobby(lobby)
            ==> {
            let target = match lobby {
                Some(lobby) => match lobby.message_ids.origin_channel_id {
                    Some(origin) => origin,
                    None => channel_id,
                },
                None => channel_id,
            };
            &&& target >= 0 ==> turn.next == Next::<()>::Ask(
                Action::Announce { channel_id: target as u64, kind: scope.kind, threshold },
            )
            &&& target < 0 ==> turn.does(Action::ReleaseCompletion { scope, message_id })
        }),
        pre.at is Announcing ==> (event matches Event::Done(Err(_)) ==> turn.does(
            Action::ReleaseCompletion { scope, message_id },
        )),
        pre.at is Announcing ==> (event matches Event::Done(Ok(_)) ==> turn.only_ends(())),
{
    if turn.before@.len() == 1 {
        assert(turn.before@.contains(turn.before@[0]));
    }
}

} // verus!
