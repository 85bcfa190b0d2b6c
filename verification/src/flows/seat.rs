//! Putting a registered player into a lobby. Every way to join leads through here.
use vstd::prelude::*;
use crate::joining::JoinOutcome;
use crate::joining::JoinPresentation;
use crate::joining::JoinRejection;
use crate::joining::present_outcome;
use crate::joining::present_rejection;
use crate::joining::present_warning;
use crate::kinds::LobbyScope;
use crate::kinds::Wording;
use crate::protocol::Action;
use crate::protocol::Event;
use crate::protocol::Next;
use crate::protocol::Turn;
use crate::protocol::WorkFailure;
use crate::text::text3;

verus! {

/// How an attempt to join ends.
pub type Seated = Result<JoinPresentation, String>;

/// What a player without roles is told.
pub const ROLES_TO_AUTO_JOIN: &'static str =
    "⚠️ Set your preferred roles with `/player roles` to auto-join.";

/// Where the attempt stands.
#[derive(Debug, PartialEq, Eq)]
pub enum SeatAt {
    /// The player's curfew is being looked up.
    Curfew,
    /// The lobby is being read.
    Locating,
    /// The player is being put into the lobby.
    Joining,
    /// Nothing is left to be done.
    Over,
}

/// An attempt to join in progress.
#[derive(Debug, PartialEq, Eq)]
pub struct SeatFlow {
    pub scope: LobbyScope,
    pub player_id: i64,
    pub at: SeatAt,
}

/// The attempt ends with this warning, before the lobby was asked.
pub open spec fn seat_warns(post: SeatAt, turn: Turn<Seated>, text: Seq<char>) -> bool {
    &&& post is Over
    &&& turn.before@.len() == 0
    &&& turn.next matches Next::End(Ok(p)) && crate::joining::presents_warning(p, text)
}

/// The attempt ends with this failure.
pub open spec fn seat_fails(post: SeatAt, turn: Turn<Seated>, text: Seq<char>) -> bool {
    &&& post is Over
    &&& turn.before@.len() == 0
    &&& turn.next matches Next::End(Err(error)) && error@ == text
}

/// The beginning: a player who chose roles has their curfew looked up.
pub open spec fn seat_starts(
    scope: LobbyScope,
    player_id: i64,
    has_roles: bool,
    flow: SeatFlow,
    turn: Turn<Seated>,
) -> bool {
    &&& flow.scope == scope
    &&& flow.player_id == player_id
    &&& if has_roles {
        flow.at is Curfew && turn.only_asks(Action::FindCurfew { scope, player_id })
    } else {
        seat_warns(flow.at, turn, ROLES_TO_AUTO_JOIN@)
    }
}

/// The curfew was looked up: a player inside a curfew window is refused.
pub open spec fn seat_curfew(
    scope: LobbyScope,
    curfew: Result<Option<String>, WorkFailure>,
    post: SeatAt,
    turn: Turn<Seated>,
    wording: Wording,
) -> bool {
    match curfew {
        Err(failure) => seat_fails(post, turn, failure.told("curfew lookup task failed: "@)),
        Ok(Some(window)) => {
            &&& post is Over
            &&& turn.before@.len() == 0
            &&& turn.next matches Next::End(Ok(p)) && crate::joining::presents_rejection(
                p,
                scope.kind,
                JoinRejection::Curfew(window),
                wording,
            )
        },
        Ok(None) => post is Locating && turn.only_asks(Action::ReadLobby { scope }),
    }
}

/// The lobby answered: a join is taken over by the ready checks, and the outcome is presented.
pub open spec fn seat_joined(
    scope: LobbyScope,
    joined: Result<JoinOutcome, String>,
    post: SeatAt,
    turn: Turn<Seated>,
    wording: Wording,
) -> bool {
    match joined {
        Err(error) => seat_fails(post, turn, error@),
        Ok(outcome) => {
            &&& post is Over
            &&& if outcome.joined_at_ns is Some {
                turn.before@.len() == 1 && turn.before@[0] == (Action::SyncReadyLobby { scope })
            } else {
                turn.before@.len() == 0
            }
            &&& turn.next matches Next::End(Ok(p)) && crate::joining::presents_outcome(
                p,
                scope.kind,
                outcome,
                wording,
            )
        },
    }
}

/// One step of an attempt to join.
pub open spec fn seat_step(
    pre: SeatFlow,
    event: Event,
    post: SeatFlow,
    turn: Turn<Seated>,
    wording: Wording,
) -> bool {
    &&& post.scope == pre.scope
    &&& post.player_id == pre.player_id
    &&& match (pre.at, event) {
        (SeatAt::Curfew, Event::Curfew(curfew)) => seat_curfew(
            pre.scope,
            curfew,
            post.at,
            turn,
            wording,
        ),
        (SeatAt::Locating, Event::Lobby(lobby)) => match lobby {
            None => seat_warns(
                post.at,
                turn,
                "⚠️ No active "@ + wording.label_of(pre.scope.kind) + " lobby."@,
            ),
            Some(_) => post.at is Joining && turn.only_asks(
                Action::Join { player_id: pre.player_id, scope: pre.scope },
            ),
        },
        (SeatAt::Joining, Event::Joined(joined)) => seat_joined(
            pre.scope,
            joined,
            post.at,
            turn,
            wording,
        ),
        _ => post.at == pre.at && turn.waits(),
    }
}

fn warn(text: String) -> (r: (SeatAt, Turn<Seated>))
    ensures
        seat_warns(r.0, r.1, text@),
{
    (SeatAt::Over, Turn::end(Ok(present_warning(text))))
}

fn fail(text: String) -> (r: (SeatAt, Turn<Seated>))
    ensures
        seat_fails(r.0, r.1, text@),
{
    (SeatAt::Over, Turn::end(Err(text)))
}

fn on_curfew(
    scope: LobbyScope,
    curfew: Result<Option<String>, WorkFailure>,
    wording: &Wording,
) -> (r: (SeatAt, Turn<Seated>))
    ensures
        seat_curfew(scope, curfew, r.0, r.1, *wording),
{
    match curfew {
        Err(failure) => fail(failure.tell("curfew lookup task failed: ")),
        Ok(Some(window)) => (
            SeatAt::Over,
            Turn::end(Ok(present_rejection(scope.kind, JoinRejection::Curfew(window), wording))),
        ),
        Ok(None) => (SeatAt::Locating, Turn::ask(Action::ReadLobby { scope })),
    }
}

fn on_joined(scope: LobbyScope, joined: Result<JoinOutcome, String>, wording: &Wording) -> (r: (
    SeatAt,
    Turn<Seated>,
))
    ensures
        seat_joined(scope, joined, r.0, r.1, *wording),
{
    match joined {
        Err(error) => fail(error),
        Ok(outcome) => {
            let before = if outcome.joined_at_ns.is_some() {
                vec![Action::SyncReadyLobby { scope }]
            } else {
                Vec::new()
            };
            (
                SeatAt::Over,
                Turn::end_after(before, Ok(present_outcome(scope.kind, outcome, wording))),
            )
        },
    }
}

impl SeatFlow {
    /// Begins an attempt to join.
    pub fn start(scope: LobbyScope, player_id: i64, has_roles: bool) -> (r: (
        SeatFlow,
        Turn<Seated>,
    ))
        ensures
            seat_starts(scope, player_id, has_roles, r.0, r.1),
            r.1.goes_on(|action: Action| r.0.awaits(action)),
    {
        let (at, turn) = if has_roles {
            (SeatAt::Curfew, Turn::ask(Action::FindCurfew { scope, player_id }))
        } else {
            warn(ROLES_TO_AUTO_JOIN.to_owned())
        };
        (SeatFlow { scope, player_id, at }, turn)
    }

    /// Goes on with what came of the last question.
    pub fn resume(self, event: Event, wording: &Wording) -> (r: (SeatFlow, Turn<Seated>))
        ensures
            seat_step(self, event, r.0, r.1, *wording),
    {
        let SeatFlow { scope, player_id, at } = self;
        let (at, turn) = match (at, event) {
            (SeatAt::Curfew, Event::Curfew(curfew)) => on_curfew(scope, curfew, wording),
            (SeatAt::Locating, Event::Lobby(lobby)) => match lobby {
                None => warn(text3("⚠️ No active ", wording.label(scope.kind), " lobby.")),
                Some(_) => (SeatAt::Joining, Turn::ask(Action::Join { player_id, scope })),
            },
            (SeatAt::Joining, Event::Joined(joined)) => on_joined(scope, joined, wording),
            (at, _) => (at, Turn::wait()),
        };
        (SeatFlow { scope, player_id, at }, turn)
    }
}

/// A run of an attempt to join: it starts, and every turn follows from what came of the one
/// before.
pub open spec fn seat_run(
    scope: LobbyScope,
    player_id: i64,
    has_roles: bool,
    first: Turn<Seated>,
    states: Seq<SeatFlow>,
    events: Seq<Event>,
    turns: Seq<Turn<Seated>>,
    wording: Wording,
) -> bool {
    &&& states.len() == events.len() + 1
    &&& turns.len() == events.len()
    &&& seat_starts(scope, player_id, has_roles, states[0], first)
    &&& forall|n: int|
        0 <= n < events.len() ==> seat_step(
            states[n],
            #[trigger] events[n],
            states[n + 1],
            turns[n],
            wording,
        )
}

/// Up to turn `n` of the run, the curfew was looked up and the player was found outside it.
pub open spec fn found_free(events: Seq<Event>, n: int) -> bool {
    exists|m: int| 0 <= m < n && m < events.len() && #[trigger] events[m] == Event::Curfew(Ok(None))
}

proof fn runs_ask_for_the_curfew(
    scope: LobbyScope,
    player_id: i64,
    has_roles: bool,
    first: Turn<Seated>,
    states: Seq<SeatFlow>,
    events: Seq<Event>,
    turns: Seq<Turn<Seated>>,
    wording: Wording,
    n: int,
)
    requires
        seat_run(scope, player_id, has_roles, first, states, events, turns, wording),
        0 <= n < states.len(),
    ensures
        states[n].scope == scope && states[n].player_id == player_id,
        !(states[n].at is Over) ==> has_roles,
        states[n].at is Locating || states[n].at is Joining ==> found_free(events, n),
    decreases n,
{
    if n > 0 {
        runs_ask_for_the_curfew(
            scope,
            player_id,
            has_roles,
            first,
            states,
            events,
            turns,
            wording,
            n - 1,
        );
        assert(seat_step(states[n - 1], events[n - 1], states[n], turns[n - 1], wording));
        if found_free(events, n - 1) {
            let m = choose|m: int|
                0 <= m < n - 1 && m < events.len() && #[trigger] events[m] == Event::Curfew(
                    Ok(None),
                );
            assert(found_free(events, n));
        }
        if states[n].at is Locating && states[n - 1].at is Curfew {
            assert(events[n - 1] == Event::Curfew(Ok(None)));
            assert(found_free(events, n));
        }
    }
}

/// No player is put into a lobby during their own curfew, or without having chosen roles:
/// whenever a run asks the lobby to take a player in, the player has roles, and their curfew was
/// looked up in that run and found not to be in force. It is the player and the lobby that the
/// attempt is about.
pub proof fn joins_respect_the_curfew(
    scope: LobbyScope,
    player_id: i64,
    has_roles: bool,
    first: Turn<Seated>,
    states: Seq<SeatFlow>,
    events: Seq<Event>,
    turns: Seq<Turn<Seated>>,
    wording: Wording,
    n: int,
    player: i64,
    lobby: LobbyScope,
)
    requires
        seat_run(scope, player_id, has_roles, first, states, events, turns, wording),
        0 <= n < turns.len(),
        turns[n].next == Next::<Seated>::Ask(Action::Join { player_id: player, scope: lobby }),
    ensures
        has_roles,
        found_free(events, n),
        player == player_id && lobby == scope,
{
    runs_ask_for_the_curfew(
        scope,
        player_id,
        has_roles,
        first,
        states,
        events,
        turns,
        wording,
        n,
    );
    assert(seat_step(states[n], events[n], states[n + 1], turns[n], wording));
}

/// A player who is told that they joined did join: the presentation comes from the lobby's own
/// answer, with its moment.
pub proof fn only_the_lobby_confirms_a_join(
    pre: SeatFlow,
    event: Event,
    post: SeatFlow,
    turn: Turn<Seated>,
    wording: Wording,
    presentation: JoinPresentation,
    moment: i64,
)
    requires
        seat_step(pre, event, post, turn, wording),
        turn.next == Next::<Seated>::End(Ok(presentation)),
        presentation.joined_at_ns == Some(moment),
    ensures
        event matches Event::Joined(Ok(outcome)) && outcome.joined_at_ns == Some(moment),
{
}

impl SeatFlow {
    /// What is waited for: the answer to this question.
    pub open spec fn awaits(self, action: Action) -> bool {
        match self.at {
            SeatAt::Curfew => action is FindCurfew,
            SeatAt::Locating => action is ReadLobby,
            SeatAt::Joining => action is Join,
            SeatAt::Over => false,
        }
    }
}

/// An attempt to join is never left waiting by the answer to what it asked for: it goes on to its
/// end or to its next question, and waits for the answer to that.
pub proof fn seats_go_on_when_answered(
    pre: SeatFlow,
    asked: Action,
    event: Event,
    post: SeatFlow,
    turn: Turn<Seated>,
    wording: Wording,
)
    requires
        seat_step(pre, event, post, turn, wording),
        pre.awaits(asked),
        asked.answered_by(event),
    ensures
        turn.goes_on(|action: Action| post.awaits(action)),
{
}

/// A seat is given as the lobby decides. Who chose no roles is not even tried; who is in a curfew is
/// refused with its window; a lobby that is not up is named by its label. The moment of a join is
/// that which the lobby gave, and its ready check then follows; a failure is reported in its own
/// words.
pub proof fn seats_are_given_as_the_lobby_decides(
    scope: LobbyScope,
    player_id: i64,
    has_roles: bool,
    start: SeatFlow,
    first: Turn<Seated>,
    pre: SeatFlow,
    event: Event,
    post: SeatFlow,
    turn: Turn<Seated>,
    wording: Wording,
)
    requires
        seat_starts(scope, player_id, has_roles, start, first),
        pre.scope == scope,
        pre.player_id == player_id,
        seat_step(pre, event, post, turn, wording),
    ensures
        start.scope == scope && start.player_id == player_id,
        post.scope == scope && post.player_id == player_id,
        has_roles ==> first.only_asks(Action::FindCurfew { scope, player_id }),
        !has_roles ==> (first.next matches Next::End(Ok(p)) && p.joined_at_ns is None
            && p.warning is Some),
        pre.at is Curfew && event == Event::Curfew(Ok(None)) ==> turn.only_asks(
            Action::ReadLobby { scope },
        ),
        pre.at is Curfew ==> (event matches Event::Curfew(Ok(Some(window))) ==> (
        turn.next matches Next::End(Ok(p)) && p.joined_at_ns is None && p.rejection == Some(
            JoinRejection::Curfew(window),
        ) && (p.warning matches Some(warning) && crate::text::contains_text(warning@, window@)))),
        pre.at is Curfew ==> (event matches Event::Curfew(Err(failure)) ==> (
        turn.next matches Next::End(Err(said)) && crate::text::contains_text(
            said@,
            failure.report@,
        ))),
        pre.at is Locating ==> (event matches Event::Lobby(Some(_)) ==> turn.only_asks(
            Action::Join { player_id, scope },
        )),
        pre.at is Locating && event == Event::Lobby(None) ==> (turn.next matches Next::End(Ok(p))
            && p.joined_at_ns is None && (p.warning matches Some(warning)
            && crate::text::contains_text(warning@, wording.label_of(scope.kind)))),
        pre.at is Joining ==> (event matches Event::Joined(Ok(outcome)) ==> (
        turn.next matches Next::End(Ok(p)) && p.joined_at_ns == outcome.joined_at_ns && (
        outcome.joined_at_ns is None ==> p.rejection is Some && p.warning is Some) && (
        outcome.joined_at_ns is Some) == turn.does(Action::SyncReadyLobby { scope }))),
        pre.at is Joining ==> (event matches Event::Joined(Err(error)) ==> (
        turn.next matches Next::End(Err(said)) && said@ == error@)),
{
    if turn.before@.len() == 1 {
        assert(turn.before@.contains(turn.before@[0]));
    }
    match event {
        Event::Curfew(Ok(Some(window))) => {
            crate::text::middles_stand(
                "❌ You're inside your "@,
                window@,
                " curfew window. Use `/player curfew remove` if you'd rather queue through it."@,
            );
        },
        Event::Curfew(Err(failure)) => {
            crate::text::middles_stand(
                "curfew lookup task failed: "@,
                failure.report@,
                Seq::empty(),
            );
            crate::text::texts_contain_themselves(failure.report@);
        },
        _ => {},
    }
    crate::text::middles_stand("⚠️ No active "@, wording.label_of(scope.kind), " lobby."@);
}

} // verus!
