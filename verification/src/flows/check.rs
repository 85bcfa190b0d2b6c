//! Running a ready check: looking at the players, planning the check and having it carried out.
use vstd::prelude::*;
use std::collections::BTreeMap;
use std::collections::BTreeSet;
use crate::flows::publication::Ran;
use crate::ids::to_u64;
use crate::kinds::LobbyKind;
use crate::kinds::LobbyScope;
use crate::message::DiscordMessageSnapshot;
use crate::plan::ExistingMessageState;
use crate::plan::PlanOrder;
use crate::plan::ReadycheckCommandPlan;
use crate::plan::ReadycheckCommandRequest;
use crate::protocol::Action;
use crate::protocol::Event;
use crate::protocol::Next;
use crate::protocol::Turn;
use crate::protocol::WorkFailure;
use crate::readycheck::ReadycheckCommandFailure;
use crate::readycheck::ReadycheckGeneration;
use crate::readycheck::ReadycheckPlayerData;
use crate::readycheck::ReadycheckRunError;
use crate::roster::reserved_players;
use crate::sets::members;
use crate::sets::same_set;

verus! {

/// What a ready check was asked for.
#[derive(Clone, Copy, Debug, PartialEq, Eq, Structural)]
pub struct CheckRequest {
    pub scope: LobbyScope,
    pub invoker_id: i64,
    pub channel_id: i64,
    pub confirm_invoker: bool,
    pub mirror_invocation: bool,
}

/// The players of a lobby, as a ready check looks at them.
#[derive(Debug, PartialEq, Eq)]
pub struct Roll {
    pub roster: BTreeSet<i64>,
    pub players: BTreeMap<i64, ReadycheckPlayerData>,
    pub mentionable: BTreeSet<i64>,
}

/// Where the check stands.
#[derive(Debug, PartialEq, Eq)]
pub enum CheckAt {
    /// The lobby is being read.
    Reading,
    /// The players are being looked at.
    Classifying { roster: BTreeSet<i64> },
    /// The running check is being read.
    Checking { roll: Roll },
    /// The message of the running check is being looked up.
    Fetching { roll: Roll },
    /// It is being found out which players a shuffle or draft holds.
    Holding { roll: Roll, existing: ExistingMessageState },
    /// The check is being planned.
    Preparing { roll: Roll },
    /// The players who are away for too long are being taken out of the lobby.
    Pruning { roll: Roll, plan: ReadycheckCommandPlan },
    /// The plan is being carried out.
    Executing,
    /// Nothing is left to be done.
    Over,
}

/// A ready check in progress.
#[derive(Debug, PartialEq, Eq)]
pub struct CheckFlow {
    pub request: CheckRequest,
    pub at: CheckAt,
}

/// The check takes its scope, lets the ready checks take over the lobby and reads it.
pub open spec fn check_starts(request: CheckRequest, flow: CheckFlow, turn: Turn<Ran>) -> bool {
    &&& flow == (CheckFlow { request, at: CheckAt::Reading })
    &&& turn.before@.len() == 2
    &&& turn.before@[0] == (Action::Lock { scope: request.scope })
    &&& turn.before@[1] == (Action::SyncReadyLobby { scope: request.scope })
    &&& turn.next == Next::<Ran>::Ask(Action::ReadLobby { scope: request.scope })
}

/// The check gives its scope free and ends.
pub open spec fn closes(scope: LobbyScope, post: CheckAt, turn: Turn<Ran>) -> bool {
    &&& post is Over
    &&& turn.before@.len() == 1
    &&& turn.before@[0] == (Action::Unlock { scope })
    &&& turn.next is End
}

/// The check ends with this report of a failed delivery.
pub open spec fn check_fails(
    scope: LobbyScope,
    post: CheckAt,
    turn: Turn<Ran>,
    text: Seq<char>,
) -> bool {
    &&& closes(scope, post, turn)
    &&& turn.next matches Next::End(Err(error)) && crate::readycheck::transport_error(error, text)
}

/// The check is refused.
pub open spec fn check_refused(
    scope: LobbyScope,
    post: CheckAt,
    turn: Turn<Ran>,
    failure: ReadycheckCommandFailure,
) -> bool {
    &&& closes(scope, post, turn)
    &&& turn.next == Next::<Ran>::End(Err(ReadycheckRunError::Policy(failure)))
}

/// It is asked which players a shuffle or draft holds.
pub open spec fn asks_holders(
    request: CheckRequest,
    roll: Roll,
    existing: ExistingMessageState,
    post: CheckAt,
    turn: Turn<Ran>,
) -> bool {
    &&& post == (CheckAt::Holding { roll, existing })
    &&& turn.before@.len() == 0
    &&& turn.next matches Next::Ask(Action::ReadHolders { guild_id, players }) && guild_id
        == request.scope.guild_id && players@ == crate::sets::listing(roll.roster@)
}

/// The running check was read: its message is looked up, if there is one.
pub open spec fn check_is_read(
    request: CheckRequest,
    roll: Roll,
    check: Option<ReadycheckGeneration>,
    post: CheckAt,
    turn: Turn<Ran>,
) -> bool {
    match check {
        None => asks_holders(request, roll, ExistingMessageState::Missing, post, turn),
        Some(generation) => match crate::lobby::first_bad_id(
            generation.channel_id,
            generation.message_id,
            0,
        ) {
            Some(bad) => check_fails(
                request.scope,
                post,
                turn,
                crate::ids::bad_snowflake_text(bad as int),
            ),
            None => {
                &&& post == (CheckAt::Fetching { roll })
                &&& turn.only_asks(
                    Action::Fetch {
                        channel_id: generation.channel_id as u64,
                        message_id: generation.message_id as u64,
                    },
                )
            },
        },
    }
}

/// What is known of the message of the running check.
pub open spec fn message_state(
    fetched: Result<Option<DiscordMessageSnapshot>, String>,
) -> ExistingMessageState {
    match fetched {
        Ok(Some(_)) => ExistingMessageState::Available,
        Ok(None) => ExistingMessageState::Missing,
        Err(_) => ExistingMessageState::Unknown,
    }
}

/// The holders are known: the check is planned, with the players held by this very lobby set
/// apart.
pub open spec fn plans(
    request: CheckRequest,
    roll: Roll,
    existing: ExistingMessageState,
    holders: Seq<Option<LobbyKind>>,
    post: CheckAt,
    turn: Turn<Ran>,
) -> bool {
    &&& post == (CheckAt::Preparing { roll })
    &&& turn.before@.len() == 0
    &&& turn.next matches Next::Ask(Action::PrepareCheck { request: asked, players }) && players@
        == roll.players@ && asked.scope == request.scope && asked.invoker_id == request.invoker_id
        && asked.invocation_channel_id == request.channel_id && asked.confirm_invoker
        == request.confirm_invoker && asked.existing_message == existing
        && crate::roster::held_players(
        asked.reserved_players@,
        crate::sets::listing(roll.roster@),
        holders,
        request.scope.kind,
    )
}

/// The plan is handed over to be carried out.
pub open spec fn hands_over(
    request: CheckRequest,
    roll: Roll,
    plan: ReadycheckCommandPlan,
    post: CheckAt,
    next: Next<Ran>,
) -> bool {
    &&& post is Executing
    &&& next == Next::<Ran>::Ask(
        Action::ExecutePlan {
            order: PlanOrder {
                plan,
                players: roll.players,
                mentionable: roll.mentionable,
                invocation_channel_id: request.channel_id,
                mirror_invocation: request.mirror_invocation,
            },
        },
    )
}

/// The check was planned: players who are away for too long leave the lobby first.
pub open spec fn is_planned(
    request: CheckRequest,
    roll: Roll,
    prepared: Result<ReadycheckCommandPlan, ReadycheckCommandFailure>,
    post: CheckAt,
    turn: Turn<Ran>,
) -> bool {
    match prepared {
        Err(failure) => check_refused(request.scope, post, turn, failure),
        Ok(plan) => if plan.pruned_players@.is_empty() {
            turn.before@.len() == 0 && hands_over(request, roll, plan, post, turn.next)
        } else {
            &&& post == (CheckAt::Pruning { roll, plan })
            &&& turn.before@.len() == 0
            &&& turn.next matches Next::Ask(Action::RemovePlayers { players, scope }) && players@
                == plan.pruned_players@ && scope == request.scope
        },
    }
}

/// The players who are away left the lobby: the plan is carried out. Where others left than
/// were planned, the check is called off.
pub open spec fn is_pruned(
    request: CheckRequest,
    roll: Roll,
    plan: ReadycheckCommandPlan,
    removed: Result<BTreeSet<i64>, WorkFailure>,
    post: CheckAt,
    turn: Turn<Ran>,
) -> bool {
    let scope = request.scope;
    match removed {
        Err(error) => check_fails(scope, post, turn, error.report@),
        Ok(removed) => if removed@ == plan.pruned_players@ {
            &&& turn.before@.len() == 1
            &&& turn.before@[0] == (Action::SyncReadyLobby { scope })
            &&& hands_over(request, roll, plan, post, turn.next)
        } else {
            let given_back: int = if plan.permit is Some {
                1
            } else {
                0
            };
            &&& post is Over
            &&& turn.before@.len() == given_back + 2
            &&& plan.permit matches Some(permit) ==> turn.before@[0] == (Action::AbortPublication {
                permit,
            })
            &&& turn.before@[given_back] == (Action::SyncReadyLobby { scope })
            &&& turn.before@[given_back + 1] == (Action::Unlock { scope })
            &&& turn.next matches Next::End(Err(error)) && crate::readycheck::transport_error(
                error,
                "readycheck stale-prune persistence raced with lobby membership"@,
            )
        },
    }
}

/// One step of a ready check.
pub open spec fn check_step(
    pre: CheckFlow,
    event: Event,
    post: CheckFlow,
    turn: Turn<Ran>,
) -> bool {
    let scope = pre.request.scope;
    &&& post.request == pre.request
    &&& match (pre.at, event) {
        (CheckAt::Reading, Event::Lobby(lobby)) => match lobby {
            None => check_refused(scope, post.at, turn, ReadycheckCommandFailure::NoLobby),
            Some(lobby) => {
                &&& post.at matches CheckAt::Classifying { roster } && roster@ == lobby.players@
                &&& turn.only_asks(Action::Classify { lobby })
            },
        },
        (
            CheckAt::Classifying { roster },
            Event::Classified { players, mentionable },
        ) => {
            &&& post.at == (CheckAt::Checking { roll: Roll { roster, players, mentionable } })
            &&& turn.only_asks(Action::ReadCheck { scope })
        },
        (CheckAt::Checking { roll }, Event::Check(check)) => check_is_read(
            pre.request,
            roll,
            check,
            post.at,
            turn,
        ),
        (CheckAt::Fetching { roll }, Event::Fetched(fetched)) => asks_holders(
            pre.request,
            roll,
            message_state(fetched),
            post.at,
            turn,
        ),
        (CheckAt::Holding { roll, existing }, Event::Holders(holders)) => plans(
            pre.request,
            roll,
            existing,
            holders@,
            post.at,
            turn,
        ),
        (CheckAt::Preparing { roll }, Event::Prepared(prepared)) => is_planned(
            pre.request,
            roll,
            prepared,
            post.at,
            turn,
        ),
        (CheckAt::Pruning { roll, plan }, Event::Removed(removed)) => is_pruned(
            pre.request,
            roll,
            plan,
            removed,
            post.at,
            turn,
        ),
        (CheckAt::Executing, Event::CheckRan(result)) => closes(scope, post.at, turn) && turn.next
            == Next::End(result),
        _ => post.at == pre.at && turn.waits(),
    }
}

fn close(scope: LobbyScope, result: Ran) -> (r: (CheckAt, Turn<Ran>))
    ensures
        closes(scope, r.0, r.1),
        r.1.next == Next::End(result),
{
    (CheckAt::Over, Turn::end_after(vec![Action::Unlock { scope }], result))
}

fn ask_holders(request: &CheckRequest, roll: Roll, existing: ExistingMessageState) -> (r: (
    CheckAt,
    Turn<Ran>,
))
    ensures
        asks_holders(*request, roll, existing, r.0, r.1),
{
    let players = members(&roll.roster);
    (
        CheckAt::Holding { roll, existing },
        Turn::ask(Action::ReadHolders { guild_id: request.scope.guild_id, players }),
    )
}

fn on_check(request: &CheckRequest, roll: Roll, check: Option<ReadycheckGeneration>) -> (r: (
    CheckAt,
    Turn<Ran>,
))
    ensures
        check_is_read(*request, roll, check, r.0, r.1),
{
    let generation = match check {
        None => {
            return ask_holders(request, roll, ExistingMessageState::Missing);
        },
        Some(generation) => generation,
    };
    let channel_id = match to_u64(generation.channel_id) {
        Ok(id) => id,
        Err(text) => {
            return close(request.scope, Err(ReadycheckRunError::Transport(text)));
        },
    };
    let message_id = match to_u64(generation.message_id) {
        Ok(id) => id,
        Err(text) => {
            return close(request.scope, Err(ReadycheckRunError::Transport(text)));
        },
    };
    (CheckAt::Fetching { roll }, Turn::ask(Action::Fetch { channel_id, message_id }))
}

fn on_holders(
    request: &CheckRequest,
    roll: Roll,
    existing: ExistingMessageState,
    holders: &Vec<Option<LobbyKind>>,
) -> (r: (CheckAt, Turn<Ran>))
    ensures
        plans(*request, roll, existing, holders@, r.0, r.1),
{
    let roster = members(&roll.roster);
    let asked = ReadycheckCommandRequest {
        scope: request.scope,
        invoker_id: request.invoker_id,
        invocation_channel_id: request.channel_id,
        confirm_invoker: request.confirm_invoker,
        existing_message: existing,
        reserved_players: reserved_players(&roster, holders, request.scope.kind),
    };
    let players = roll.players.clone();
    (
        CheckAt::Preparing { roll },
        Turn::ask(Action::PrepareCheck { request: asked, players }),
    )
}

fn hand_over(
    request: &CheckRequest,
    roll: Roll,
    plan: ReadycheckCommandPlan,
    before: Vec<Action>,
) -> (r: (CheckAt, Turn<Ran>))
    ensures
        r.1.before@ == before@,
        hands_over(*request, roll, plan, r.0, r.1.next),
{
    let order = PlanOrder {
        plan,
        players: roll.players,
        mentionable: roll.mentionable,
        invocation_channel_id: request.channel_id,
        mirror_invocation: request.mirror_invocation,
    };
    (CheckAt::Executing, Turn::ask_after(before, Action::ExecutePlan { order }))
}

fn on_planned(
    request: &CheckRequest,
    roll: Roll,
    prepared: Result<ReadycheckCommandPlan, ReadycheckCommandFailure>,
) -> (r: (CheckAt, Turn<Ran>))
    ensures
        is_planned(*request, roll, prepared, r.0, r.1),
{
    let plan = match prepared {
        Err(failure) => {
            return close(request.scope, Err(ReadycheckRunError::Policy(failure)));
        },
        Ok(plan) => plan,
    };
    if plan.pruned_players.is_empty() {
        return hand_over(request, roll, plan, Vec::new());
    }
    let players = plan.pruned_players.clone();
    (
        CheckAt::Pruning { roll, plan },
        Turn::ask(Action::RemovePlayers { players, scope: request.scope }),
    )
}

fn on_pruned(
    request: &CheckRequest,
    roll: Roll,
    plan: ReadycheckCommandPlan,
    removed: Result<BTreeSet<i64>, WorkFailure>,
) -> (r: (CheckAt, Turn<Ran>))
    ensures
        is_pruned(*request, roll, plan, removed, r.0, r.1),
{
    let scope = request.scope;
    let removed = match removed {
        Err(error) => {
            return close(scope, Err(ReadycheckRunError::Transport(error.report)));
        },
        Ok(removed) => removed,
    };
    if same_set(&removed, &plan.pruned_players) {
        return hand_over(request, roll, plan, vec![Action::SyncReadyLobby { scope }]);
    }
    let mut before: Vec<Action> = Vec::new();
    if let Some(permit) = plan.permit {
        before.push(Action::AbortPublication { permit });
    }
    before.push(Action::SyncReadyLobby { scope });
    before.push(Action::Unlock { scope });
    let error = "readycheck stale-prune persistence raced with lobby membership".to_owned();
    (CheckAt::Over, Turn::end_after(before, Err(ReadycheckRunError::Transport(error))))
}

fn state_of(fetched: Result<Option<DiscordMessageSnapshot>, String>) -> (r: ExistingMessageState)
    ensures
        r == message_state(fetched),
{
    match fetched {
        Ok(Some(_)) => ExistingMessageState::Available,
        Ok(None) => ExistingMessageState::Missing,
        Err(_) => ExistingMessageState::Unknown,
    }
}

impl CheckFlow {
    /// Begins a ready check.
    pub fn start(request: CheckRequest) -> (r: (CheckFlow, Turn<Ran>))
        ensures
            check_starts(request, r.0, r.1),
            r.1.goes_on(|action: Action| r.0.awaits(action)),
    {
        let scope = request.scope;
        (
            CheckFlow { request, at: CheckAt::Reading },
            Turn::ask_after(
                vec![Action::Lock { scope }, Action::SyncReadyLobby { scope }],
                Action::ReadLobby { scope },
            ),
        )
    }

    /// Goes on with what came of the last question.
    pub fn resume(self, event: Event) -> (r: (CheckFlow, Turn<Ran>))
        ensures
            check_step(self, event, r.0, r.1),
    {
        let CheckFlow { request, at } = self;
        let scope = request.scope;
        let (at, turn) = match (at, event) {
            (CheckAt::Reading, Event::Lobby(lobby)) => match lobby {
                None => close(
                    scope,
                    Err(ReadycheckRunError::Policy(ReadycheckCommandFailure::NoLobby)),
                ),
                Some(lobby) => {
                    let roster = lobby.players.clone();
                    (CheckAt::Classifying { roster }, Turn::ask(Action::Classify { lobby }))
                },
            },
            (CheckAt::Classifying { roster }, Event::Classified { players, mentionable }) => (
                CheckAt::Checking { roll: Roll { roster, players, mentionable } },
                Turn::ask(Action::ReadCheck { scope }),
            ),
            (CheckAt::Checking { roll }, Event::Check(check)) => on_check(&request, roll, check),
            (CheckAt::Fetching { roll }, Event::Fetched(fetched)) => ask_holders(
                &request,
                roll,
                state_of(fetched),
            ),
            (CheckAt::Holding { roll, existing }, Event::Holders(holders)) => on_holders(
                &request,
                roll,
                existing,
                &holders,
            ),
            (CheckAt::Preparing { roll }, Event::Prepared(prepared)) => on_planned(
                &request,
                roll,
                prepared,
            ),
            (CheckAt::Pruning { roll, plan }, Event::Removed(removed)) => on_pruned(
                &request,
                roll,
                plan,
                removed,
            ),
            (CheckAt::Executing, Event::CheckRan(result)) => close(scope, result),
            (at, _) => (at, Turn::wait()),
        };
        (CheckFlow { request, at }, turn)
    }
}

/// The scope that a ready check holds.
pub open spec fn check_holds(flow: CheckFlow) -> Option<LobbyScope> {
    if flow.at is Over {
        None
    } else {
        Some(flow.request.scope)
    }
}

/// A ready check takes its scope before anything else.
pub proof fn checks_begin_in_order(request: CheckRequest, flow: CheckFlow, turn: Turn<Ran>)
    requires
        check_starts(request, flow, turn),
    ensures
        crate::locking::keeps_order(None, turn, check_holds(flow)),
{
    reveal_with_fuel(crate::locking::orderly, 3);
    reveal_with_fuel(crate::locking::held_at_end, 3);
}

/// A ready check changes the lobby only while it holds its scope, and gives it free however it
/// ends.
pub proof fn checks_keep_order(pre: CheckFlow, event: Event, post: CheckFlow, turn: Turn<Ran>)
    requires
        check_step(pre, event, post, turn),
    ensures
        crate::locking::keeps_order(check_holds(pre), turn, check_holds(post)),
{
    reveal_with_fuel(crate::locking::orderly, 5);
    reveal_with_fuel(crate::locking::held_at_end, 5);
}

/// A plan is carried out only if it removed nobody, or exactly the players it was going to.
pub proof fn plans_run_on_the_roster_they_were_made_for(
    pre: CheckFlow,
    event: Event,
    post: CheckFlow,
    turn: Turn<Ran>,
    order: PlanOrder,
)
    requires
        check_step(pre, event, post, turn),
        turn.next == Next::<Ran>::Ask(Action::ExecutePlan { order }),
    ensures
        order.plan.pruned_players@.is_empty() || (event matches Event::Removed(Ok(removed))
            && removed@ == order.plan.pruned_players@),
{
}

impl CheckFlow {
    /// What is waited for: the answer to this question.
    pub open spec fn awaits(self, action: Action) -> bool {
        match self.at {
            CheckAt::Reading => action is ReadLobby,
            CheckAt::Classifying { .. } => action is Classify,
            CheckAt::Checking { .. } => action is ReadCheck,
            CheckAt::Fetching { .. } => action is Fetch,
            CheckAt::Holding { .. } => action is ReadHolders,
            CheckAt::Preparing { .. } => action is PrepareCheck,
            CheckAt::Pruning { .. } => action is RemovePlayers,
            CheckAt::Executing => action is ExecutePlan,
            CheckAt::Over => false,
        }
    }
}

/// A ready check is never left waiting by the answer to what it asked for: it goes on to its end or
/// to its next question, and waits for the answer to that.
pub proof fn checks_go_on_when_answered(
    pre: CheckFlow,
    asked: Action,
    event: Event,
    post: CheckFlow,
    turn: Turn<Ran>,
)
    requires
        check_step(pre, event, post, turn),
        pre.awaits(asked),
        asked.answered_by(event),
    ensures
        turn.goes_on(|action: Action| post.awaits(action)),
{
}

/// A run of a ready check: it starts, and every turn follows from what came of the one before.
pub open spec fn check_run(
    request: CheckRequest,
    first: Turn<Ran>,
    states: Seq<CheckFlow>,
    events: Seq<Event>,
    turns: Seq<Turn<Ran>>,
) -> bool {
    &&& states.len() == events.len() + 1
    &&& turns.len() == events.len()
    &&& check_starts(request, states[0], first)
    &&& forall|n: int|
        0 <= n < events.len() ==> check_step(
            states[n],
            #[trigger] events[n],
            states[n + 1],
            turns[n],
        )
}

/// The lobby was read before turn `n`, and these were its players.
pub open spec fn read_roster(events: Seq<Event>, n: int, roster: Set<i64>) -> bool {
    exists|lobby: crate::lobby::LobbySnapshot| #[trigger]
        crate::protocol::happened(
            events,
            n,
            Event::Lobby(Some(lobby)),
        ) && lobby.players@ == roster
}

/// The players were looked at before turn `n`, and this was seen of them.
pub open spec fn seen_players(
    events: Seq<Event>,
    n: int,
    players: BTreeMap<i64, ReadycheckPlayerData>,
    mentionable: BTreeSet<i64>,
) -> bool {
    crate::protocol::happened(events, n, Event::Classified { players, mentionable })
}

/// The check was planned before turn `n`, and this was the plan.
pub open spec fn was_planned(events: Seq<Event>, n: int, plan: ReadycheckCommandPlan) -> bool {
    crate::protocol::happened(
        events,
        n,
        Event::Prepared(Ok::<ReadycheckCommandPlan, ReadycheckCommandFailure>(plan)),
    )
}

/// What was found out before turn `n` of the message of the running check: it is there, it is not,
/// or that could not be found out.
pub open spec fn found_message(events: Seq<Event>, n: int, existing: ExistingMessageState) -> bool {
    match existing {
        ExistingMessageState::Available => exists|message: DiscordMessageSnapshot| #[trigger]
            crate::protocol::happened(
                events,
                n,
                Event::Fetched(Ok::<Option<DiscordMessageSnapshot>, String>(Some(message))),
            ),
        ExistingMessageState::Missing => crate::protocol::happened(
            events,
            n,
            Event::Fetched(Ok::<Option<DiscordMessageSnapshot>, String>(None)),
        ) || crate::protocol::happened(events, n, Event::Check(None)),
        ExistingMessageState::Unknown => exists|error: String| #[trigger]
            crate::protocol::happened(
                events,
                n,
                Event::Fetched(Err::<Option<DiscordMessageSnapshot>, String>(error)),
            ),
    }
}

spec fn true_roll(events: Seq<Event>, n: int, roll: Roll) -> bool {
    read_roster(events, n, roll.roster@) && seen_players(events, n, roll.players, roll.mentionable)
}

spec fn keeps_facts(at: CheckAt, events: Seq<Event>, n: int) -> bool {
    match at {
        CheckAt::Classifying { roster } => read_roster(events, n, roster@),
        CheckAt::Checking { roll } => true_roll(events, n, roll),
        CheckAt::Fetching { roll } => true_roll(events, n, roll),
        CheckAt::Holding { roll, existing } => true_roll(events, n, roll) && found_message(
            events,
            n,
            existing,
        ),
        CheckAt::Preparing { roll } => true_roll(events, n, roll),
        CheckAt::Pruning { roll, plan } => true_roll(events, n, roll) && was_planned(
            events,
            n,
            plan,
        ),
        _ => true,
    }
}

proof fn rosters_stay_read(events: Seq<Event>, n: int, roster: Set<i64>)
    requires
        0 < n <= events.len(),
        read_roster(events, n - 1, roster),
    ensures
        read_roster(events, n, roster),
{
    crate::protocol::what_happened_stays(events, n);
    let lobby = choose|lobby: crate::lobby::LobbySnapshot| #[trigger]
        crate::protocol::happened(events, n - 1, Event::Lobby(Some(lobby))) && lobby.players@
            == roster;
    assert(crate::protocol::happened(events, n, Event::Lobby(Some(lobby))));
}

proof fn messages_stay_found(events: Seq<Event>, n: int, existing: ExistingMessageState)
    requires
        0 < n <= events.len(),
        found_message(events, n - 1, existing),
    ensures
        found_message(events, n, existing),
{
    crate::protocol::what_happened_stays(events, n);
    match existing {
        ExistingMessageState::Available => {
            let message = choose|message: DiscordMessageSnapshot| #[trigger]
                crate::protocol::happened(
                    events,
                    n - 1,
                    Event::Fetched(Ok::<Option<DiscordMessageSnapshot>, String>(Some(message))),
                );
            assert(crate::protocol::happened(
                events,
                n,
                Event::Fetched(Ok::<Option<DiscordMessageSnapshot>, String>(Some(message))),
            ));
        },
        ExistingMessageState::Unknown => {
            let error = choose|error: String| #[trigger]
                crate::protocol::happened(
                    events,
                    n - 1,
                    Event::Fetched(Err::<Option<DiscordMessageSnapshot>, String>(error)),
                );
            assert(crate::protocol::happened(
                events,
                n,
                Event::Fetched(Err::<Option<DiscordMessageSnapshot>, String>(error)),
            ));
        },
        ExistingMessageState::Missing => {},
    }
}

proof fn runs_keep_their_facts(
    request: CheckRequest,
    first: Turn<Ran>,
    states: Seq<CheckFlow>,
    events: Seq<Event>,
    turns: Seq<Turn<Ran>>,
    n: int,
)
    requires
        check_run(request, first, states, events, turns),
        0 <= n < states.len(),
    ensures
        states[n].request == request,
        keeps_facts(states[n].at, events, n),
    decreases n,
{
    if n > 0 {
        runs_keep_their_facts(request, first, states, events, turns, n - 1);
        let (pre, event, post) = (states[n - 1], events[n - 1], states[n]);
        assert(check_step(pre, event, post, turns[n - 1]));
        crate::protocol::what_happened_stays(events, n);
        match pre.at {
            CheckAt::Reading => {
                if let Event::Lobby(Some(lobby)) = event {
                    assert(crate::protocol::happened(events, n, Event::Lobby(Some(lobby))));
                }
            },
            CheckAt::Classifying { roster } => {
                rosters_stay_read(events, n, roster@);
            },
            CheckAt::Checking { roll } => {
                rosters_stay_read(events, n, roll.roster@);
            },
            CheckAt::Fetching { roll } => {
                rosters_stay_read(events, n, roll.roster@);
                match event {
                    Event::Fetched(Ok(Some(message))) => {
                        assert(crate::protocol::happened(
                            events,
                            n,
                            Event::Fetched(
                                Ok::<Option<DiscordMessageSnapshot>, String>(Some(message)),
                            ),
                        ));
                    },
                    Event::Fetched(Err(error)) => {
                        assert(crate::protocol::happened(
                            events,
                            n,
                            Event::Fetched(Err::<Option<DiscordMessageSnapshot>, String>(error)),
                        ));
                    },
                    _ => {},
                }
            },
            CheckAt::Holding { roll, existing } => {
                rosters_stay_read(events, n, roll.roster@);
                messages_stay_found(events, n, existing);
            },
            CheckAt::Preparing { roll } => {
                rosters_stay_read(events, n, roll.roster@);
            },
            CheckAt::Pruning { roll, .. } => {
                rosters_stay_read(events, n, roll.roster@);
            },
            _ => {},
        }
    }
}

/// A check stays in the lobby it was asked for: everything it takes, reads, changes, plans and
/// gives free is that lobby, and it looks for holders in its guild and among its players.
pub proof fn checks_stay_in_their_lobby(
    request: CheckRequest,
    first: Turn<Ran>,
    states: Seq<CheckFlow>,
    events: Seq<Event>,
    turns: Seq<Turn<Ran>>,
    n: int,
    action: Action,
)
    requires
        check_run(request, first, states, events, turns),
        0 <= n < turns.len(),
        turns[n].does(action) || first.does(action),
    ensures
        action.lobby() matches Some(scope) ==> scope == request.scope,
        action matches Action::ReadHolders { guild_id, players } ==> guild_id
            == request.scope.guild_id && (exists|roster: Set<i64>| #[trigger]
            read_roster(events, n, roster) && players@ == crate::sets::listing(roster)),
        action matches Action::Classify { lobby } ==> events[n] == Event::Lobby(Some(lobby)),
        action matches Action::Fetch { channel_id, message_id } ==> (events[n] matches Event::Check(
            Some(generation),
        ) && generation.channel_id == channel_id && generation.message_id == message_id),
{
    runs_keep_their_facts(request, first, states, events, turns, n);
    assert(check_step(states[n], events[n], states[n + 1], turns[n]));
    match states[n].at {
        CheckAt::Checking { roll } => {
            assert(read_roster(events, n, roll.roster@));
        },
        CheckAt::Fetching { roll } => {
            assert(read_roster(events, n, roll.roster@));
        },
        _ => {},
    }
}

/// The planner is asked for what the check was asked for, and for nothing else: the same lobby,
/// invoker and channel, the invoker counted as ready exactly if that was asked; with the players as
/// they were seen, with what was found out of the running check's message, and with exactly those
/// set apart whom this very lobby's shuffle or draft holds.
pub proof fn plans_are_asked_for_as_requested(
    request: CheckRequest,
    first: Turn<Ran>,
    states: Seq<CheckFlow>,
    events: Seq<Event>,
    turns: Seq<Turn<Ran>>,
    n: int,
    asked: ReadycheckCommandRequest,
    players: BTreeMap<i64, ReadycheckPlayerData>,
)
    requires
        check_run(request, first, states, events, turns),
        0 <= n < turns.len(),
        turns[n].does(Action::PrepareCheck { request: asked, players }),
    ensures
        asked.scope == request.scope,
        asked.invoker_id == request.invoker_id,
        asked.invocation_channel_id == request.channel_id,
        asked.confirm_invoker == request.confirm_invoker,
        found_message(events, n, asked.existing_message),
        exists|seen: BTreeMap<i64, ReadycheckPlayerData>, mentionable: BTreeSet<i64>|
            #[trigger] seen_players(events, n, seen, mentionable) && players@ == seen@,
        events[n] matches Event::Holders(holders) && exists|roster: Set<i64>| #[trigger]
            read_roster(events, n, roster) && (forall|id: i64| #[trigger]
                asked.reserved_players@.contains(id) <==> exists|i: int|
                    0 <= i < holders@.len() && i < crate::sets::listing(roster).len()
                        && crate::sets::listing(roster)[i] == id && #[trigger] holders@[i] == Some(
                        request.scope.kind,
                    )),
{
    runs_keep_their_facts(request, first, states, events, turns, n);
    assert(check_step(states[n], events[n], states[n + 1], turns[n]));
    if let (CheckAt::Holding { roll, .. }, Event::Holders(holders)) = (states[n].at, events[n]) {
        assert(read_roster(events, n, roll.roster@));
        assert(seen_players(events, n, roll.players, roll.mentionable));
        let listed = crate::sets::listing(roll.roster@);
        assert forall|id: i64| #[trigger] asked.reserved_players@.contains(id) <==> exists|i: int|
            0 <= i < holders@.len() && i < listed.len() && listed[i] == id && #[trigger] holders@[i]
                == Some(request.scope.kind) by {
            if asked.reserved_players@.contains(id) {
                let i = choose|i: int|
                    0 <= i < listed.len() && i < holders@.len() && listed[i] == id
                        && #[trigger] holders@[i] == Some(request.scope.kind);
                assert(holders@[i] == Some(request.scope.kind));
            }
        }
    }
}

/// What is carried out is the plan that was made, with the players as they were seen, from the
/// channel and with the repetition that was asked for; where it drops players, exactly these leave
/// the lobby first.
pub proof fn plans_are_carried_out_as_made(
    request: CheckRequest,
    first: Turn<Ran>,
    states: Seq<CheckFlow>,
    events: Seq<Event>,
    turns: Seq<Turn<Ran>>,
    n: int,
    action: Action,
)
    requires
        check_run(request, first, states, events, turns),
        0 <= n < turns.len(),
        turns[n].does(action),
    ensures
        action matches Action::ExecutePlan { order } ==> {
            &&& was_planned(events, n + 1, order.plan)
            &&& seen_players(events, n, order.players, order.mentionable)
            &&& order.invocation_channel_id == request.channel_id
            &&& order.mirror_invocation == request.mirror_invocation
        },
        action matches Action::RemovePlayers { players, .. } ==> (events[n] matches Event::Prepared(
            Ok(plan),
        ) && players@ == plan.pruned_players@ && !players@.is_empty()),
        action matches Action::AbortPublication { permit } ==> (exists|
            plan: ReadycheckCommandPlan,
        | #[trigger] was_planned(events, n, plan) && plan.permit == Some(permit)),
{
    runs_keep_their_facts(request, first, states, events, turns, n);
    assert(check_step(states[n], events[n], states[n + 1], turns[n]));
    crate::protocol::what_happened_stays(events, n + 1);
    if let CheckAt::Pruning { plan, .. } = states[n].at {
        assert(was_planned(events, n, plan));
    }
}

/// Nothing stops a check but what was refused or failed: a lobby that is there is looked at, what
/// was seen leads to the planner, a plan is carried out, and what came of it is what is reported.
pub proof fn checks_go_through(pre: CheckFlow, event: Event, post: CheckFlow, turn: Turn<Ran>)
    requires
        check_step(pre, event, post, turn),
    ensures
        pre.at is Reading ==> match event {
            Event::Lobby(Some(lobby)) => turn.next == Next::<Ran>::Ask(Action::Classify { lobby }),
            Event::Lobby(None) => turn.next == Next::<Ran>::End(
                Err(ReadycheckRunError::Policy(ReadycheckCommandFailure::NoLobby)),
            ),
            _ => turn.next is Wait,
        },
        pre.at is Classifying && event is Classified ==> turn.next == Next::<Ran>::Ask(
            Action::ReadCheck { scope: pre.request.scope },
        ),
        pre.at is Checking ==> (event matches Event::Check(check) ==> match check {
            None => turn.next matches Next::Ask(Action::ReadHolders { .. }),
            Some(generation) => generation.channel_id >= 0 && generation.message_id >= 0 ==> (
            turn.next matches Next::Ask(Action::Fetch { .. })),
        }),
        pre.at is Fetching && event is Fetched ==> (turn.next matches Next::Ask(
            Action::ReadHolders { .. },
        )),
        pre.at is Holding && event is Holders ==> (turn.next matches Next::Ask(
            Action::PrepareCheck { .. },
        )),
        pre.at is Preparing ==> match event {
            Event::Prepared(Ok(plan)) => if plan.pruned_players@.is_empty() {
                turn.next matches Next::Ask(Action::ExecutePlan { .. })
            } else {
                turn.next matches Next::Ask(Action::RemovePlayers { .. })
            },
            Event::Prepared(Err(failure)) => turn.next == Next::<Ran>::End(
                Err(ReadycheckRunError::Policy(failure)),
            ),
            _ => turn.next is Wait,
        },
        pre.at matches CheckAt::Pruning { plan, .. } ==> (event matches Event::Removed(Ok(removed))
            ==> {
            &&& removed@ == plan.pruned_players@ ==> (turn.next matches Next::Ask(
                Action::ExecutePlan { .. },
            )) && turn.does(Action::SyncReadyLobby { scope: pre.request.scope })
            &&& removed@ != plan.pruned_players@ ==> (turn.next matches Next::End(Err(_))) && (
            plan.permit matches Some(permit) ==> turn.does(Action::AbortPublication { permit }))
        }),
        pre.at is Executing ==> (event matches Event::CheckRan(result) ==> turn.next == Next::End(
            result,
        )),
{
    if let (CheckAt::Pruning { plan, .. }, Event::Removed(Ok(removed))) = (pre.at, event) {
        if turn.before@.len() > 0 {
            assert(turn.before@.contains(turn.before@[0]));
        }
    }
}

/// A check that could not take its players out ends with the words of that failure.
pub proof fn checks_report_failures_in_their_own_words(
    pre: CheckFlow,
    event: Event,
    post: CheckFlow,
    turn: Turn<Ran>,
    text: Seq<char>,
)
    requires
        check_step(pre, event, post, turn),
        event.failure() == Some(text),
    ensures
        turn.next matches Next::End(Err(error)) ==> (
        error matches crate::readycheck::ReadycheckRunError::Transport(said) && said@ == text),
        !(turn.next matches Next::End(Ok(_))),
{
}

} // verus!
