//! `/join`: lets the invoker into a lobby.
use vstd::prelude::*;
use crate::answers::Handled;
use crate::answers::NOT_REGISTERED;
use crate::answers::SERVER_ONLY;
use crate::answers::answer;
use crate::answers::conclude;
use crate::answers::give_up;
use crate::commands::CommandContext;
use crate::commands::selected_or_open;
use crate::joining::ConfirmedLobbyJoin;
use crate::joining::JoinPresentation;
use crate::joining::Joiner;
use crate::joining::Player;
use crate::kinds::LobbyScope;
use crate::kinds::Wording;
use crate::protocol::Action;
use crate::protocol::Event;
use crate::protocol::Next;
use crate::protocol::Turn;
use crate::text::text3;

verus! {

/// The answer to a player who chose no roles.
pub const CHOOSE_ROLES: &'static str = "❌ Set your preferred roles first! Use `/player roles`.";

/// The answer where no other is at hand.
pub const COULD_NOT_JOIN: &'static str = "❌ Could not join lobby.";

/// Where the command stands.
#[derive(Debug, PartialEq, Eq)]
pub enum JoinAt {
    /// The command is being acknowledged.
    Deferring,
    /// The invoker is being looked up.
    Loading { scope: LobbyScope },
    /// The lobby is being read.
    Locating { scope: LobbyScope, name: String },
    /// The invoker is being let in.
    Joining { scope: LobbyScope, name: String },
    /// The join is being made known.
    Publishing { scope: LobbyScope },
    /// The join is being answered; the observer is told of it then.
    Confirming { scope: LobbyScope, event: Option<ConfirmedLobbyJoin> },
    /// The last answer is being sent, with this scope held.
    Closing { held: Option<LobbyScope> },
    /// Nothing is left to be done.
    Over,
}

/// The `/join` command in progress.
#[derive(Debug, PartialEq, Eq)]
pub struct JoinFlow {
    pub command: CommandContext,
    pub at: JoinAt,
}

/// The invoker was looked up: the lobby is read, if they are registered and chose roles.
pub open spec fn join_loaded(
    scope: LobbyScope,
    loaded: Result<Option<Player>, String>,
    post: JoinAt,
    turn: Turn<Handled>,
) -> bool {
    match loaded {
        Err(error) => post is Over && crate::answers::gives_up(turn, None, error@),
        Ok(None) => post == (JoinAt::Closing { held: None }) && crate::answers::answers(
            turn,
            NOT_REGISTERED@,
        ),
        Ok(Some(player)) => if !player.chose_roles() {
            post == (JoinAt::Closing { held: None }) && crate::answers::answers(turn, CHOOSE_ROLES@)
        } else {
            &&& post == (JoinAt::Locating { scope, name: player.name })
            &&& turn.only_asks(Action::ReadLobby { scope })
        },
    }
}

/// The invoker was let in or refused: a join is made known, a refusal is answered.
pub open spec fn join_seated(
    command: CommandContext,
    scope: LobbyScope,
    name: String,
    presented: Result<JoinPresentation, String>,
    post: JoinAt,
    turn: Turn<Handled>,
) -> bool {
    match presented {
        Err(error) => post is Over && crate::answers::gives_up(turn, Some(scope), error@),
        Ok(join) => match join.joined_at_ns {
            None => post == (JoinAt::Closing { held: Some(scope) }) && crate::answers::answers(
                turn,
                match join.warning {
                    Some(warning) => warning@,
                    None => COULD_NOT_JOIN@,
                },
            ),
            Some(joined_at_ns) => {
                &&& post == (JoinAt::Publishing { scope })
                &&& turn.only_asks(
                    Action::PublishJoin {
                        scope,
                        joiner: Joiner {
                            player_id: command.user_id,
                            name,
                            display_name: command.user_display_name,
                            joined_at_ns,
                        },
                        raw_reaction: false,
                    },
                )
            },
        },
    }
}

/// The join was answered: the observer is told that it was asked for, unless the answer failed.
pub open spec fn join_confirmed(
    scope: LobbyScope,
    event: Option<ConfirmedLobbyJoin>,
    result: Result<(), String>,
    post: JoinAt,
    turn: Turn<Handled>,
) -> bool {
    &&& post is Over
    &&& match result {
        Err(error) => crate::answers::gives_up(turn, Some(scope), error@),
        Ok(_) => {
            &&& turn.next == Next::<Handled>::End(Ok(()))
            &&& match event {
                Some(event) => turn.before@.len() == 2 && turn.before@[0] == (
                Action::TellExplicitJoin { event }) && turn.before@[1] == (Action::Unlock { scope }),
                None => crate::answers::frees(turn.before@, Some(scope)),
            }
        },
    }
}

/// The beginning of `/join`: it is acknowledged in private.
pub open spec fn join_starts(command: CommandContext, post: JoinFlow, turn: Turn<Handled>) -> bool {
    &&& post == (JoinFlow { command, at: JoinAt::Deferring })
    &&& turn.only_asks(Action::Defer { ephemeral: true })
}

/// One step of `/join`.
pub open spec fn join_step(
    pre: JoinFlow,
    event: Event,
    post: JoinFlow,
    turn: Turn<Handled>,
    wording: Wording,
) -> bool {
    let command = pre.command;
    &&& post.command == command
    &&& match (pre.at, event) {
        (JoinAt::Deferring, Event::Done(Err(error))) => post.at is Over
            && crate::answers::gives_up(turn, None, error@),
        (JoinAt::Deferring, Event::Done(Ok(_))) => match command.place() {
            None => post.at == (JoinAt::Closing { held: None }) && crate::answers::answers(
                turn,
                SERVER_ONLY@,
            ),
            Some((guild_id, channel_id)) => {
                let kind = crate::commands::kind_or_open(command.options@);
                &&& post.at == (JoinAt::Loading { scope: LobbyScope { guild_id, kind } })
                &&& turn.only_asks(Action::LoadPlayer { player_id: command.user_id, guild_id })
            },
        },
        (JoinAt::Loading { scope }, Event::PlayerLoaded(loaded)) => join_loaded(
            scope,
            loaded,
            post.at,
            turn,
        ),
        (JoinAt::Locating { scope, name }, Event::Lobby(lobby)) => match lobby {
            None => post.at == (JoinAt::Closing { held: None }) && crate::answers::answers(
                turn,
                "⚠️ No active "@ + wording.label_of(scope.kind)
                    + " lobby. Use `/lobby` to create one."@,
            ),
            Some(_) => {
                &&& post.at == (JoinAt::Joining { scope, name })
                &&& turn.before@.len() == 1
                &&& turn.before@[0] == (Action::Lock { scope })
                &&& turn.next == Next::<Handled>::Ask(
                    Action::JoinRegistered { scope, player_id: command.user_id, has_roles: true },
                )
            },
        },
        (JoinAt::Joining { scope, name }, Event::Presented(presented)) => join_seated(
            command,
            scope,
            name,
            presented,
            post.at,
            turn,
        ),
        (JoinAt::Publishing { scope }, Event::JoinPublished(event)) => {
            &&& post.at == (JoinAt::Confirming { scope, event })
            &&& crate::answers::answers(
                turn,
                "✅ Joined "@ + wording.label_of(scope.kind) + "!"@,
            )
        },
        (JoinAt::Confirming { scope, event }, Event::Done(result)) => join_confirmed(
            scope,
            event,
            result,
            post.at,
            turn,
        ),
        (JoinAt::Closing { held }, Event::Done(result)) => post.at is Over
            && crate::answers::concludes(turn, held, result),
        _ => post.at == pre.at && turn.waits(),
    }
}

fn on_loaded(scope: LobbyScope, loaded: Result<Option<Player>, String>) -> (r: (
    JoinAt,
    Turn<Handled>,
))
    ensures
        join_loaded(scope, loaded, r.0, r.1),
{
    match loaded {
        Err(error) => (JoinAt::Over, give_up(None, error)),
        Ok(None) => (JoinAt::Closing { held: None }, answer(NOT_REGISTERED.to_owned())),
        Ok(Some(player)) => {
            if !player.has_roles() {
                return (JoinAt::Closing { held: None }, answer(CHOOSE_ROLES.to_owned()));
            }
            (
                JoinAt::Locating { scope, name: player.name },
                Turn::ask(Action::ReadLobby { scope }),
            )
        },
    }
}

fn on_seated(
    command: &CommandContext,
    scope: LobbyScope,
    name: String,
    presented: Result<JoinPresentation, String>,
) -> (r: (JoinAt, Turn<Handled>))
    ensures
        join_seated(*command, scope, name, presented, r.0, r.1),
{
    let join = match presented {
        Err(error) => {
            return (JoinAt::Over, give_up(Some(scope), error));
        },
        Ok(join) => join,
    };
    match join.joined_at_ns {
        None => {
            let text = match join.warning {
                Some(warning) => warning,
                None => COULD_NOT_JOIN.to_owned(),
            };
            (JoinAt::Closing { held: Some(scope) }, answer(text))
        },
        Some(joined_at_ns) => {
            let joiner = Joiner {
                player_id: command.user_id,
                name,
                display_name: command.user_display_name.clone(),
                joined_at_ns,
            };
            (
                JoinAt::Publishing { scope },
                Turn::ask(Action::PublishJoin { scope, joiner, raw_reaction: false }),
            )
        },
    }
}

fn on_confirmed(
    scope: LobbyScope,
    event: Option<ConfirmedLobbyJoin>,
    result: Result<(), String>,
) -> (r: (JoinAt, Turn<Handled>))
    ensures
        join_confirmed(scope, event, result, r.0, r.1),
{
    match result {
        Err(error) => (JoinAt::Over, give_up(Some(scope), error)),
        Ok(_) => {
            let before = match event {
                Some(event) => vec![Action::TellExplicitJoin { event }, Action::Unlock { scope }],
                None => vec![Action::Unlock { scope }],
            };
            (JoinAt::Over, Turn::end_after(before, Ok(())))
        },
    }
}

impl JoinFlow {
    /// Begins the command.
    pub fn start(command: CommandContext) -> (r: (JoinFlow, Turn<Handled>))
        ensures
            join_starts(command, r.0, r.1),
            r.1.goes_on(|action: Action| r.0.awaits(action)),
    {
        (
            JoinFlow { command, at: JoinAt::Deferring },
            Turn::ask(Action::Defer { ephemeral: true }),
        )
    }

    /// Goes on with what came of the last question.
    pub fn resume(self, event: Event, wording: &Wording) -> (r: (JoinFlow, Turn<Handled>))
        ensures
            join_step(self, event, r.0, r.1, *wording),
    {
        let JoinFlow { command, at } = self;
        let (at, turn) = match (at, event) {
            (JoinAt::Deferring, Event::Done(Err(error))) => (JoinAt::Over, give_up(None, error)),
            (JoinAt::Deferring, Event::Done(Ok(_))) => match command.guild_channel() {
                None => (JoinAt::Closing { held: None }, answer(SERVER_ONLY.to_owned())),
                Some((guild_id, _)) => {
                    let scope = LobbyScope::new(guild_id, selected_or_open(&command.options));
                    (
                        JoinAt::Loading { scope },
                        Turn::ask(Action::LoadPlayer { player_id: command.user_id, guild_id }),
                    )
                },
            },
            (JoinAt::Loading { scope }, Event::PlayerLoaded(loaded)) => on_loaded(scope, loaded),
            (JoinAt::Locating { scope, name }, Event::Lobby(lobby)) => match lobby {
                None => {
                    let text = text3(
                        "⚠️ No active ",
                        wording.label(scope.kind),
                        " lobby. Use `/lobby` to create one.",
                    );
                    (JoinAt::Closing { held: None }, answer(text))
                },
                Some(_) => (
                    JoinAt::Joining { scope, name },
                    Turn::ask_after(
                        vec![Action::Lock { scope }],
                        Action::JoinRegistered {
                            scope,
                            player_id: command.user_id,
                            has_roles: true,
                        },
                    ),
                ),
            },
            (JoinAt::Joining { scope, name }, Event::Presented(presented)) => on_seated(
                &command,
                scope,
                name,
                presented,
            ),
            (JoinAt::Publishing { scope }, Event::JoinPublished(event)) => (
                JoinAt::Confirming { scope, event },
                answer(text3("✅ Joined ", wording.label(scope.kind), "!")),
            ),
            (JoinAt::Confirming { scope, event }, Event::Done(result)) => on_confirmed(
                scope,
                event,
                result,
            ),
            (JoinAt::Closing { held }, Event::Done(result)) => (
                JoinAt::Over,
                conclude(held, result),
            ),
            (at, _) => (at, Turn::wait()),
        };
        (JoinFlow { command, at }, turn)
    }
}

/// The scope that the command holds.
pub open spec fn join_holds(at: JoinAt) -> Option<LobbyScope> {
    match at {
        JoinAt::Joining { scope, .. } => Some(scope),
        JoinAt::Publishing { scope } => Some(scope),
        JoinAt::Confirming { scope, .. } => Some(scope),
        JoinAt::Closing { held } => held,
        _ => None,
    }
}

/// `/join` changes the lobby only while it holds its scope, and gives it free however it ends.
pub proof fn joins_keep_order(
    pre: JoinFlow,
    event: Event,
    post: JoinFlow,
    turn: Turn<Handled>,
    wording: Wording,
)
    requires
        join_step(pre, event, post, turn, wording),
    ensures
        crate::locking::keeps_order(join_holds(pre.at), turn, join_holds(post.at)),
{
    reveal_with_fuel(crate::locking::orderly, 4);
    reveal_with_fuel(crate::locking::held_at_end, 4);
}

/// The observer is told of an explicit join only after the join was published and its answer
/// was delivered.
pub proof fn explicit_join_is_told_after_its_answer(
    pre: JoinFlow,
    event: Event,
    post: JoinFlow,
    turn: Turn<Handled>,
    wording: Wording,
    i: int,
    told: ConfirmedLobbyJoin,
)
    requires
        join_step(pre, event, post, turn, wording),
        0 <= i < turn.before@.len(),
        turn.before@[i] == (Action::TellExplicitJoin { event: told }),
    ensures
        pre.at matches JoinAt::Confirming { scope, event } && event == Some(told),
        event matches Event::Done(Ok(_)),
{
}

impl JoinFlow {
    /// What is waited for: the answer to this question.
    pub open spec fn awaits(self, action: Action) -> bool {
        match self.at {
            JoinAt::Deferring => action is Defer,
            JoinAt::Loading { .. } => action is LoadPlayer,
            JoinAt::Locating { .. } => action is ReadLobby,
            JoinAt::Joining { .. } => action is JoinRegistered,
            JoinAt::Publishing { .. } => action is PublishJoin,
            JoinAt::Confirming { .. } => action is Reply,
            JoinAt::Closing { .. } => action is Reply,
            JoinAt::Over => false,
        }
    }
}

/// `/join` is never left waiting by the answer to what it asked for: it goes on to its end or to
/// its next question, and waits for the answer to that.
pub proof fn joins_go_on_when_answered(
    pre: JoinFlow,
    asked: Action,
    event: Event,
    post: JoinFlow,
    turn: Turn<Handled>,
    wording: Wording,
)
    requires
        join_step(pre, event, post, turn, wording),
        pre.awaits(asked),
        asked.answered_by(event),
    ensures
        turn.goes_on(|action: Action| post.awaits(action)),
{
}

/// A run of `/join`: it starts, and every turn follows from what came of the one before.
pub open spec fn join_run(
    command: CommandContext,
    states: Seq<JoinFlow>,
    events: Seq<Event>,
    turns: Seq<Turn<Handled>>,
    wording: Wording,
) -> bool {
    &&& states.len() == events.len() + 1
    &&& turns.len() == events.len()
    &&& states[0] == (JoinFlow { command, at: JoinAt::Deferring })
    &&& forall|n: int|
        0 <= n < events.len() ==> join_step(
            states[n],
            #[trigger] events[n],
            states[n + 1],
            turns[n],
            wording,
        )
}

/// Before turn `n` of the run, the invoker was looked up and found to be this player.
pub open spec fn found_as(
    states: Seq<JoinFlow>,
    events: Seq<Event>,
    n: int,
    player: Player,
) -> bool {
    exists|m: int|
        0 <= m < n && m < events.len() && states[m].at is Loading && #[trigger] events[m]
            == Event::PlayerLoaded(Ok::<Option<Player>, String>(Some(player)))
}

spec fn stays_with(at: JoinAt, scope: LobbyScope) -> bool {
    match at {
        JoinAt::Deferring => true,
        JoinAt::Loading { scope: s } => s == scope,
        JoinAt::Locating { scope: s, .. } => s == scope,
        JoinAt::Joining { scope: s, .. } => s == scope,
        JoinAt::Publishing { scope: s } => s == scope,
        JoinAt::Confirming { scope: s, .. } => s == scope,
        JoinAt::Closing { held } => held matches Some(s) ==> s == scope,
        JoinAt::Over => true,
    }
}

spec fn knows_player(states: Seq<JoinFlow>, events: Seq<Event>, n: int, name: String) -> bool {
    exists|player: Player| #[trigger]
        found_as(states, events, n, player) && player.name == name && (
        player.preferred_roles matches Some(roles) && roles@.len() > 0)
}

proof fn runs_stay_with_their_lobby(
    command: CommandContext,
    states: Seq<JoinFlow>,
    events: Seq<Event>,
    turns: Seq<Turn<Handled>>,
    wording: Wording,
    pick: Option<crate::kinds::LobbyKind>,
    n: int,
)
    requires
        join_run(command, states, events, turns, wording),
        crate::commands::picked(command.options@, pick),
        0 <= n < states.len(),
    ensures
        states[n].command == command,
        stays_with(states[n].at, crate::commands::meant_lobby(command, pick)),
        match states[n].at {
            JoinAt::Locating { name, .. } => knows_player(states, events, n, name),
            JoinAt::Joining { name, .. } => knows_player(states, events, n, name),
            _ => true,
        },
    decreases n,
{
    crate::commands::the_picked_lobby_is_chosen(command.options@, pick);
    if n > 0 {
        runs_stay_with_their_lobby(command, states, events, turns, wording, pick, n - 1);
        let (pre, event, post) = (states[n - 1], events[n - 1], states[n]);
        assert(join_step(pre, event, post, turns[n - 1], wording));
        match (pre.at, event) {
            (JoinAt::Loading { .. }, Event::PlayerLoaded(Ok(Some(player)))) => {
                assert(events[n - 1] == Event::PlayerLoaded(
                    Ok::<Option<Player>, String>(Some(player)),
                ));
                assert(found_as(states, events, n, player));
            },
            (JoinAt::Locating { name, .. }, _) => {
                known_players_stay_known(states, events, n, name);
            },
            (JoinAt::Joining { name, .. }, _) => {
                known_players_stay_known(states, events, n, name);
            },
            _ => {},
        }
    }
}

proof fn known_players_stay_known(
    states: Seq<JoinFlow>,
    events: Seq<Event>,
    n: int,
    name: String,
)
    requires
        knows_player(states, events, n - 1, name),
    ensures
        knows_player(states, events, n, name),
{
    let player = choose|player: Player| #[trigger]
        found_as(states, events, n - 1, player) && player.name == name && (
        player.preferred_roles matches Some(roles) && roles@.len() > 0);
    let m = choose|m: int|
        0 <= m < n - 1 && m < events.len() && states[m].at is Loading && #[trigger] events[m]
            == Event::PlayerLoaded(Ok::<Option<Player>, String>(Some(player)));
    assert(events[m] == Event::PlayerLoaded(Ok::<Option<Player>, String>(Some(player))));
    assert(found_as(states, events, n, player));
}

/// Whatever a run of `/join` does, it does for its invoker and in the lobby that the command
/// picked in its own guild, in the open one only where none was picked: no other lobby is taken,
/// read, joined or told of it.
pub proof fn joins_stay_in_the_picked_lobby(
    command: CommandContext,
    states: Seq<JoinFlow>,
    events: Seq<Event>,
    turns: Seq<Turn<Handled>>,
    wording: Wording,
    pick: Option<crate::kinds::LobbyKind>,
    n: int,
    action: Action,
)
    requires
        join_run(command, states, events, turns, wording),
        crate::commands::picked(command.options@, pick),
        0 <= n < turns.len(),
        turns[n].does(action),
    ensures
        crate::commands::keeps_to(action, command, crate::commands::meant_lobby(command, pick)),
{
    runs_stay_with_their_lobby(command, states, events, turns, wording, pick, n);
    crate::commands::the_picked_lobby_is_chosen(command.options@, pick);
    assert(join_step(states[n], events[n], states[n + 1], turns[n], wording));
}

/// A run of `/join` asks for a seat only once the invoker was found registered with at least one
/// role, and the lobby was found to be there; and then it does ask.
pub proof fn joins_need_a_player_with_roles(
    command: CommandContext,
    states: Seq<JoinFlow>,
    events: Seq<Event>,
    turns: Seq<Turn<Handled>>,
    wording: Wording,
    pick: Option<crate::kinds::LobbyKind>,
    n: int,
)
    requires
        join_run(command, states, events, turns, wording),
        crate::commands::picked(command.options@, pick),
        0 <= n < turns.len(),
    ensures
        (turns[n].next matches Next::Ask(Action::JoinRegistered { .. })) <==> (
        states[n].at is Locating && events[n] matches Event::Lobby(Some(_))),
        turns[n].next matches Next::Ask(Action::JoinRegistered { has_roles, .. }) ==> {
            &&& has_roles
            &&& exists|player: Player| #[trigger]
                found_as(states, events, n, player) && (player.preferred_roles matches Some(roles)
                    && roles@.len() > 0)
        },
        states[n].at is Loading ==> (events[n] matches Event::PlayerLoaded(Ok(Some(player))) ==> (
        turns[n].next matches Next::Ask(Action::ReadLobby { .. })) == (
        player.preferred_roles matches Some(roles) && roles@.len() > 0)),
{
    runs_stay_with_their_lobby(command, states, events, turns, wording, pick, n);
    assert(join_step(states[n], events[n], states[n + 1], turns[n], wording));
}

/// A join is made known exactly when the lobby let the invoker in: at the moment it gave, under
/// the name the player is registered with and the name they show, and not as a reaction.
pub proof fn joins_are_made_known_as_they_happened(
    command: CommandContext,
    states: Seq<JoinFlow>,
    events: Seq<Event>,
    turns: Seq<Turn<Handled>>,
    wording: Wording,
    pick: Option<crate::kinds::LobbyKind>,
    n: int,
)
    requires
        join_run(command, states, events, turns, wording),
        crate::commands::picked(command.options@, pick),
        0 <= n < turns.len(),
    ensures
        (turns[n].next matches Next::Ask(Action::PublishJoin { .. })) <==> (states[n].at is Joining
            && (events[n] matches Event::Presented(Ok(join)) && join.joined_at_ns is Some)),
        turns[n].next matches Next::Ask(Action::PublishJoin { joiner, raw_reaction, .. }) ==> {
            &&& !raw_reaction
            &&& joiner.display_name == command.user_display_name
            &&& events[n] matches Event::Presented(Ok(join)) && join.joined_at_ns == Some(
                joiner.joined_at_ns,
            )
            &&& exists|player: Player| #[trigger]
                found_as(states, events, n, player) && joiner.name == player.name
        },
{
    runs_stay_with_their_lobby(command, states, events, turns, wording, pick, n);
    assert(join_step(states[n], events[n], states[n + 1], turns[n], wording));
}

/// The invoker is told the outcome by name: of a join, the label of the picked lobby; of a
/// refusal, the warning that came with it; of a lobby that is not up, its label.
pub proof fn joins_are_answered_for_the_picked_lobby(
    command: CommandContext,
    states: Seq<JoinFlow>,
    events: Seq<Event>,
    turns: Seq<Turn<Handled>>,
    wording: Wording,
    pick: Option<crate::kinds::LobbyKind>,
    n: int,
)
    requires
        join_run(command, states, events, turns, wording),
        crate::commands::picked(command.options@, pick),
        0 <= n < turns.len(),
    ensures
        (states[n].at is Publishing && events[n] is JoinPublished) || (states[n].at is Locating
            && events[n] == Event::Lobby(None)) ==> (turns[n].next matches Next::Ask(action)
            && crate::protocol::tells_invoker(
            action,
            wording.label_of(crate::commands::meant_lobby(command, pick).kind),
        )),
        states[n].at is Joining ==> (events[n] matches Event::Presented(Ok(join)) ==> (
        join.joined_at_ns is None ==> (join.warning matches Some(warning) ==> (
        turns[n].next matches Next::Ask(action) && crate::protocol::tells_invoker(
            action,
            warning@,
        ))))),
{
    runs_stay_with_their_lobby(command, states, events, turns, wording, pick, n);
    assert(join_step(states[n], events[n], states[n + 1], turns[n], wording));
    let label = wording.label_of(crate::commands::meant_lobby(command, pick).kind);
    crate::text::middles_stand("✅ Joined "@, label, "!"@);
    crate::text::middles_stand(
        "⚠️ No active "@,
        label,
        " lobby. Use `/lobby` to create one."@,
    );
    if let Event::Presented(Ok(join)) = events[n] {
        if let Some(warning) = join.warning {
            crate::text::texts_contain_themselves(warning@);
        }
    }
}

} // verus!
