//! Resetting lobbies: by `/resetlobby`, and after a shuffle.
use vstd::prelude::*;
use crate::answers::Handled;
use crate::answers::SERVER_ONLY;
use crate::answers::answer;
use crate::answers::conclude;
use crate::answers::give_up;
use crate::commands::CommandContext;
use crate::commands::selected_lobby_kind;
use crate::config::LobbyRuntimeConfig;
use crate::ids::to_unsigned;
use crate::kinds::LobbyKind;
use crate::kinds::LobbyScope;
use crate::plan::ResetLobbyRequest;
use crate::protocol::Action;
use crate::protocol::Event;
use crate::protocol::Next;
use crate::protocol::Turn;
use crate::protocol::WorkFailure;
use crate::text::decimal_i64;
use crate::text::text2;

verus! {

/// Where `/resetlobby` stands.
#[derive(Debug, PartialEq, Eq)]
pub enum ResetAt {
    /// The command is being acknowledged.
    Deferring,
    /// The lobby is being reset, and the reset answered.
    Resetting,
    /// The last answer is being sent.
    Closing,
    /// Nothing is left to be done.
    Over,
}

/// The `/resetlobby` command in progress.
#[derive(Debug, PartialEq, Eq)]
pub struct ResetFlow {
    pub command: CommandContext,
    pub at: ResetAt,
}

/// The beginning: the command is acknowledged in private.
pub open spec fn reset_starts(command: CommandContext, post: ResetFlow, turn: Turn<Handled>) -> bool {
    &&& post == (ResetFlow { command, at: ResetAt::Deferring })
    &&& turn.only_asks(Action::Defer { ephemeral: true })
}

/// Acknowledged: the lobby is reset on behalf of the invoker.
pub open spec fn reset_deferred(
    command: CommandContext,
    config: LobbyRuntimeConfig,
    post: ResetAt,
    turn: Turn<Handled>,
) -> bool {
    match command.place() {
        None => post is Closing && crate::answers::answers(turn, SERVER_ONLY@),
        Some((guild_id, channel_id)) => {
            &&& post is Resetting
            &&& turn.only_asks(
                Action::ResetLobby {
                    request: ResetLobbyRequest {
                        guild_id,
                        user_id: command.user_id,
                        is_admin: command.administers(config),
                        explicit_kind: crate::commands::chosen_kind(command.options@),
                        interaction_channel_id: channel_id,
                    },
                },
            )
        },
    }
}

/// A lobby was reset, or none was: its ready check is dropped and the observer is told.
pub open spec fn reset_done(reset: Option<LobbyScope>, post: ResetAt, turn: Turn<Handled>) -> bool {
    &&& post is Over
    &&& turn.next == Next::<Handled>::End(Ok(()))
    &&& match reset {
        None => turn.before@.len() == 0,
        Some(scope) => {
            &&& turn.before@.len() > 0
            &&& turn.before@[0] == (Action::ForgetCheck { scope })
            &&& if scope.guild_id >= 0 {
                turn.before@.len() == 2 && turn.before@[1] == (Action::TellReset {
                    guild_id: scope.guild_id as u64,
                    kind: scope.kind,
                })
            } else {
                turn.before@.len() == 1
            }
        },
    }
}

/// One step of `/resetlobby`.
pub open spec fn reset_step(
    pre: ResetFlow,
    event: Event,
    post: ResetFlow,
    turn: Turn<Handled>,
    config: LobbyRuntimeConfig,
) -> bool {
    &&& post.command == pre.command
    &&& match (pre.at, event) {
        (ResetAt::Deferring, Event::Done(Err(error))) => post.at is Over
            && crate::answers::gives_up(turn, None, error@),
        (ResetAt::Deferring, Event::Done(Ok(_))) => reset_deferred(
            pre.command,
            config,
            post.at,
            turn,
        ),
        (ResetAt::Resetting, Event::Reset(reset)) => reset_done(reset, post.at, turn),
        (ResetAt::Closing, Event::Done(result)) => post.at is Over && crate::answers::concludes(
            turn,
            None,
            result,
        ),
        _ => post.at == pre.at && turn.waits(),
    }
}

fn on_deferred(command: &CommandContext, config: &LobbyRuntimeConfig) -> (r: (
    ResetAt,
    Turn<Handled>,
))
    ensures
        reset_deferred(*command, *config, r.0, r.1),
{
    match command.guild_channel() {
        None => (ResetAt::Closing, answer(SERVER_ONLY.to_owned())),
        Some((guild_id, channel_id)) => {
            let request = ResetLobbyRequest {
                guild_id,
                user_id: command.user_id,
                is_admin: command.is_admin(config),
                explicit_kind: selected_lobby_kind(&command.options),
                interaction_channel_id: channel_id,
            };
            (ResetAt::Resetting, Turn::ask(Action::ResetLobby { request }))
        },
    }
}

fn on_done(reset: Option<LobbyScope>) -> (r: (ResetAt, Turn<Handled>))
    ensures
        reset_done(reset, r.0, r.1),
{
    let mut before: Vec<Action> = Vec::new();
    if let Some(scope) = reset {
        before.push(Action::ForgetCheck { scope });
        if let Some(guild_id) = to_unsigned(scope.guild_id) {
            before.push(Action::TellReset { guild_id, kind: scope.kind });
        }
    }
    (ResetAt::Over, Turn::end_after(before, Ok(())))
}

impl ResetFlow {
    /// Begins the command.
    pub fn start(command: CommandContext) -> (r: (ResetFlow, Turn<Handled>))
        ensures
            reset_starts(command, r.0, r.1),
            r.1.goes_on(|action: Action| r.0.awaits(action)),
    {
        (
            ResetFlow { command, at: ResetAt::Deferring },
            Turn::ask(Action::Defer { ephemeral: true }),
        )
    }

    /// Goes on with what came of the last question.
    pub fn resume(self, event: Event, config: &LobbyRuntimeConfig) -> (r: (
        ResetFlow,
        Turn<Handled>,
    ))
        ensures
            reset_step(self, event, r.0, r.1, *config),
    {
        let ResetFlow { command, at } = self;
        let (at, turn) = match (at, event) {
            (ResetAt::Deferring, Event::Done(Err(error))) => (ResetAt::Over, give_up(None, error)),
            (ResetAt::Deferring, Event::Done(Ok(_))) => on_deferred(&command, config),
            (ResetAt::Resetting, Event::Reset(reset)) => on_done(reset),
            (ResetAt::Closing, Event::Done(result)) => (ResetAt::Over, conclude(None, result)),
            (at, _) => (at, Turn::wait()),
        };
        (ResetFlow { command, at }, turn)
    }
}

/// The observer is told of a reset exactly if a lobby was reset whose guild has a Discord id, and
/// is told of that guild and lobby; the ready check of the lobby is dropped first.
pub proof fn resets_are_told(
    pre: ResetFlow,
    event: Event,
    post: ResetFlow,
    turn: Turn<Handled>,
    config: LobbyRuntimeConfig,
    guild: u64,
    kind: LobbyKind,
)
    requires
        reset_step(pre, event, post, turn, config),
    ensures
        (exists|i: int|
            0 <= i < turn.before@.len() && #[trigger] turn.before@[i] == (Action::TellReset {
                guild_id: guild,
                kind,
            })) <==> (pre.at is Resetting && (event matches Event::Reset(Some(scope))
            && scope.guild_id == guild && scope.kind == kind)),
{
    let told = Action::TellReset { guild_id: guild, kind };
    if let (ResetAt::Resetting, Event::Reset(Some(scope))) = (pre.at, event) {
        if scope.guild_id == guild && scope.kind == kind {
            assert(turn.before@[1] == told);
        }
    }
}

/// How the reset after a shuffle ends: whether there was a lobby to reset.
pub type WasReset = Result<bool, String>;

/// Where the reset after a shuffle stands.
#[derive(Debug, PartialEq, Eq)]
pub enum ShuffleResetAt {
    /// The lobby is being cleared.
    Clearing,
    /// The observer is being looked for.
    Seeking,
    /// The observer is being told.
    Telling,
    /// Nothing is left to be done.
    Over,
}

/// The reset after a shuffle in progress.
#[derive(Debug, PartialEq, Eq)]
pub struct ShuffleReset {
    pub scope: LobbyScope,
    pub at: ShuffleResetAt,
}

/// The reset ends with this failure.
pub open spec fn reset_fails(
    post: ShuffleResetAt,
    turn: Turn<WasReset>,
    text: Seq<char>,
) -> bool {
    &&& post is Over
    &&& turn.before@.len() == 0
    &&& turn.next matches Next::End(Err(error)) && error@ == text
}

/// The beginning: the lobby that was shuffled is cleared.
pub open spec fn shuffle_reset_starts(
    scope: LobbyScope,
    post: ShuffleReset,
    turn: Turn<WasReset>,
) -> bool {
    &&& post == (ShuffleReset { scope, at: ShuffleResetAt::Clearing })
    &&& turn.only_asks(Action::ClearLobby { scope })
}

/// The lobby was cleared, or there was none: the ready check of a cleared one is dropped.
pub open spec fn shuffle_cleared(
    scope: LobbyScope,
    cleared: Result<bool, WorkFailure>,
    post: ShuffleResetAt,
    turn: Turn<WasReset>,
) -> bool {
    match cleared {
        Err(failure) => reset_fails(post, turn, failure.told("lobby reset task failed: "@)),
        Ok(false) => post is Over && turn.only_ends(Ok(false)),
        Ok(true) => {
            &&& post is Seeking
            &&& turn.before@.len() == 1
            &&& turn.before@[0] == (Action::ForgetCheck { scope })
            &&& turn.next == Next::<WasReset>::Ask(Action::FindObserver)
        },
    }
}

/// One step of the reset after a shuffle.
pub open spec fn shuffle_reset_step(
    pre: ShuffleReset,
    event: Event,
    post: ShuffleReset,
    turn: Turn<WasReset>,
) -> bool {
    let scope = pre.scope;
    &&& post.scope == scope
    &&& match (pre.at, event) {
        (ShuffleResetAt::Clearing, Event::Outcome(cleared)) => shuffle_cleared(
            scope,
            cleared,
            post.at,
            turn,
        ),
        (ShuffleResetAt::Seeking, Event::Flag(found)) => if !found {
            post.at is Over && turn.only_ends(Ok(true))
        } else if scope.guild_id < 0 {
            reset_fails(
                post.at,
                turn,
                "invalid persisted guild snowflake "@ + crate::text::signed_decimal(
                    scope.guild_id as int,
                ),
            )
        } else {
            post.at is Telling && turn.only_asks(
                Action::TellReset { guild_id: scope.guild_id as u64, kind: scope.kind },
            )
        },
        (ShuffleResetAt::Seeking, Event::Done(Err(error))) => reset_fails(post.at, turn, error@),
        (ShuffleResetAt::Telling, Event::Done(told)) => match told {
            Ok(_) => post.at is Over && turn.only_ends(Ok(true)),
            Err(error) => reset_fails(post.at, turn, error@),
        },
        _ => post.at == pre.at && turn.waits(),
    }
}

fn fail(text: String) -> (r: (ShuffleResetAt, Turn<WasReset>))
    ensures
        reset_fails(r.0, r.1, text@),
{
    (ShuffleResetAt::Over, Turn::end(Err(text)))
}

impl ShuffleReset {
    /// Begins the reset of the lobby that was shuffled.
    pub fn start(scope: LobbyScope) -> (r: (ShuffleReset, Turn<WasReset>))
        ensures
            shuffle_reset_starts(scope, r.0, r.1),
            r.1.goes_on(|action: Action| r.0.awaits(action)),
    {
        (
            ShuffleReset { scope, at: ShuffleResetAt::Clearing },
            Turn::ask(Action::ClearLobby { scope }),
        )
    }

    /// Goes on with what came of the last question.
    pub fn resume(self, event: Event) -> (r: (ShuffleReset, Turn<WasReset>))
        ensures
            shuffle_reset_step(self, event, r.0, r.1),
    {
        let ShuffleReset { scope, at } = self;
        let (at, turn) = match (at, event) {
            (ShuffleResetAt::Clearing, Event::Outcome(cleared)) => match cleared {
                Err(failure) => fail(failure.tell("lobby reset task failed: ")),
                Ok(false) => (ShuffleResetAt::Over, Turn::end(Ok(false))),
                Ok(true) => (
                    ShuffleResetAt::Seeking,
                    Turn::ask_after(vec![Action::ForgetCheck { scope }], Action::FindObserver),
                ),
            },
            (ShuffleResetAt::Seeking, Event::Flag(found)) => if !found {
                (ShuffleResetAt::Over, Turn::end(Ok(true)))
            } else {
                match to_unsigned(scope.guild_id) {
                    None => fail(
                        text2(
                            "invalid persisted guild snowflake ",
                            decimal_i64(scope.guild_id).as_str(),
                        ),
                    ),
                    Some(guild_id) => (
                        ShuffleResetAt::Telling,
                        Turn::ask(Action::TellReset { guild_id, kind: scope.kind }),
                    ),
                }
            },
            (ShuffleResetAt::Seeking, Event::Done(Err(error))) => fail(error),
            (ShuffleResetAt::Telling, Event::Done(told)) => match told {
                Ok(_) => (ShuffleResetAt::Over, Turn::end(Ok(true))),
                Err(error) => fail(error),
            },
            (at, _) => (at, Turn::wait()),
        };
        (ShuffleReset { scope, at }, turn)
    }
}

/// The observer is told of the reset after a shuffle only once the lobby is durably cleared and
/// its ready check is dropped.
pub proof fn shuffle_resets_are_durable_first(
    pre: ShuffleReset,
    event: Event,
    post: ShuffleReset,
    turn: Turn<WasReset>,
)
    requires
        shuffle_reset_step(pre, event, post, turn),
    ensures
        turn.next matches Next::Ask(Action::TellReset { .. }) ==> pre.at is Seeking,
        post.at is Seeking && !(pre.at is Seeking) ==> event == Event::Outcome(Ok(true))
            && turn.before@.len() == 1 && turn.before@[0] == (Action::ForgetCheck {
            scope: pre.scope,
        }),
{
}

impl ResetFlow {
    /// What is waited for: the answer to this question.
    pub open spec fn awaits(self, action: Action) -> bool {
        match self.at {
            ResetAt::Deferring => action is Defer,
            ResetAt::Resetting => action is ResetLobby,
            ResetAt::Closing => action is Reply,
            ResetAt::Over => false,
        }
    }
}

/// `/resetlobby` is never left waiting by the answer to what it asked for: it goes on to its end or
/// to its next question, and waits for the answer to that.
pub proof fn resets_go_on_when_answered(
    pre: ResetFlow,
    asked: Action,
    event: Event,
    post: ResetFlow,
    turn: Turn<Handled>,
    config: LobbyRuntimeConfig,
)
    requires
        reset_step(pre, event, post, turn, config),
        pre.awaits(asked),
        asked.answered_by(event),
    ensures
        turn.goes_on(|action: Action| post.awaits(action)),
{
}

impl ShuffleReset {
    /// What is waited for: the answer to this question.
    pub open spec fn awaits(self, action: Action) -> bool {
        match self.at {
            ShuffleResetAt::Clearing => action is ClearLobby,
            ShuffleResetAt::Seeking => action is FindObserver,
            ShuffleResetAt::Telling => action is TellReset,
            ShuffleResetAt::Over => false,
        }
    }
}

/// The reset after a shuffle is never left waiting by the answer to what it asked for: it goes on
/// to its end or to its next question, and waits for the answer to that.
pub proof fn shuffle_resets_go_on_when_answered(
    pre: ShuffleReset,
    asked: Action,
    event: Event,
    post: ShuffleReset,
    turn: Turn<WasReset>,
)
    requires
        shuffle_reset_step(pre, event, post, turn),
        pre.awaits(asked),
        asked.answered_by(event),
    ensures
        turn.goes_on(|action: Action| post.awaits(action)),
{
}

/// A run of `/resetlobby`: it starts, and every turn follows from what came of the one before.
pub open spec fn reset_run(
    command: CommandContext,
    first: Turn<Handled>,
    states: Seq<ResetFlow>,
    events: Seq<Event>,
    turns: Seq<Turn<Handled>>,
    config: LobbyRuntimeConfig,
) -> bool {
    &&& states.len() == events.len() + 1
    &&& turns.len() == events.len()
    &&& reset_starts(command, states[0], first)
    &&& forall|n: int|
        0 <= n < events.len() ==> reset_step(
            states[n],
            #[trigger] events[n],
            states[n + 1],
            turns[n],
            config,
        )
}

proof fn runs_keep_their_command(
    command: CommandContext,
    first: Turn<Handled>,
    states: Seq<ResetFlow>,
    events: Seq<Event>,
    turns: Seq<Turn<Handled>>,
    config: LobbyRuntimeConfig,
    n: int,
)
    requires
        reset_run(command, first, states, events, turns, config),
        0 <= n < states.len(),
    ensures
        states[n].command == command,
    decreases n,
{
    if n > 0 {
        runs_keep_their_command(command, first, states, events, turns, config, n - 1);
        assert(reset_step(states[n - 1], events[n - 1], states[n], turns[n - 1], config));
    }
}

/// The reset that `/resetlobby` asks for names exactly the lobby that the command picked, and none
/// where it picked none; it is asked for in the guild and channel of the command, for its invoker
/// and with the rights of its invoker.
pub proof fn resets_name_the_picked_lobby(
    command: CommandContext,
    first: Turn<Handled>,
    states: Seq<ResetFlow>,
    events: Seq<Event>,
    turns: Seq<Turn<Handled>>,
    config: LobbyRuntimeConfig,
    pick: Option<LobbyKind>,
    n: int,
    request: ResetLobbyRequest,
)
    requires
        reset_run(command, first, states, events, turns, config),
        crate::commands::picked(command.options@, pick),
        0 <= n < turns.len(),
        turns[n].does(Action::ResetLobby { request }),
    ensures
        request.explicit_kind == pick,
        command.guild_id == Some(request.guild_id),
        command.channel_id == Some(request.interaction_channel_id),
        request.user_id == command.user_id,
        command.user_id >= 0 ==> request.is_admin == (config.admin_user_ids@.contains(
            command.user_id as u64,
        ) || (command.member_permissions matches Some(bits) && (bits & 0x8u64 != 0 || bits & 0x20u64
            != 0))),
{
    runs_keep_their_command(command, first, states, events, turns, config, n);
    crate::commands::the_picked_lobby_is_chosen(command.options@, pick);
    assert(reset_step(states[n], events[n], states[n + 1], turns[n], config));
}

/// `/resetlobby` is acknowledged in private; once it is, it asks for the reset wherever it was used
/// in a channel of a server, and says so where it was not. Of a lobby that was reset it drops the
/// ready check, and of no other.
pub proof fn resets_are_carried_out(
    command: CommandContext,
    first: Turn<Handled>,
    states: Seq<ResetFlow>,
    events: Seq<Event>,
    turns: Seq<Turn<Handled>>,
    config: LobbyRuntimeConfig,
    n: int,
    forgotten: LobbyScope,
)
    requires
        reset_run(command, first, states, events, turns, config),
        0 <= n < turns.len(),
    ensures
        first.only_asks(Action::Defer { ephemeral: true }),
        states[0].at is Deferring,
        states[n].at is Deferring ==> (events[n] matches Event::Done(Ok(_)) ==> {
            &&& (turns[n].next matches Next::Ask(Action::ResetLobby { .. })) == (
            command.guild_id is Some && command.channel_id is Some)
            &&& command.guild_id is None || command.channel_id is None ==> (
            turns[n].next matches Next::Ask(action) && crate::protocol::tells_invoker(
                action,
                SERVER_ONLY@,
            ))
        }),
        turns[n].does(Action::ForgetCheck { scope: forgotten }) <==> states[n].at is Resetting
            && events[n] == Event::Reset(Some(forgotten)),
        states[n].at is Resetting && events[n] is Reset ==> turns[n].next
            == Next::<Handled>::End(Ok(())),
{
    runs_keep_their_command(command, first, states, events, turns, config, n);
    assert(reset_step(states[n], events[n], states[n + 1], turns[n], config));
    crate::text::texts_contain_themselves(SERVER_ONLY@);
    if states[n].at is Resetting && events[n] == Event::Reset(Some(forgotten)) {
        assert(turns[n].before@.contains(turns[n].before@[0]));
    }
}

/// The reset after a shuffle clears the lobby that was shuffled, drops that lobby's ready check and
/// tells the observer of that lobby; it reports a reset exactly where there was a lobby to clear,
/// and a failure with the words it came with.
pub proof fn shuffle_resets_end_as_they_went(
    scope: LobbyScope,
    start: ShuffleReset,
    first: Turn<WasReset>,
    pre: ShuffleReset,
    event: Event,
    post: ShuffleReset,
    turn: Turn<WasReset>,
)
    requires
        shuffle_reset_starts(scope, start, first),
        pre.scope == scope,
        shuffle_reset_step(pre, event, post, turn),
    ensures
        start.scope == scope,
        post.scope == scope,
        first.next == Next::<WasReset>::Ask(Action::ClearLobby { scope }),
        turn.next matches Next::End(Ok(was)) ==> (was == !(pre.at is Clearing)),
        pre.at is Clearing ==> (event matches Event::Outcome(Ok(cleared)) ==> {
            &&& cleared ==> turn.does(Action::ForgetCheck { scope }) && turn.does(
                Action::FindObserver,
            )
            &&& !cleared ==> turn.only_ends(Ok(false))
        }),
        pre.at is Seeking && event == Event::Flag(true) && scope.guild_id >= 0 ==> turn.does(
            Action::TellReset { guild_id: scope.guild_id as u64, kind: scope.kind },
        ),
        pre.at is Seeking && event == Event::Flag(false) ==> turn.only_ends(Ok(true)),
        pre.at is Telling ==> (event matches Event::Done(Ok(_)) ==> turn.only_ends(Ok(true))),
        (pre.at is Telling || pre.at is Seeking) ==> (event matches Event::Done(Err(error)) ==> (
        turn.next matches Next::End(Err(said)) && said@ == error@)),
        pre.at is Clearing ==> (event matches Event::Outcome(Err(failure)) ==> (
        turn.next matches Next::End(Err(said)) && crate::text::contains_text(
            said@,
            failure.report@,
        ))),
{
    if let Event::Outcome(Ok(true)) = event {
        if pre.at is Clearing {
            assert(turn.before@.contains(turn.before@[0]));
        }
    }
    if let Event::Outcome(Err(failure)) = event {
        crate::text::middles_stand(
            "lobby reset task failed: "@,
            failure.report@,
            Seq::empty(),
        );
        crate::text::texts_contain_themselves(failure.report@);
    }
}

} // verus!
