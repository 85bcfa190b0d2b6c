//! `/readycheck`: runs a ready check on a lobby.
use vstd::prelude::*;
use crate::answers::Handled;
use crate::answers::SERVER_ONLY;
use crate::answers::answer;
use crate::answers::conclude;
use crate::answers::give_up;
use crate::commands::CommandContext;
use crate::commands::selected_lobby_kind;
use crate::flows::publication::Ran;
use crate::kinds::LobbyKind;
use crate::kinds::LobbyScope;
use crate::kinds::Wording;
use crate::protocol::Action;
use crate::protocol::Event;
use crate::protocol::Next;
use crate::protocol::Turn;
use crate::readycheck::ReadycheckRunError;
use crate::readycheck::answer_readycheck;
use crate::readycheck::readycheck_failure_message;

verus! {

/// Where the command stands.
#[derive(Debug, PartialEq, Eq)]
pub enum ReadycheckAt {
    /// The command is being acknowledged.
    Deferring,
    /// The lobby that is meant is being found.
    Selecting { guild_id: i64, channel_id: i64 },
    /// The check is running.
    Running { kind: LobbyKind, channel_id: i64 },
    /// The last answer is being sent.
    Closing,
    /// Nothing is left to be done.
    Over,
}

/// The `/readycheck` command in progress.
#[derive(Debug, PartialEq, Eq)]
pub struct ReadycheckFlow {
    pub command: CommandContext,
    pub at: ReadycheckAt,
}

/// The check ran, or did not: it is answered.
pub open spec fn readycheck_ran(
    kind: LobbyKind,
    channel_id: i64,
    ran: Ran,
    post: ReadycheckAt,
    turn: Turn<Handled>,
    wording: Wording,
) -> bool {
    match ran {
        Ok(result) => {
            &&& post is Closing
            &&& turn.before@.len() == 0
            &&& turn.next matches Next::Ask(Action::Reply { response })
                && crate::readycheck::answers_readycheck(
                response,
                kind,
                channel_id,
                result,
                wording,
            )
        },
        Err(ReadycheckRunError::Policy(failure)) => post is Closing && crate::answers::answers(
            turn,
            crate::readycheck::failure_text(failure),
        ),
        Err(ReadycheckRunError::Transport(error)) => post is Over && crate::answers::gives_up(
            turn,
            None,
            error@,
        ),
    }
}

/// One step of `/readycheck`.
pub open spec fn readycheck_step(
    pre: ReadycheckFlow,
    event: Event,
    post: ReadycheckFlow,
    turn: Turn<Handled>,
    wording: Wording,
) -> bool {
    let command = pre.command;
    &&& post.command == command
    &&& match (pre.at, event) {
        (ReadycheckAt::Deferring, Event::Done(Err(error))) => post.at is Over
            && crate::answers::gives_up(turn, None, error@),
        (ReadycheckAt::Deferring, Event::Done(Ok(_))) => match command.place() {
            None => post.at is Closing && crate::answers::answers(turn, SERVER_ONLY@),
            Some((guild_id, channel_id)) => {
                &&& post.at == (ReadycheckAt::Selecting { guild_id, channel_id })
                &&& turn.only_asks(
                    Action::SelectCheckLobby {
                        user_id: command.user_id,
                        guild_id,
                        kind: crate::commands::chosen_kind(command.options@),
                    },
                )
            },
        },
        (
            ReadycheckAt::Selecting { guild_id, channel_id },
            Event::Selected(selected),
        ) => match selected {
            Err(text) => post.at is Closing && crate::answers::answers(turn, text@),
            Ok(kind) => {
                &&& post.at == (ReadycheckAt::Running { kind, channel_id })
                &&& turn.only_asks(
                    Action::RunReadycheck {
                        scope: LobbyScope { guild_id, kind },
                        invoker_id: command.user_id,
                        channel_id,
                        confirm_invoker: true,
                        mirror_invocation: false,
                    },
                )
            },
        },
        (ReadycheckAt::Running { kind, channel_id }, Event::CheckRan(ran)) => readycheck_ran(
            kind,
            channel_id,
            ran,
            post.at,
            turn,
            wording,
        ),
        (ReadycheckAt::Closing, Event::Done(result)) => post.at is Over
            && crate::answers::concludes(turn, None, result),
        _ => post.at == pre.at && turn.waits(),
    }
}

fn on_ran(kind: LobbyKind, channel_id: i64, ran: Ran, wording: &Wording) -> (r: (
    ReadycheckAt,
    Turn<Handled>,
))
    ensures
        readycheck_ran(kind, channel_id, ran, r.0, r.1, *wording),
{
    match ran {
        Ok(result) => (
            ReadycheckAt::Closing,
            Turn::ask(
                Action::Reply { response: answer_readycheck(kind, channel_id, &result, wording) },
            ),
        ),
        Err(ReadycheckRunError::Policy(failure)) => (
            ReadycheckAt::Closing,
            answer(readycheck_failure_message(failure).to_owned()),
        ),
        Err(ReadycheckRunError::Transport(error)) => (ReadycheckAt::Over, give_up(None, error)),
    }
}

impl ReadycheckFlow {
    /// Begins the command.
    pub fn start(command: CommandContext) -> (r: (ReadycheckFlow, Turn<Handled>))
        ensures
            r.0 == (ReadycheckFlow { command, at: ReadycheckAt::Deferring }),
            r.1.only_asks(Action::Defer { ephemeral: false }),
            r.1.goes_on(|action: Action| r.0.awaits(action)),
    {
        (
            ReadycheckFlow { command, at: ReadycheckAt::Deferring },
            Turn::ask(Action::Defer { ephemeral: false }),
        )
    }

    /// Goes on with what came of the last question.
    pub fn resume(self, event: Event, wording: &Wording) -> (r: (ReadycheckFlow, Turn<Handled>))
        ensures
            readycheck_step(self, event, r.0, r.1, *wording),
    {
        let ReadycheckFlow { command, at } = self;
        let (at, turn) = match (at, event) {
            (ReadycheckAt::Deferring, Event::Done(Err(error))) => (
                ReadycheckAt::Over,
                give_up(None, error),
            ),
            (ReadycheckAt::Deferring, Event::Done(Ok(_))) => match command.guild_channel() {
                None => (ReadycheckAt::Closing, answer(SERVER_ONLY.to_owned())),
                Some((guild_id, channel_id)) => (
                    ReadycheckAt::Selecting { guild_id, channel_id },
                    Turn::ask(
                        Action::SelectCheckLobby {
                            user_id: command.user_id,
                            guild_id,
                            kind: selected_lobby_kind(&command.options),
                        },
                    ),
                ),
            },
            (
                ReadycheckAt::Selecting { guild_id, channel_id },
                Event::Selected(selected),
            ) => match selected {
                Err(text) => (ReadycheckAt::Closing, answer(text)),
                Ok(kind) => (
                    ReadycheckAt::Running { kind, channel_id },
                    Turn::ask(
                        Action::RunReadycheck {
                            scope: LobbyScope { guild_id, kind },
                            invoker_id: command.user_id,
                            channel_id,
                            confirm_invoker: true,
                            mirror_invocation: false,
                        },
                    ),
                ),
            },
            (ReadycheckAt::Running { kind, channel_id }, Event::CheckRan(ran)) => on_ran(
                kind,
                channel_id,
                ran,
                wording,
            ),
            (ReadycheckAt::Closing, Event::Done(result)) => (
                ReadycheckAt::Over,
                conclude(None, result),
            ),
            (at, _) => (at, Turn::wait()),
        };
        (ReadycheckFlow { command, at }, turn)
    }
}

/// `/readycheck` itself never holds a scope, so that the check it runs can take one.
pub proof fn readychecks_keep_order(
    pre: ReadycheckFlow,
    event: Event,
    post: ReadycheckFlow,
    turn: Turn<Handled>,
    wording: Wording,
)
    requires
        readycheck_step(pre, event, post, turn, wording),
    ensures
        crate::locking::keeps_order(None, turn, None),
{
}

impl ReadycheckFlow {
    /// What is waited for: the answer to this question.
    pub open spec fn awaits(self, action: Action) -> bool {
        match self.at {
            ReadycheckAt::Deferring => action is Defer,
            ReadycheckAt::Selecting { .. } => action is SelectCheckLobby,
            ReadycheckAt::Running { .. } => action is RunReadycheck,
            ReadycheckAt::Closing => action is Reply,
            ReadycheckAt::Over => false,
        }
    }
}

/// `/readycheck` is never left waiting by the answer to what it asked for: it goes on to its end or
/// to its next question, and waits for the answer to that.
pub proof fn readychecks_go_on_when_answered(
    pre: ReadycheckFlow,
    asked: Action,
    event: Event,
    post: ReadycheckFlow,
    turn: Turn<Handled>,
    wording: Wording,
)
    requires
        readycheck_step(pre, event, post, turn, wording),
        pre.awaits(asked),
        asked.answered_by(event),
    ensures
        turn.goes_on(|action: Action| post.awaits(action)),
{
}

/// A run of `/readycheck`: it starts, and every turn follows from what came of the one before.
pub open spec fn readycheck_run(
    command: CommandContext,
    states: Seq<ReadycheckFlow>,
    events: Seq<Event>,
    turns: Seq<Turn<Handled>>,
    wording: Wording,
) -> bool {
    &&& states.len() == events.len() + 1
    &&& turns.len() == events.len()
    &&& states[0] == (ReadycheckFlow { command, at: ReadycheckAt::Deferring })
    &&& forall|n: int|
        0 <= n < events.len() ==> readycheck_step(
            states[n],
            #[trigger] events[n],
            states[n + 1],
            turns[n],
            wording,
        )
}

proof fn runs_keep_their_place(
    command: CommandContext,
    states: Seq<ReadycheckFlow>,
    events: Seq<Event>,
    turns: Seq<Turn<Handled>>,
    wording: Wording,
    n: int,
)
    requires
        readycheck_run(command, states, events, turns, wording),
        0 <= n < states.len(),
    ensures
        states[n].command == command,
        match states[n].at {
            ReadycheckAt::Selecting { guild_id, channel_id } => command.guild_id == Some(guild_id)
                && command.channel_id == Some(channel_id),
            ReadycheckAt::Running { kind, channel_id } => command.channel_id == Some(channel_id)
                && crate::protocol::happened(
                events,
                n,
                Event::Selected(Ok::<LobbyKind, String>(kind)),
            ),
            _ => true,
        },
    decreases n,
{
    if n > 0 {
        runs_keep_their_place(command, states, events, turns, wording, n - 1);
        crate::protocol::what_happened_stays(events, n);
        assert(readycheck_step(states[n - 1], events[n - 1], states[n], turns[n - 1], wording));
    }
}

/// A run of `/readycheck` asks for the lobby that the command picked, if it picked one, on behalf
/// of its invoker and in its own guild; and it runs a check exactly where a lobby was selected: of
/// that lobby, called by the invoker from the command's own channel, with the invoker counted as
/// ready from the start and the call not repeated elsewhere.
pub proof fn readychecks_run_for_their_invoker(
    command: CommandContext,
    states: Seq<ReadycheckFlow>,
    events: Seq<Event>,
    turns: Seq<Turn<Handled>>,
    wording: Wording,
    pick: Option<LobbyKind>,
    n: int,
    action: Action,
)
    requires
        readycheck_run(command, states, events, turns, wording),
        crate::commands::picked(command.options@, pick),
        0 <= n < turns.len(),
        turns[n].does(action),
    ensures
        match action {
            Action::SelectCheckLobby { user_id, guild_id, kind } => user_id == command.user_id
                && command.guild_id == Some(guild_id) && kind == pick,
            Action::RunReadycheck {
                scope,
                invoker_id,
                channel_id,
                confirm_invoker,
                mirror_invocation,
            } => {
                &&& events[n] == Event::Selected(Ok::<LobbyKind, String>(scope.kind))
                &&& command.guild_id == Some(scope.guild_id)
                &&& invoker_id == command.user_id
                &&& command.channel_id == Some(channel_id)
                &&& confirm_invoker
                &&& !mirror_invocation
            },
            Action::Reply { .. } => true,
            _ => false,
        },
{
    runs_keep_their_place(command, states, events, turns, wording, n);
    crate::commands::the_picked_lobby_is_chosen(command.options@, pick);
    assert(readycheck_step(states[n], events[n], states[n + 1], turns[n], wording));
}

/// Every selection of a lobby leads to a check, and every other outcome is told: what kept the
/// selection from being made, why the check was refused, or how it went, by the label of the lobby
/// that was selected and the address of the check.
pub proof fn readychecks_are_answered(
    command: CommandContext,
    states: Seq<ReadycheckFlow>,
    events: Seq<Event>,
    turns: Seq<Turn<Handled>>,
    wording: Wording,
    n: int,
)
    requires
        readycheck_run(command, states, events, turns, wording),
        0 <= n < turns.len(),
    ensures
        states[n].at is Selecting ==> match events[n] {
            Event::Selected(Ok(_)) => turns[n].next matches Next::Ask(Action::RunReadycheck { .. }),
            Event::Selected(Err(text)) => turns[n].next matches Next::Ask(action)
                && crate::protocol::tells_invoker(action, text@),
            _ => turns[n].next is Wait,
        },
        states[n].at is Running ==> (events[n] matches Event::CheckRan(Ok(result)) ==> (
        turns[n].next matches Next::Ask(Action::Reply { response }) && crate::text::contains_text(
            response.content@,
            result.jump_url@,
        ) && (exists|kind: LobbyKind| #[trigger]
            crate::protocol::happened(events, n, Event::Selected(Ok::<LobbyKind, String>(kind)))
                && crate::text::contains_text(response.content@, wording.label_of(kind))))),
{
    runs_keep_their_place(command, states, events, turns, wording, n);
    assert(readycheck_step(states[n], events[n], states[n + 1], turns[n], wording));
    if let Event::Selected(Err(text)) = events[n] {
        crate::text::texts_contain_themselves(text@);
    }
    if let (ReadycheckAt::Running { kind, channel_id }, Event::CheckRan(Ok(result))) = (
        states[n].at,
        events[n],
    ) {
        crate::readycheck::answers_lead_to_the_check(kind, channel_id, result, wording);
    }
}

} // verus!
