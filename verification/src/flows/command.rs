//! A command from its arrival to its end.
use vstd::prelude::*;
use crate::answers::Handled;
use crate::commands::CommandContext;
use crate::commands::HandlerError;
use crate::commands::InteractionRequest;
use crate::flows::join::JoinFlow;
use crate::flows::kick::KickFlow;
use crate::flows::leave::LeaveFlow;
use crate::flows::lobby::LobbyFlow;
use crate::flows::readycheck::ReadycheckFlow;
use crate::flows::reset::ResetFlow;
use crate::kinds::LobbyScope;
use crate::protocol::Action;
use crate::protocol::Event;
use crate::protocol::Next;
use crate::protocol::Settings;
use crate::protocol::Turn;
use crate::registration::LobbyCommand;
use crate::registration::route_command;

verus! {

/// A command in progress.
#[derive(Debug, PartialEq, Eq)]
pub enum CommandFlow {
    Lobby(LobbyFlow),
    Kick(KickFlow),
    Join(JoinFlow),
    Leave(LeaveFlow),
    Reset(ResetFlow),
    Readycheck(ReadycheckFlow),
}

impl CommandFlow {
    /// Which command is in progress.
    pub open spec fn command(self) -> LobbyCommand {
        match self {
            CommandFlow::Lobby(_) => LobbyCommand::Lobby,
            CommandFlow::Kick(_) => LobbyCommand::Kick,
            CommandFlow::Join(_) => LobbyCommand::Join,
            CommandFlow::Leave(_) => LobbyCommand::Leave,
            CommandFlow::Reset(_) => LobbyCommand::Reset,
            CommandFlow::Readycheck(_) => LobbyCommand::Readycheck,
        }
    }

    /// The call that is being handled.
    pub open spec fn context(self) -> CommandContext {
        match self {
            CommandFlow::Lobby(flow) => flow.command,
            CommandFlow::Kick(flow) => flow.command,
            CommandFlow::Join(flow) => flow.command,
            CommandFlow::Leave(flow) => flow.command,
            CommandFlow::Reset(flow) => flow.command,
            CommandFlow::Readycheck(flow) => flow.command,
        }
    }

    /// The command has only been acknowledged so far.
    pub open spec fn is_deferring(self) -> bool {
        match self {
            CommandFlow::Lobby(flow) => flow.at is Deferring,
            CommandFlow::Kick(flow) => flow.at is Deferring,
            CommandFlow::Join(flow) => flow.at is Deferring,
            CommandFlow::Leave(flow) => flow.at is Deferring,
            CommandFlow::Reset(flow) => flow.at is Deferring,
            CommandFlow::Readycheck(flow) => flow.at is Deferring,
        }
    }

    /// The scope that the command holds.
    pub open spec fn holds(self) -> Option<LobbyScope> {
        match self {
            CommandFlow::Lobby(flow) => crate::flows::lobby::lobby_holds(flow.at),
            CommandFlow::Kick(flow) => crate::flows::kick::kick_holds(flow.at),
            CommandFlow::Join(flow) => crate::flows::join::join_holds(flow.at),
            CommandFlow::Leave(flow) => crate::flows::leave::leave_holds(flow.at),
            CommandFlow::Reset(_) => None,
            CommandFlow::Readycheck(_) => None,
        }
    }
}

/// Whether the answer to a command is for the invoker alone: only `/lobby` and `/readycheck`
/// answer the whole channel.
pub open spec fn answers_alone(command: LobbyCommand) -> bool {
    !(command is Lobby) && !(command is Readycheck)
}

/// How the handling of a call begins: a registered command is acknowledged, any other is an
/// error.
pub open spec fn command_starts(
    context: CommandContext,
    started: Result<(CommandFlow, Turn<Handled>), HandlerError>,
) -> bool {
    match crate::registration::command_named(context.name@) {
        Some(command) => started matches Ok((flow, turn)) && flow.command() == command
            && flow.context() == context && flow.is_deferring() && turn.only_asks(
            Action::Defer { ephemeral: answers_alone(command) },
        ),
        None => started matches Err(error) && crate::commands::reports(
            error,
            "unexpected lobby command "@ + context.name@,
        ),
    }
}

/// One step of a command: that of the command itself.
pub open spec fn command_step(
    pre: CommandFlow,
    event: Event,
    post: CommandFlow,
    turn: Turn<Handled>,
    settings: Settings,
) -> bool {
    match pre {
        CommandFlow::Lobby(from) => post matches CommandFlow::Lobby(to)
            && crate::flows::lobby::lobby_step(from, event, to, turn, settings),
        CommandFlow::Kick(from) => post matches CommandFlow::Kick(to)
            && crate::flows::kick::kick_step(from, event, to, turn, settings.config),
        CommandFlow::Join(from) => post matches CommandFlow::Join(to)
            && crate::flows::join::join_step(from, event, to, turn, settings.wording),
        CommandFlow::Leave(from) => post matches CommandFlow::Leave(to)
            && crate::flows::leave::leave_step(from, event, to, turn),
        CommandFlow::Reset(from) => post matches CommandFlow::Reset(to)
            && crate::flows::reset::reset_step(from, event, to, turn, settings.config),
        CommandFlow::Readycheck(from) => post matches CommandFlow::Readycheck(to)
            && crate::flows::readycheck::readycheck_step(
            from,
            event,
            to,
            turn,
            settings.wording,
        ),
    }
}

impl CommandFlow {
    /// Begins to handle a call.
    pub fn start(context: CommandContext) -> (r: Result<
        (CommandFlow, Turn<Handled>),
        HandlerError,
    >)
        ensures
            command_starts(context, r),
    {
        match route_command(context.name.as_str()) {
            Err(error) => Err(error),
            Ok(LobbyCommand::Lobby) => {
                let (flow, turn) = LobbyFlow::start(context);
                Ok((CommandFlow::Lobby(flow), turn))
            },
            Ok(LobbyCommand::Kick) => {
                let (flow, turn) = KickFlow::start(context);
                Ok((CommandFlow::Kick(flow), turn))
            },
            Ok(LobbyCommand::Join) => {
                let (flow, turn) = JoinFlow::start(context);
                Ok((CommandFlow::Join(flow), turn))
            },
            Ok(LobbyCommand::Leave) => {
                let (flow, turn) = LeaveFlow::start(context);
                Ok((CommandFlow::Leave(flow), turn))
            },
            Ok(LobbyCommand::Reset) => {
                let (flow, turn) = ResetFlow::start(context);
                Ok((CommandFlow::Reset(flow), turn))
            },
            Ok(LobbyCommand::Readycheck) => {
                let (flow, turn) = ReadycheckFlow::start(context);
                Ok((CommandFlow::Readycheck(flow), turn))
            },
        }
    }

    /// Goes on with what came of the last question.
    pub fn resume(self, event: Event, settings: &Settings) -> (r: (CommandFlow, Turn<Handled>))
        ensures
            command_step(self, event, r.0, r.1, *settings),
    {
        match self {
            CommandFlow::Lobby(flow) => {
                let (flow, turn) = flow.resume(event, settings);
                (CommandFlow::Lobby(flow), turn)
            },
            CommandFlow::Kick(flow) => {
                let (flow, turn) = flow.resume(event, &settings.config);
                (CommandFlow::Kick(flow), turn)
            },
            CommandFlow::Join(flow) => {
                let (flow, turn) = flow.resume(event, &settings.wording);
                (CommandFlow::Join(flow), turn)
            },
            CommandFlow::Leave(flow) => {
                let (flow, turn) = flow.resume(event);
                (CommandFlow::Leave(flow), turn)
            },
            CommandFlow::Reset(flow) => {
                let (flow, turn) = flow.resume(event, &settings.config);
                (CommandFlow::Reset(flow), turn)
            },
            CommandFlow::Readycheck(flow) => {
                let (flow, turn) = flow.resume(event, &settings.wording);
                (CommandFlow::Readycheck(flow), turn)
            },
        }
    }
}

/// Begins to handle what Discord delivered: it is taken over into stored form, and begun if it
/// is a registered command.
pub fn handle(request: InteractionRequest) -> (r: Result<
    (CommandFlow, Turn<Handled>),
    HandlerError,
>)
    ensures
        exists|read: Result<CommandContext, HandlerError>| #[trigger]
            crate::commands::reads(request, read) && match read {
                Ok(context) => command_starts(context, r),
                Err(error) => r == Err::<(CommandFlow, Turn<Handled>), HandlerError>(error),
            },
{
    let read = CommandContext::try_from(request);
    let ghost seen = read;
    assert(crate::commands::reads(request, seen));
    match read {
        Ok(context) => CommandFlow::start(context),
        Err(error) => Err(error),
    }
}

/// Whatever the command, lobbies are changed only while their scope is held, and nothing is held
/// once the command is over.
pub proof fn commands_keep_order(
    pre: CommandFlow,
    event: Event,
    post: CommandFlow,
    turn: Turn<Handled>,
    settings: Settings,
)
    requires
        command_step(pre, event, post, turn, settings),
    ensures
        crate::locking::keeps_order(pre.holds(), turn, post.holds()),
{
    match (pre, post) {
        (CommandFlow::Lobby(from), CommandFlow::Lobby(to)) => {
            crate::flows::lobby::lobby_keeps_order(from, event, to, turn, settings);
        },
        (CommandFlow::Kick(from), CommandFlow::Kick(to)) => {
            crate::flows::kick::kicks_keep_order(from, event, to, turn, settings.config);
        },
        (CommandFlow::Join(from), CommandFlow::Join(to)) => {
            crate::flows::join::joins_keep_order(from, event, to, turn, settings.wording);
        },
        (CommandFlow::Leave(from), CommandFlow::Leave(to)) => {
            crate::flows::leave::leaves_keep_order(from, event, to, turn);
        },
        (CommandFlow::Reset(_), CommandFlow::Reset(_)) => {
            reveal_with_fuel(crate::locking::orderly, 4);
            reveal_with_fuel(crate::locking::held_at_end, 4);
        },
        (CommandFlow::Readycheck(from), CommandFlow::Readycheck(to)) => {
            crate::flows::readycheck::readychecks_keep_order(
                from,
                event,
                to,
                turn,
                settings.wording,
            );
        },
        _ => {},
    }
}

/// No turn of a command puts a player into a lobby past the checks of a seat, its curfew among
/// them: commands only ask for the seat.
pub proof fn commands_join_through_the_seat(
    pre: CommandFlow,
    event: Event,
    post: CommandFlow,
    turn: Turn<Handled>,
    settings: Settings,
    i: int,
)
    requires
        command_step(pre, event, post, turn, settings),
    ensures
        0 <= i < turn.before@.len() ==> !(turn.before@[i] is Join),
        turn.next matches Next::Ask(action) ==> !(action is Join),
{
}

/// Only `/join` tells the observer of an explicit join.
pub proof fn only_join_is_explicit(
    pre: CommandFlow,
    event: Event,
    post: CommandFlow,
    turn: Turn<Handled>,
    settings: Settings,
    i: int,
)
    requires
        command_step(pre, event, post, turn, settings),
        0 <= i < turn.before@.len(),
        turn.before@[i] is TellExplicitJoin,
    ensures
        pre is Join,
{
}

impl CommandFlow {
    /// What is waited for: the answer to this question.
    pub open spec fn awaits(self, action: Action) -> bool {
        match self {
            CommandFlow::Lobby(flow) => flow.awaits(action),
            CommandFlow::Kick(flow) => flow.awaits(action),
            CommandFlow::Join(flow) => flow.awaits(action),
            CommandFlow::Leave(flow) => flow.awaits(action),
            CommandFlow::Reset(flow) => flow.awaits(action),
            CommandFlow::Readycheck(flow) => flow.awaits(action),
        }
    }
}

/// A command that begins asks its first question, and waits for the answer to that.
pub proof fn commands_begin_with_a_question(
    context: CommandContext,
    flow: CommandFlow,
    turn: Turn<Handled>,
)
    requires
        command_starts(context, Ok((flow, turn))),
    ensures
        turn.goes_on(|action: Action| flow.awaits(action)),
{
}

/// A command is never left waiting by the answer to what it asked for: it goes on to its end or
/// to its next question, and waits for the answer to that.
pub proof fn commands_go_on_when_answered(
    pre: CommandFlow,
    asked: Action,
    event: Event,
    post: CommandFlow,
    turn: Turn<Handled>,
    settings: Settings,
)
    requires
        command_step(pre, event, post, turn, settings),
        pre.awaits(asked),
        asked.answered_by(event),
    ensures
        turn.goes_on(|action: Action| post.awaits(action)),
{
    match (pre, post) {
        (CommandFlow::Lobby(from), CommandFlow::Lobby(to)) => {
            crate::flows::lobby::lobbies_go_on_when_answered(
                from,
                asked,
                event,
                to,
                turn,
                settings,
            );
        },
        (CommandFlow::Kick(from), CommandFlow::Kick(to)) => {
            crate::flows::kick::kicks_go_on_when_answered(
                from,
                asked,
                event,
                to,
                turn,
                settings.config,
            );
        },
        (CommandFlow::Join(from), CommandFlow::Join(to)) => {
            crate::flows::join::joins_go_on_when_answered(
                from,
                asked,
                event,
                to,
                turn,
                settings.wording,
            );
        },
        (CommandFlow::Leave(from), CommandFlow::Leave(to)) => {
            crate::flows::leave::leaves_go_on_when_answered(from, asked, event, to, turn);
        },
        (CommandFlow::Reset(from), CommandFlow::Reset(to)) => {
            crate::flows::reset::resets_go_on_when_answered(
                from,
                asked,
                event,
                to,
                turn,
                settings.config,
            );
        },
        (CommandFlow::Readycheck(from), CommandFlow::Readycheck(to)) => {
            crate::flows::readycheck::readychecks_go_on_when_answered(
                from,
                asked,
                event,
                to,
                turn,
                settings.wording,
            );
        },
        _ => {},
    }
}

/// The command that is named is the one that is handled, for the call it came with; and whoever
/// calls `/lobby` or `/readycheck` does so for the channel to see, but any other command in private.
/// A name that is no command is refused by that name.
pub proof fn commands_are_handled_by_name(
    context: CommandContext,
    started: Result<(CommandFlow, Turn<Handled>), HandlerError>,
)
    requires
        command_starts(context, started),
    ensures
        started matches Ok((flow, turn)) ==> {
            &&& match flow {
                CommandFlow::Lobby(flow) => context.name@ == "lobby"@ && flow.command == context,
                CommandFlow::Kick(flow) => context.name@ == "kick"@ && flow.command == context,
                CommandFlow::Join(flow) => context.name@ == "join"@ && flow.command == context,
                CommandFlow::Leave(flow) => context.name@ == "leave"@ && flow.command == context,
                CommandFlow::Reset(flow) => context.name@ == "resetlobby"@ && flow.command
                    == context,
                CommandFlow::Readycheck(flow) => context.name@ == "readycheck"@ && flow.command
                    == context,
            }
            &&& turn.only_asks(
                Action::Defer { ephemeral: !(flow is Lobby) && !(flow is Readycheck) },
            )
        },
        started matches Err(error) ==> (error matches HandlerError::Message(said)
            && crate::text::contains_text(said@, context.name@)),
        started is Ok <==> context.name@ == "lobby"@ || context.name@ == "kick"@ || context.name@
            == "join"@ || context.name@ == "leave"@ || context.name@ == "resetlobby"@
            || context.name@ == "readycheck"@,
{
    crate::text::middles_stand("unexpected lobby command "@, context.name@, Seq::empty());
}

/// A command that ends because something went wrong reports that in its own words; and whatever goes
/// wrong with what a command waits for does end it, except that a new lobby whose channel or thread
/// fails it may still find another way.
pub proof fn commands_report_failures_in_their_own_words(
    pre: CommandFlow,
    event: Event,
    post: CommandFlow,
    turn: Turn<Handled>,
    settings: Settings,
    text: Seq<char>,
)
    requires
        command_step(pre, event, post, turn, settings),
        event.failure() == Some(text),
    ensures
        turn.next matches Next::End(Err(error)) ==> (error matches HandlerError::Message(said) && said@
            == text),
        !(turn.next matches Next::End(Ok(_))),
        !(pre is Lobby) ==> (turn.next is Wait || turn.next is End),
        pre matches CommandFlow::Lobby(flow) ==> (!(flow.at is Posting) ==> (turn.next is Wait
            || turn.next is End)),
{
}

} // verus!
