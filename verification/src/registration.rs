//! The commands that are registered with Discord, and which of them a call is for.
use vstd::prelude::*;
use crate::commands::HandlerError;
use crate::commands::reports;
use crate::text::same_text;
use crate::text::text2;

verus! {

/// What an option of a command takes.
#[derive(Clone, Copy, Debug, PartialEq, Eq, Structural)]
pub enum CommandOptionKind {
    Text,
    User,
}

/// A fixed choice of a text option.
#[derive(Clone, Debug, PartialEq, Eq)]
pub struct CommandOptionChoice {
    pub name: String,
    pub value: String,
}

/// An option of a command.
#[derive(Clone, Debug, PartialEq, Eq)]
pub struct CommandOptionSpec {
    pub name: String,
    pub description: String,
    pub kind: CommandOptionKind,
    pub required: bool,
    pub min_length: Option<u16>,
    pub max_length: Option<u16>,
    pub choices: Vec<CommandOptionChoice>,
}

/// A command as it is registered.
#[derive(Clone, Debug, PartialEq, Eq)]
pub struct CommandSpec {
    pub name: String,
    pub description: String,
    pub options: Vec<CommandOptionSpec>,
}

/// The commands that lobbies answer to.
#[derive(Clone, Copy, Debug, PartialEq, Eq, Structural)]
pub enum LobbyCommand {
    Lobby,
    Kick,
    Join,
    Leave,
    Reset,
    Readycheck,
}

/// An option without limits or choices.
pub open spec fn plain_option(
    option: CommandOptionSpec,
    name: Seq<char>,
    description: Seq<char>,
    kind: CommandOptionKind,
    required: bool,
) -> bool {
    &&& option.name@ == name
    &&& option.description@ == description
    &&& option.kind == kind
    &&& option.required == required
    &&& option.min_length is None
    &&& option.max_length is None
    &&& option.choices@.len() == 0
}

/// A choice with this name and value.
pub open spec fn choice_is(choice: CommandOptionChoice, name: Seq<char>, value: Seq<char>) -> bool {
    choice.name@ == name && choice.value@ == value
}

/// The option that chooses between the two lobbies.
pub open spec fn lobby_option(option: CommandOptionSpec, description: Seq<char>) -> bool {
    &&& option.name@ == "lobby"@
    &&& option.description@ == description
    &&& option.kind == CommandOptionKind::Text
    &&& !option.required
    &&& option.min_length is None
    &&& option.max_length is None
    &&& option.choices@.len() == 2
    &&& choice_is(option.choices@[0], "🍽️ All You Can Feed"@, "open"@)
    &&& choice_is(option.choices@[1], "🧀 Whine & Cheese"@, "lowskill"@)
}

fn option_without_limits(
    name: &str,
    description: &str,
    kind: CommandOptionKind,
    required: bool,
) -> (r: CommandOptionSpec)
    ensures
        plain_option(r, name@, description@, kind, required),
{
    CommandOptionSpec {
        name: name.to_owned(),
        description: description.to_owned(),
        kind,
        required,
        min_length: None,
        max_length: None,
        choices: Vec::new(),
    }
}

/// The option that chooses between the two lobbies.
pub fn lobby_choice_option(description: &str) -> (r: CommandOptionSpec)
    ensures
        lobby_option(r, description@),
{
    let mut option = option_without_limits("lobby", description, CommandOptionKind::Text, false);
    option.choices = vec![
        CommandOptionChoice { name: "🍽️ All You Can Feed".to_owned(), value: "open".to_owned() },
        CommandOptionChoice { name: "🧀 Whine & Cheese".to_owned(), value: "lowskill".to_owned() },
    ];
    option
}

/// What the lobby option of every command is described by.
pub const LOBBY_OPTION_DESCRIPTION: &'static str = "Lobby to create, join, reset, or check";

/// A command with the lobby option alone.
pub open spec fn lobby_command(
    command: CommandSpec,
    name: Seq<char>,
    description: Seq<char>,
) -> bool {
    &&& command.name@ == name
    &&& command.description@ == description
    &&& command.options@.len() == 1
    &&& lobby_option(command.options@[0], LOBBY_OPTION_DESCRIPTION@)
}

/// The `/kick` command: a required player and an optional, bounded reason.
pub open spec fn kick_command(command: CommandSpec) -> bool {
    &&& command.name@ == "kick"@
    &&& command.description@
        == "Kick a player from every lobby they're in (Admin or lobby creator only)"@
    &&& command.options@.len() == 2
    &&& plain_option(
        command.options@[0],
        "player"@,
        "The player to kick from every lobby they are in"@,
        CommandOptionKind::User,
        true,
    )
    &&& command.options@[1].name@ == "reason"@
    &&& command.options@[1].description@
        == "Optional reason shown privately to the player and admins"@
    &&& command.options@[1].kind == CommandOptionKind::Text
    &&& !command.options@[1].required
    &&& command.options@[1].min_length == Some(3u16)
    &&& command.options@[1].max_length == Some(300u16)
    &&& command.options@[1].choices@.len() == 0
}

/// The `/leave` command, which takes no argument.
pub open spec fn leave_command(command: CommandSpec) -> bool {
    &&& command.name@ == "leave"@
    &&& command.description@ == "Leave every matchmaking lobby you are queued in"@
    &&& command.options@.len() == 0
}

/// The commands of the lobbies, in the order they are registered.
pub open spec fn lobby_surface(commands: Seq<CommandSpec>) -> bool {
    &&& commands.len() == 6
    &&& lobby_command(commands[0], "lobby"@, "Create or view a matchmaking lobby"@)
    &&& kick_command(commands[1])
    &&& lobby_command(commands[2], "join"@, "Join a matchmaking lobby"@)
    &&& leave_command(commands[3])
    &&& lobby_command(
        commands[4],
        "resetlobby"@,
        "Reset the current lobby (Admin or lobby creator only)"@,
    )
    &&& lobby_command(
        commands[5],
        "readycheck"@,
        "Check lobby players' online status and ping those who are away"@,
    )
}

fn command_with_lobby_option(name: &str, description: &str) -> (r: CommandSpec)
    ensures
        lobby_command(r, name@, description@),
{
    CommandSpec {
        name: name.to_owned(),
        description: description.to_owned(),
        options: vec![lobby_choice_option(LOBBY_OPTION_DESCRIPTION)],
    }
}

/// The commands of the lobbies, in the order they are registered.
pub fn lobby_commands() -> (r: Vec<CommandSpec>)
    ensures
        lobby_surface(r@),
{
    let player = option_without_limits(
        "player",
        "The player to kick from every lobby they are in",
        CommandOptionKind::User,
        true,
    );
    let mut reason = option_without_limits(
        "reason",
        "Optional reason shown privately to the player and admins",
        CommandOptionKind::Text,
        false,
    );
    reason.min_length = Some(3);
    reason.max_length = Some(300);
    let lobby = command_with_lobby_option("lobby", "Create or view a matchmaking lobby");
    let kick = CommandSpec {
        name: "kick".to_owned(),
        description:
            "Kick a player from every lobby they're in (Admin or lobby creator only)".to_owned(),
        options: vec![player, reason],
    };
    let join = command_with_lobby_option("join", "Join a matchmaking lobby");
    let leave = CommandSpec {
        name: "leave".to_owned(),
        description: "Leave every matchmaking lobby you are queued in".to_owned(),
        options: Vec::new(),
    };
    let reset = command_with_lobby_option(
        "resetlobby",
        "Reset the current lobby (Admin or lobby creator only)",
    );
    let readycheck = command_with_lobby_option(
        "readycheck",
        "Check lobby players' online status and ping those who are away",
    );
    vec![lobby, kick, join, leave, reset, readycheck]
}

/// The command that a name stands for.
pub open spec fn command_named(name: Seq<char>) -> Option<LobbyCommand> {
    if name == "lobby"@ {
        Some(LobbyCommand::Lobby)
    } else if name == "kick"@ {
        Some(LobbyCommand::Kick)
    } else if name == "join"@ {
        Some(LobbyCommand::Join)
    } else if name == "leave"@ {
        Some(LobbyCommand::Leave)
    } else if name == "resetlobby"@ {
        Some(LobbyCommand::Reset)
    } else if name == "readycheck"@ {
        Some(LobbyCommand::Readycheck)
    } else {
        None
    }
}

/// The command that a call is for; a name that was never registered is an error.
pub fn route_command(name: &str) -> (r: Result<LobbyCommand, HandlerError>)
    ensures
        match command_named(name@) {
            Some(command) => r == Ok::<LobbyCommand, HandlerError>(command),
            None => r matches Err(error) && reports(error, "unexpected lobby command "@ + name@),
        },
{
    if same_text(name, "lobby") {
        Ok(LobbyCommand::Lobby)
    } else if same_text(name, "kick") {
        Ok(LobbyCommand::Kick)
    } else if same_text(name, "join") {
        Ok(LobbyCommand::Join)
    } else if same_text(name, "leave") {
        Ok(LobbyCommand::Leave)
    } else if same_text(name, "resetlobby") {
        Ok(LobbyCommand::Reset)
    } else if same_text(name, "readycheck") {
        Ok(LobbyCommand::Readycheck)
    } else {
        Err(HandlerError::Message(text2("unexpected lobby command ", name)))
    }
}

/// A name is handled exactly if it is registered, and no command is registered twice.
pub proof fn registered_commands_are_the_handled_ones(commands: Seq<CommandSpec>, name: Seq<char>)
    requires
        lobby_surface(commands),
    ensures
        command_named(name) is Some <==> exists|i: int|
            0 <= i < commands.len() && #[trigger] commands[i].name@ == name,
        forall|i: int, j: int|
            0 <= i < j < commands.len() ==> #[trigger] commands[i].name@
                != #[trigger] commands[j].name@,
{
    reveal_strlit("lobby");
    reveal_strlit("kick");
    reveal_strlit("join");
    reveal_strlit("leave");
    reveal_strlit("resetlobby");
    reveal_strlit("readycheck");
    if command_named(name) is Some {
        assert(commands[0].name@ == name || commands[1].name@ == name || commands[2].name@ == name
            || commands[3].name@ == name || commands[4].name@ == name || commands[5].name@ == name);
    }
    assert("lobby"@.len() == 5 && "leave"@.len() == 5);
    assert("kick"@.len() == 4 && "join"@.len() == 4);
    assert("resetlobby"@.len() == 10 && "readycheck"@.len() == 10);
    assert("lobby"@[1] == 'o' && "leave"@[1] == 'e');
    assert("kick"@[0] == 'k' && "join"@[0] == 'j');
    assert("resetlobby"@[2] == 's' && "readycheck"@[2] == 'a');
    assert(commands[0].name@ == "lobby"@ && commands[1].name@ == "kick"@);
    assert(commands[2].name@ == "join"@ && commands[3].name@ == "leave"@);
    assert(commands[4].name@ == "resetlobby"@ && commands[5].name@ == "readycheck"@);
    assert forall|i: int, j: int| 0 <= i < j < commands.len() implies #[trigger] commands[i].name@
        != #[trigger] commands[j].name@ by {
        assert(i == 0 || i == 1 || i == 2 || i == 3 || i == 4);
        assert(j == 1 || j == 2 || j == 3 || j == 4 || j == 5);
    }
}

/// Every choice of the lobby option is a stored lobby kind, and every kind can be chosen.
pub proof fn lobby_choices_are_the_kinds(option: CommandOptionSpec, description: Seq<char>)
    requires
        lobby_option(option, description),
    ensures
        crate::kinds::kind_of_value(option.choices@[0].value@) == Some(
            crate::kinds::LobbyKind::Open,
        ),
        crate::kinds::kind_of_value(option.choices@[1].value@) == Some(
            crate::kinds::LobbyKind::LowSkill,
        ),
{
    crate::kinds::stored_kind_reads_back(crate::kinds::LobbyKind::LowSkill);
}

/// Every command is handled by its own name, and by no other.
pub proof fn names_lead_to_their_command(name: Seq<char>)
    ensures
        command_named(name) == Some(LobbyCommand::Lobby) <==> name == "lobby"@,
        command_named(name) == Some(LobbyCommand::Kick) <==> name == "kick"@,
        command_named(name) == Some(LobbyCommand::Join) <==> name == "join"@,
        command_named(name) == Some(LobbyCommand::Leave) <==> name == "leave"@,
        command_named(name) == Some(LobbyCommand::Reset) <==> name == "resetlobby"@,
        command_named(name) == Some(LobbyCommand::Readycheck) <==> name == "readycheck"@,
{
    reveal_strlit("lobby");
    reveal_strlit("kick");
    reveal_strlit("join");
    reveal_strlit("leave");
    reveal_strlit("resetlobby");
    reveal_strlit("readycheck");
    assert("lobby"@.len() == 5 && "kick"@.len() == 4 && "join"@.len() == 4 && "leave"@.len() == 5
        && "resetlobby"@.len() == 10 && "readycheck"@.len() == 10);
    assert("lobby"@[1] == 'o' && "leave"@[1] == 'e');
    assert("kick"@[0] == 'k' && "join"@[0] == 'j');
    assert("resetlobby"@[2] == 's' && "readycheck"@[2] == 'a');
}

} // verus!
