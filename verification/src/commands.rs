//! The slash commands: their registration, their arguments and who may use them.
use vstd::prelude::*;
use crate::config::LobbyRuntimeConfig;
use crate::ids::to_stored;
use crate::kinds::LobbyKind;
use crate::kinds::parse_lobby_kind;
use crate::text::decimal_u64;
use crate::text::same_text;
use crate::text::text2;

verus! {

/// Why a command or a reaction could not be handled.
#[derive(Clone, Debug, PartialEq, Eq)]
pub enum HandlerError {
    /// A plain report.
    Message(String),
    /// A value that could not be converted.
    Transformer { value: String },
    /// The option at this position is not of the kind it has to be.
    OptionType { position: usize },
}

/// The error is this report.
pub open spec fn reports(error: HandlerError, text: Seq<char>) -> bool {
    error matches HandlerError::Message(message) && message@ == text
}

/// The error names this value as one that could not be converted.
pub open spec fn rejects_value(error: HandlerError, text: Seq<char>) -> bool {
    error matches HandlerError::Transformer { value } && value@ == text
}

/// The value of a command option.
#[derive(Clone, Debug, PartialEq, Eq)]
pub enum InteractionValue {
    Text(String),
    User { id: u64, display_name: Option<String>, is_bot: Option<bool> },
    Other,
}

/// A named argument of a command.
#[derive(Clone, Debug, PartialEq, Eq)]
pub struct InteractionOption {
    pub name: String,
    pub value: InteractionValue,
}

/// What Discord delivers: a command, or a click on a component.
#[derive(Clone, Debug, PartialEq, Eq)]
pub enum InteractionRequest {
    Command {
        name: String,
        user_id: u64,
        user_display_name: String,
        guild_id: Option<u64>,
        channel_id: Option<u64>,
        member_permissions: Option<u64>,
        options: Vec<InteractionOption>,
    },
    Component,
}

/// A command with its ids in stored form.
#[derive(Clone, Debug, PartialEq, Eq)]
pub struct CommandContext {
    pub name: String,
    pub user_id: i64,
    pub user_display_name: String,
    pub guild_id: Option<i64>,
    pub channel_id: Option<i64>,
    pub member_permissions: Option<u64>,
    pub options: Vec<InteractionOption>,
}

/// An optional Discord id that can be stored.
pub open spec fn storable(id: Option<u64>) -> bool {
    match id {
        Some(id) => id <= i64::MAX,
        None => true,
    }
}

/// The stored form of an optional Discord id.
pub open spec fn stored_option(id: Option<u64>) -> Option<i64> {
    match id {
        Some(id) => crate::ids::stored(id),
        None => None,
    }
}

fn stored_or_none(id: Option<u64>) -> (r: Result<Option<i64>, ()>)
    ensures
        r is Ok <==> storable(id),
        r matches Ok(stored) ==> stored == stored_option(id),
{
    match id {
        Some(id) => match to_stored(id) {
            Some(id) => Ok(Some(id)),
            None => Err(()),
        },
        None => Ok(None),
    }
}

/// How a request is taken over: components and ids that cannot be stored are refused.
pub open spec fn reads(
    request: InteractionRequest,
    r: Result<CommandContext, HandlerError>,
) -> bool {
    match request {
        InteractionRequest::Component => r matches Err(error) && reports(
            error,
            "lobby handler received a component interaction"@,
        ),
        InteractionRequest::Command {
            name,
            user_id,
            user_display_name,
            guild_id,
            channel_id,
            member_permissions,
            options,
        } => if user_id > i64::MAX {
            r matches Err(error) && rejects_value(
                error,
                crate::text::decimal(user_id as nat),
            )
        } else if !storable(guild_id) {
            r matches Err(error) && rejects_value(error, "guild id"@)
        } else if !storable(channel_id) {
            r matches Err(error) && rejects_value(error, "channel id"@)
        } else {
            r == Ok::<CommandContext, HandlerError>(
                CommandContext {
                    name,
                    user_id: user_id as i64,
                    user_display_name,
                    guild_id: stored_option(guild_id),
                    channel_id: stored_option(channel_id),
                    member_permissions,
                    options,
                },
            )
        },
    }
}

impl CommandContext {
    /// Takes a command over into storage form; components and ids that cannot be stored are
    /// refused.
    pub fn try_from(request: InteractionRequest) -> (r: Result<CommandContext, HandlerError>)
        ensures
            reads(request, r),
    {
        match request {
            InteractionRequest::Component => Err(
                HandlerError::Message(
                    "lobby handler received a component interaction".to_owned(),
                ),
            ),
            InteractionRequest::Command {
                name,
                user_id,
                user_display_name,
                guild_id,
                channel_id,
                member_permissions,
                options,
            } => {
                let user_id = match to_stored(user_id) {
                    Some(user_id) => user_id,
                    None => {
                        return Err(HandlerError::Transformer { value: decimal_u64(user_id) });
                    },
                };
                let guild_id = match stored_or_none(guild_id) {
                    Ok(guild_id) => guild_id,
                    Err(_) => {
                        return Err(HandlerError::Transformer { value: "guild id".to_owned() });
                    },
                };
                let channel_id = match stored_or_none(channel_id) {
                    Ok(channel_id) => channel_id,
                    Err(_) => {
                        return Err(HandlerError::Transformer { value: "channel id".to_owned() });
                    },
                };
                Ok(
                    CommandContext {
                        name,
                        user_id,
                        user_display_name,
                        guild_id,
                        channel_id,
                        member_permissions,
                        options,
                    },
                )
            },
        }
    }

    /// The guild and channel of a command that was used in a server.
    pub open spec fn place(&self) -> Option<(i64, i64)> {
        match (self.guild_id, self.channel_id) {
            (Some(guild_id), Some(channel_id)) => Some((guild_id, channel_id)),
            _ => None,
        }
    }

    /// The guild and channel of a command that was used in a server.
    pub fn guild_channel(&self) -> (r: Option<(i64, i64)>)
        ensures
            r == self.place(),
    {
        match (self.guild_id, self.channel_id) {
            (Some(guild_id), Some(channel_id)) => Some((guild_id, channel_id)),
            _ => None,
        }
    }

    /// The id under which the invoker is looked up among the administrators.
    pub open spec fn admin_key(&self) -> u64 {
        if self.user_id >= 0 {
            self.user_id as u64
        } else {
            0
        }
    }

    /// The invoker is a configured administrator, or may administer the server or manage it.
    pub open spec fn administers(&self, config: LobbyRuntimeConfig) -> bool {
        ||| config.admin_user_ids@.contains(self.admin_key())
        ||| (self.member_permissions matches Some(permissions) && (permissions
            & ADMINISTRATOR_PERMISSION != 0 || permissions & MANAGE_GUILD_PERMISSION != 0))
    }

    /// Whether the invoker has administrator rights over the lobbies.
    pub fn is_admin(&self, config: &LobbyRuntimeConfig) -> (r: bool)
        ensures
            r == self.administers(*config),
    {
        let key: u64 = if self.user_id >= 0 {
            self.user_id as u64
        } else {
            0
        };
        if config.admin_user_ids.contains(&key) {
            return true;
        }
        match self.member_permissions {
            Some(permissions) => {
                permissions & ADMINISTRATOR_PERMISSION != 0 || permissions
                    & MANAGE_GUILD_PERMISSION != 0
            },
            None => false,
        }
    }
}

/// Discord's bit for administering a server.
pub const ADMINISTRATOR_PERMISSION: u64 = 0x8;

/// Discord's bit for managing a server.
pub const MANAGE_GUILD_PERMISSION: u64 = 0x20;

/// The lobby kind that an option chooses, if it is the lobby option and names a kind.
pub open spec fn lobby_choice(option: InteractionOption) -> Option<LobbyKind> {
    if option.name@ == "lobby"@ {
        match option.value {
            InteractionValue::Text(value) => crate::kinds::kind_of_value(value@),
            _ => None,
        }
    } else {
        None
    }
}

/// The first lobby kind that the options choose.
pub open spec fn chosen_kind(options: Seq<InteractionOption>) -> Option<LobbyKind>
    decreases options.len(),
{
    if options.len() == 0 {
        None
    } else if lobby_choice(options[0]) is Some {
        lobby_choice(options[0])
    } else {
        chosen_kind(options.drop_first())
    }
}

/// The lobby kind that the options choose.
pub fn selected_lobby_kind(options: &Vec<InteractionOption>) -> (r: Option<LobbyKind>)
    ensures
        r == chosen_kind(options@),
{
    let mut i: usize = 0;
    assert(options@.skip(0) =~= options@);
    while i < options.len()
        invariant
            i <= options.len(),
            chosen_kind(options@) == chosen_kind(options@.skip(i as int)),
        decreases options.len() - i,
    {
        let option = &options[i];
        assert(options@.skip(i as int)[0] == options@[i as int]);
        assert(options@.skip(i as int).drop_first() =~= options@.skip(i + 1));
        if same_text(option.name.as_str(), "lobby") {
            if let InteractionValue::Text(value) = &option.value {
                if let Some(kind) = parse_lobby_kind(value.as_str()) {
                    return Some(kind);
                }
            }
        }
        i = i + 1;
    }
    None
}

/// The kind a command works on: the chosen one, or else the open lobby.
pub open spec fn kind_or_open(options: Seq<InteractionOption>) -> LobbyKind {
    match chosen_kind(options) {
        Some(kind) => kind,
        None => LobbyKind::Open,
    }
}

/// The kind a command works on: the chosen one, or else the open lobby.
pub fn selected_or_open(options: &Vec<InteractionOption>) -> (r: LobbyKind)
    ensures
        r == kind_or_open(options@),
{
    match selected_lobby_kind(options) {
        Some(kind) => kind,
        None => LobbyKind::Open,
    }
}

/// The text of the first option of this name that holds a text.
pub open spec fn first_text(options: Seq<InteractionOption>, name: Seq<char>) -> Option<Seq<char>>
    decreases options.len(),
{
    if options.len() == 0 {
        None
    } else {
        match options[0].value {
            InteractionValue::Text(value) => if options[0].name@ == name {
                Some(value@)
            } else {
                first_text(options.drop_first(), name)
            },
            _ => first_text(options.drop_first(), name),
        }
    }
}

/// The optional text, seen as characters.
pub open spec fn optional_text(text: Option<&str>) -> Option<Seq<char>> {
    match text {
        Some(text) => Some(text@),
        None => None,
    }
}

/// The optional owned text, seen as characters.
pub open spec fn optional_string(text: Option<String>) -> Option<Seq<char>> {
    match text {
        Some(text) => Some(text@),
        None => None,
    }
}

/// The text of the first option of this name that holds a text.
pub fn selected_string<'a>(options: &'a Vec<InteractionOption>, name: &str) -> (r: Option<&'a str>)
    ensures
        optional_text(r) == first_text(options@, name@),
{
    let mut i: usize = 0;
    assert(options@.skip(0) =~= options@);
    while i < options.len()
        invariant
            i <= options.len(),
            first_text(options@, name@) == first_text(options@.skip(i as int), name@),
        decreases options.len() - i,
    {
        let option = &options[i];
        assert(options@.skip(i as int)[0] == options@[i as int]);
        assert(options@.skip(i as int).drop_first() =~= options@.skip(i + 1));
        if same_text(option.name.as_str(), name) {
            if let InteractionValue::Text(value) = &option.value {
                return Some(value.as_str());
            }
        }
        i = i + 1;
    }
    None
}

/// The position of the first option of this name, counted from `from`.
pub open spec fn first_named(options: Seq<InteractionOption>, name: Seq<char>, from: int) -> Option<
    int,
>
    decreases options.len() - from,
{
    if from < 0 || from >= options.len() {
        None
    } else if options[from].name@ == name {
        Some(from)
    } else {
        first_named(options, name, from + 1)
    }
}

/// The name a chosen user goes by: the display name, or else a name made of the id.
pub open spec fn user_name(id: u64, display_name: Option<String>) -> Seq<char> {
    match display_name {
        Some(name) => name@,
        None => "User "@ + crate::text::decimal(id as nat),
    }
}

/// A user chosen as an argument.
#[derive(Clone, Debug, PartialEq, Eq)]
pub struct SelectedUser {
    pub id: i64,
    pub name: String,
}

/// The user chosen by the first option of this name. An option of another kind, or an id that
/// cannot be stored, is an error.
pub fn selected_user(options: &Vec<InteractionOption>, name: &str) -> (r: Result<
    Option<SelectedUser>,
    HandlerError,
>)
    ensures
        user_selection(options@, name@, r),
{
    let mut i: usize = 0;
    while i < options.len()
        invariant
            i <= options.len(),
            first_named(options@, name@, 0) == first_named(options@, name@, i as int),
        decreases options.len() - i,
    {
        let option = &options[i];
        if same_text(option.name.as_str(), name) {
            return match &option.value {
                InteractionValue::User { id, display_name, is_bot } => {
                    match to_stored(*id) {
                        Some(stored) => {
                            let name = match display_name {
                                Some(name) => name.clone(),
                                None => text2("User ", decimal_u64(*id).as_str()),
                            };
                            Ok(Some(SelectedUser { id: stored, name }))
                        },
                        None => Err(HandlerError::Transformer { value: decimal_u64(*id) }),
                    }
                },
                _ => Err(HandlerError::OptionType { position: i }),
            };
        }
        i = i + 1;
    }
    Ok(None)
}

/// The outcome of choosing a user by the first option of this name.
pub open spec fn user_selection(
    options: Seq<InteractionOption>,
    name: Seq<char>,
    r: Result<Option<SelectedUser>, HandlerError>,
) -> bool {
    match first_named(options, name, 0) {
        None => r == Ok::<Option<SelectedUser>, HandlerError>(None),
        Some(i) => match options[i].value {
            InteractionValue::User { id, display_name, is_bot } => if id <= i64::MAX {
                r matches Ok(Some(user)) && user.id == id && user.name@ == user_name(
                    id,
                    display_name,
                )
            } else {
                r matches Err(error) && rejects_value(error, crate::text::decimal(id as nat))
            },
            _ => r matches Err(HandlerError::OptionType { position }) && position == i,
        },
    }
}

/// The option is the lobby option and holds the value of this kind.
pub open spec fn picks(option: InteractionOption, kind: LobbyKind) -> bool {
    &&& option.name@ == "lobby"@
    &&& option.value matches InteractionValue::Text(value) && value@ == match kind {
        LobbyKind::Open => "open"@,
        LobbyKind::LowSkill => "lowskill"@,
    }
}

/// The first option that picks a lobby picks this one; or no option picks any.
pub open spec fn picked(options: Seq<InteractionOption>, pick: Option<LobbyKind>) -> bool {
    match pick {
        Some(kind) => exists|i: int|
            {
                &&& 0 <= i < options.len()
                &&& picks(#[trigger] options[i], kind)
                &&& forall|j: int, other: LobbyKind|
                    0 <= j < i ==> !#[trigger] picks(options[j], other)
            },
        None => forall|j: int, other: LobbyKind|
            0 <= j < options.len() ==> !#[trigger] picks(options[j], other),
    }
}

/// The lobby that was picked is the one that is chosen, whichever it is; where none was picked,
/// none is chosen, and commands that need one work on the open lobby.
pub proof fn the_picked_lobby_is_chosen(options: Seq<InteractionOption>, pick: Option<LobbyKind>)
    requires
        picked(options, pick),
    ensures
        chosen_kind(options) == pick,
        kind_or_open(options) == match pick {
            Some(kind) => kind,
            None => LobbyKind::Open,
        },
    decreases options.len(),
{
    reveal_strlit("open");
    reveal_strlit("lowskill");
    assert("open"@.len() != "lowskill"@.len());
    if options.len() > 0 {
        let rest = options.drop_first();
        match pick {
            Some(kind) => {
                let i = choose|i: int|
                    {
                        &&& 0 <= i < options.len()
                        &&& picks(#[trigger] options[i], kind)
                        &&& forall|j: int, other: LobbyKind|
                            0 <= j < i ==> !#[trigger] picks(options[j], other)
                    };
                if i > 0 {
                    assert(!picks(options[0], LobbyKind::Open));
                    assert(!picks(options[0], LobbyKind::LowSkill));
                    assert(rest[i - 1] == options[i]);
                    assert forall|j: int, other: LobbyKind| 0 <= j < i - 1 implies !#[trigger] picks(
                        rest[j],
                        other,
                    ) by {
                        assert(rest[j] == options[j + 1]);
                        assert(!picks(options[j + 1], other));
                    }
                    assert(picked(rest, pick));
                    the_picked_lobby_is_chosen(rest, pick);
                } else {
                    assert(picks(options[0], kind));
                }
            },
            None => {
                assert(!picks(options[0], LobbyKind::Open));
                assert(!picks(options[0], LobbyKind::LowSkill));
                assert forall|j: int, other: LobbyKind| 0 <= j < rest.len() implies !#[trigger] picks(
                    rest[j],
                    other,
                ) by {
                    assert(rest[j] == options[j + 1]);
                    assert(!picks(options[j + 1], other));
                }
                the_picked_lobby_is_chosen(rest, pick);
            },
        }
    } else {
        assert(pick is None);
    }
}

/// The options hold this text under this name: it is that of the first option so named that
/// holds a text.
pub open spec fn given_text(
    options: Seq<InteractionOption>,
    name: Seq<char>,
    text: Option<Seq<char>>,
) -> bool {
    match text {
        Some(text) => exists|i: int|
            {
                &&& 0 <= i < options.len()
                &&& (#[trigger] options[i]).name@ == name
                &&& options[i].value matches InteractionValue::Text(value) && value@ == text
                &&& forall|j: int|
                    0 <= j < i ==> !((#[trigger] options[j]).name@ == name
                        && options[j].value is Text)
            },
        None => forall|j: int|
            0 <= j < options.len() ==> !((#[trigger] options[j]).name@ == name
                && options[j].value is Text),
    }
}

/// The text that the options hold under a name is the one that is read.
pub proof fn the_given_text_is_read(
    options: Seq<InteractionOption>,
    name: Seq<char>,
    text: Option<Seq<char>>,
)
    requires
        given_text(options, name, text),
    ensures
        first_text(options, name) == text,
    decreases options.len(),
{
    if options.len() > 0 {
        let rest = options.drop_first();
        match text {
            Some(wanted) => {
                let i = choose|i: int|
                    {
                        &&& 0 <= i < options.len()
                        &&& (#[trigger] options[i]).name@ == name
                        &&& options[i].value matches InteractionValue::Text(value) && value@
                            == wanted
                        &&& forall|j: int|
                            0 <= j < i ==> !((#[trigger] options[j]).name@ == name
                                && options[j].value is Text)
                    };
                if i > 0 {
                    assert(!(options[0].name@ == name && options[0].value is Text));
                    assert(rest[i - 1] == options[i]);
                    assert forall|j: int| 0 <= j < i - 1 implies !((#[trigger] rest[j]).name@ == name
                        && rest[j].value is Text) by {
                        assert(rest[j] == options[j + 1]);
                    }
                    assert(given_text(rest, name, text));
                    the_given_text_is_read(rest, name, text);
                } else {
                    assert(options[0].name@ == name);
                }
            },
            None => {
                assert(!(options[0].name@ == name && options[0].value is Text));
                assert forall|j: int| 0 <= j < rest.len() implies !((#[trigger] rest[j]).name@
                    == name && rest[j].value is Text) by {
                    assert(rest[j] == options[j + 1]);
                }
                the_given_text_is_read(rest, name, text);
            },
        }
    }
}

/// The first option of a name decides which user is chosen: a user with an id that can be stored
/// is chosen under that id and display name, and nothing else is chosen at all.
pub proof fn the_named_user_is_chosen(
    options: Seq<InteractionOption>,
    name: Seq<char>,
    i: int,
    r: Result<Option<SelectedUser>, HandlerError>,
)
    requires
        user_selection(options, name, r),
        0 <= i < options.len(),
        options[i].name@ == name,
        forall|j: int| 0 <= j < i ==> (#[trigger] options[j]).name@ != name,
    ensures
        r matches Ok(Some(user)) ==> (options[i].value matches InteractionValue::User {
            id,
            display_name,
            ..
        } && user.id == id && (display_name matches Some(shown) ==> user.name@ == shown@)),
        !(r matches Ok(None)),
        r is Ok <==> (options[i].value matches InteractionValue::User { id, .. } && id <= i64::MAX),
{
    first_option_is_found(options, name, 0, i);
}

proof fn first_option_is_found(options: Seq<InteractionOption>, name: Seq<char>, from: int, i: int)
    requires
        0 <= from <= i < options.len(),
        options[i].name@ == name,
        forall|j: int| from <= j < i ==> (#[trigger] options[j]).name@ != name,
    ensures
        first_named(options, name, from) == Some(i),
    decreases i - from,
{
    if from < i {
        first_option_is_found(options, name, from + 1, i);
    }
}

/// A command is taken over as it was given: every id, name and option of the request is that of
/// the command, and nothing but an id that cannot be stored keeps it from that.
pub proof fn commands_are_taken_over_as_given(
    name: String,
    user_id: u64,
    user_display_name: String,
    guild_id: Option<u64>,
    channel_id: Option<u64>,
    member_permissions: Option<u64>,
    options: Vec<InteractionOption>,
    r: Result<CommandContext, HandlerError>,
)
    requires
        reads(
            (InteractionRequest::Command {
                name,
                user_id,
                user_display_name,
                guild_id,
                channel_id,
                member_permissions,
                options,
            }),
            r,
        ),
    ensures
        r is Ok <==> user_id <= i64::MAX && (guild_id matches Some(id) ==> id <= i64::MAX) && (
        channel_id matches Some(id) ==> id <= i64::MAX),
        r matches Ok(context) ==> {
            &&& context.name == name
            &&& context.user_id == user_id
            &&& context.user_display_name == user_display_name
            &&& context.guild_id is Some <==> guild_id is Some
            &&& context.guild_id matches Some(id) ==> guild_id == Some(id as u64) && id >= 0
            &&& context.channel_id is Some <==> channel_id is Some
            &&& context.channel_id matches Some(id) ==> channel_id == Some(id as u64) && id >= 0
            &&& context.member_permissions == member_permissions
            &&& context.options == options
        },
{
}

/// Administrator rights are the operator's to give by name and the server's to give by either of
/// its two bits; without any of these nobody has them.
pub proof fn rights_come_from_the_operator_or_the_server(
    context: CommandContext,
    config: LobbyRuntimeConfig,
)
    ensures
        context.user_id >= 0 && config.admin_user_ids@.contains(context.user_id as u64)
            ==> context.administers(config),
        context.member_permissions matches Some(bits) ==> (bits & 0x8u64 != 0 || bits & 0x20u64
            != 0 ==> context.administers(config)),
        context.administers(config) && context.user_id >= 0
            ==> config.admin_user_ids@.contains(context.user_id as u64) || (
        context.member_permissions matches Some(bits) && (bits & 0x8u64 != 0 || bits & 0x20u64
            != 0)),
        context.place() matches Some((guild, channel)) ==> context.guild_id == Some(guild)
            && context.channel_id == Some(channel),
        context.place() is Some <==> context.guild_id is Some && context.channel_id is Some,
{
}

/// The lobby that a command with this pick is about: that of its own guild, and the open one
/// where none was picked.
pub open spec fn meant_lobby(
    command: CommandContext,
    pick: Option<LobbyKind>,
) -> crate::kinds::LobbyScope {
    crate::kinds::LobbyScope {
        guild_id: command.guild_id->0,
        kind: match pick {
            Some(kind) => kind,
            None => LobbyKind::Open,
        },
    }
}

/// What a command does concerns nobody but its invoker and no lobby but this one.
pub open spec fn keeps_to(
    action: crate::protocol::Action,
    command: CommandContext,
    scope: crate::kinds::LobbyScope,
) -> bool {
    &&& action.lobby() matches Some(named) ==> named == scope
    &&& action.player() matches Some(player) ==> player == command.user_id
    &&& action.guild() matches Some(guild) ==> command.guild_id == Some(guild)
}

/// A click on a component is no command and is refused with a report, not with a value; an id that
/// cannot be stored is refused by what it is.
pub proof fn what_is_no_command_is_refused(
    r: Result<CommandContext, HandlerError>,
    error: HandlerError,
    text: Seq<char>,
)
    requires
        reads(InteractionRequest::Component, r),
        reports(error, text),
    ensures
        r matches Err(HandlerError::Message(_)),
        error matches HandlerError::Message(said) && said@ == text,
{
}

} // verus!
