//! `/lobby`: shows the lobby, creating it where there is none, and lets the invoker in.
use vstd::prelude::*;
use crate::answers::Handled;
use crate::answers::NOT_REGISTERED;
use crate::answers::SERVER_ONLY;
use crate::answers::answer;
use crate::answers::conclude;
use crate::answers::err;
use crate::answers::give_up;
use crate::commands::CommandContext;
use crate::commands::HandlerError;
use crate::commands::selected_or_open;
use crate::ids::to_stored;
use crate::ids::to_u64;
use crate::joining::JoinPresentation;
use crate::joining::Joiner;
use crate::joining::Player;
use crate::joining::lobby_command_auto_join_warning;
use crate::kinds::LobbyKind;
use crate::kinds::LobbyScope;
use crate::kinds::Wording;
use crate::lobby::LobbyMessageIds;
use crate::lobby::LobbySnapshot;
use crate::message::DiscordEmoji;
use crate::message::DiscordMessage;
use crate::message::DiscordMessageContentMode;
use crate::message::DiscordMessageReceipt;
use crate::message::EmbedModel;
use crate::message::InteractionEmbed;
use crate::message::interaction_embed;
use crate::moderation::private_suspension_message;
use crate::protocol::Action;
use crate::protocol::CreationCause;
use crate::protocol::CreationFailure;
use crate::protocol::Event;
use crate::protocol::Next;
use crate::protocol::Settings;
use crate::protocol::Turn;
use crate::protocol::WorkFailure;
use crate::text::decimal_u64;
use crate::text::text2;
use crate::text::text3;
use crate::text::text5;

verus! {

/// The reaction that joins a lobby.
pub const SWORD_EMOJI: &'static str = "⚔️";

/// The reaction that lists a lobby.
pub const CLIPBOARD_EMOJI: &'static str = "📋";

/// The reaction that runs a ready check.
pub const BELL_EMOJI: &'static str = "🔔";

/// The answer to a player whose rating is too high to create the low-skill lobby.
pub const RATED_TOO_HIGH: &'static str =
    "❌ Only players below 1400 Glicko can create Whine & Cheese.";

/// The answer where a thread could not be opened.
pub const THREADS_NEEDED: &'static str =
    "❌ Bot needs Create Public Threads permission to create lobbies.";

/// The lobby that the command is about, and the channel it was used in.
#[derive(Clone, Copy, Debug, PartialEq, Eq, Structural)]
pub struct Visit {
    pub scope: LobbyScope,
    pub channel_id: i64,
}

/// Where the command stands.
#[derive(Debug, PartialEq, Eq)]
pub enum LobbyAt {
    /// The command is being acknowledged.
    Deferring,
    /// The invoker is being looked up.
    Loading { visit: Visit },
    /// The lobby is being read or created.
    Creating { visit: Visit, player: Player },
    /// The message that shows the lobby is being looked up.
    Fetching { visit: Visit, player: Player, lobby: LobbySnapshot },
    /// A new lobby is being rendered.
    Rendering { visit: Visit, player: Player },
    /// The new lobby is being posted: to its own channel, or else to the invoker's.
    Posting { visit: Visit, player: Player, embed: InteractionEmbed, elsewhere: bool },
    /// The thread of the new lobby is being opened.
    Threading { visit: Visit, player: Player, receipt: DiscordMessageReceipt },
    /// The place of the new lobby is being stored.
    Saving { visit: Visit, player: Player, receipt: DiscordMessageReceipt },
    /// The invoker is being let in.
    Joining { visit: Visit, name: String, jump_url: String, existing: bool },
    /// The last answer is being sent, with this scope held.
    Closing { held: Option<LobbyScope> },
    /// Nothing is left to be done.
    Over,
}

/// The `/lobby` command in progress.
#[derive(Debug, PartialEq, Eq)]
pub struct LobbyFlow {
    pub command: CommandContext,
    pub at: LobbyAt,
}

/// The answer of `/lobby`.
pub open spec fn lobby_answer(
    kind: LobbyKind,
    existing: bool,
    url: Seq<char>,
    join: JoinPresentation,
    wording: Wording,
) -> Seq<char> {
    let label = wording.label_of(kind);
    let warning = crate::joining::auto_join_warning(kind, join, wording);
    if existing {
        if join.joined_at_ns is Some {
            "✅ Joined "@ + label + "! [View "@ + wording.name_of(kind) + "]("@ + url + ")"@
        } else {
            match warning {
                Some(warning) => warning + " [View "@ + label + "]("@ + url + ")"@,
                None => "[View "@ + label + "]("@ + url + ")"@,
            }
        }
    } else {
        if join.joined_at_ns is Some {
            "✅ "@ + label + " created and joined! [View]("@ + url + ")"@
        } else {
            match warning {
                Some(warning) => "✅ "@ + label + " created! "@ + warning + " [View]("@ + url + ")"@,
                None => "✅ "@ + label + " created! [View]("@ + url + ")"@,
            }
        }
    }
}

fn lobby_answer_text(
    kind: LobbyKind,
    existing: bool,
    url: &str,
    join: &JoinPresentation,
    wording: &Wording,
) -> (r: String)
    ensures
        r@ == lobby_answer(kind, existing, url@, *join, *wording),
{
    let label = wording.label(kind);
    let warning = lobby_command_auto_join_warning(kind, join, wording);
    if existing {
        if join.joined_at_ns.is_some() {
            let mut text = text3("✅ Joined ", label, "! [View ");
            text.append(wording.display_name(kind));
            text.append("](");
            text.append(url);
            text.append(")");
            text
        } else if let Some(warning) = warning {
            let mut text = text3(warning.as_str(), " [View ", label);
            text.append("](");
            text.append(url);
            text.append(")");
            text
        } else {
            text5("[View ", label, "](", url, ")")
        }
    } else if join.joined_at_ns.is_some() {
        text5("✅ ", label, " created and joined! [View](", url, ")")
    } else if let Some(warning) = warning {
        let mut text = text3("✅ ", label, " created! ");
        text.append(warning.as_str());
        text.append(" [View](");
        text.append(url);
        text.append(")");
        text
    } else {
        text5("✅ ", label, " created! [View](", url, ")")
    }
}

/// The command waits to be acknowledged.
pub open spec fn lobby_starts(
    command: CommandContext,
    flow: LobbyFlow,
    turn: Turn<Handled>,
) -> bool {
    &&& flow == (LobbyFlow { command, at: LobbyAt::Deferring })
    &&& turn.only_asks(Action::Defer { ephemeral: false })
}

/// Acknowledged: the invoker is looked up, if the command was used in a server.
pub open spec fn lobby_deferred(command: CommandContext, post: LobbyAt, turn: Turn<Handled>) -> bool {
    match command.place() {
        None => post == (LobbyAt::Closing { held: None }) && crate::answers::answers(
            turn,
            SERVER_ONLY@,
        ),
        Some((guild_id, channel_id)) => {
            let scope = LobbyScope {
                guild_id,
                kind: crate::commands::kind_or_open(command.options@),
            };
            &&& post == (LobbyAt::Loading { visit: Visit { scope, channel_id } })
            &&& turn.only_asks(Action::LoadPlayer { player_id: command.user_id, guild_id })
        },
    }
}

/// The invoker was looked up: the scope is taken and the lobby is read or created.
pub open spec fn lobby_loaded(
    command: CommandContext,
    visit: Visit,
    loaded: Result<Option<Player>, String>,
    post: LobbyAt,
    turn: Turn<Handled>,
) -> bool {
    match loaded {
        Err(error) => post is Over && crate::answers::gives_up(turn, None, error@),
        Ok(None) => post == (LobbyAt::Closing { held: None }) && crate::answers::answers(
            turn,
            NOT_REGISTERED@,
        ),
        Ok(Some(player)) => {
            &&& post == (LobbyAt::Creating { visit, player })
            &&& turn.before@.len() == 1
            &&& turn.before@[0] == (Action::Lock { scope: visit.scope })
            &&& turn.next == Next::<Handled>::Ask(
                Action::CreateLobby { creator: Some(command.user_id), scope: visit.scope },
            )
        },
    }
}

/// The new lobby has to be rendered.
pub open spec fn lobby_renders(
    visit: Visit,
    player: Player,
    lobby: LobbySnapshot,
    post: LobbyAt,
    turn: Turn<Handled>,
) -> bool {
    &&& post == (LobbyAt::Rendering { visit, player })
    &&& turn.only_asks(Action::Render { lobby })
}

/// The lobby was read or created: the message that shows it is looked up, if it is recorded
/// in full.
pub open spec fn lobby_created(
    visit: Visit,
    player: Player,
    created: Result<LobbySnapshot, CreationFailure>,
    post: LobbyAt,
    turn: Turn<Handled>,
    wording: Wording,
) -> bool {
    let held = Some(visit.scope);
    match created {
        Ok(lobby) => match (
            lobby.message_ids.channel_id,
            lobby.message_ids.message_id,
            lobby.message_ids.thread_id,
        ) {
            (Some(channel_id), Some(message_id), Some(_)) => if channel_id < 0 {
                post is Over && crate::answers::gives_up(
                    turn,
                    held,
                    crate::ids::bad_snowflake_text(channel_id as int),
                )
            } else if message_id < 0 {
                post is Over && crate::answers::gives_up(
                    turn,
                    held,
                    crate::ids::bad_snowflake_text(message_id as int),
                )
            } else {
                &&& post == (LobbyAt::Fetching { visit, player, lobby })
                &&& turn.only_asks(
                    Action::Fetch { channel_id: channel_id as u64, message_id: message_id as u64 },
                )
            },
            _ => lobby_renders(visit, player, lobby, post, turn),
        },
        Err(failure) => match failure.cause {
            CreationCause::RatingTooHigh => post == (LobbyAt::Closing { held })
                && crate::answers::answers(turn, RATED_TOO_HIGH@),
            CreationCause::Suspended(suspension) => post == (LobbyAt::Closing { held })
                && crate::answers::answers(
                turn,
                "❌ "@ + crate::moderation::suspension_notice(suspension, wording),
            ),
            CreationCause::ModerationGuard(error) => post is Over && crate::answers::gives_up(
                turn,
                held,
                error@,
            ),
            CreationCause::Persistence(error) => post is Over && crate::answers::gives_up(
                turn,
                held,
                error@,
            ),
        },
    }
}

/// The invoker is let into the lobby.
pub open spec fn lobby_joins(
    command: CommandContext,
    visit: Visit,
    player: Player,
    jump_url: String,
    existing: bool,
    post: LobbyAt,
    next: Next<Handled>,
) -> bool {
    &&& post == (LobbyAt::Joining { visit, name: player.name, jump_url, existing })
    &&& next == Next::<Handled>::Ask(
        Action::JoinRegistered {
            scope: visit.scope,
            player_id: command.user_id,
            has_roles: player.chose_roles(),
        },
    )
}

/// The action posts this card to this channel.
pub open spec fn posts_card(next: Next<Handled>, channel: u64, embed: InteractionEmbed) -> bool {
    next matches Next::Ask(Action::Send { channel_id, message }) && channel_id == channel
        && crate::message::card_message(message, embed, DiscordMessageContentMode::Replace)
}

/// The new lobby was rendered: it is posted to its channel, or else to the invoker's.
pub open spec fn lobby_rendered(
    visit: Visit,
    player: Player,
    rendered: Result<EmbedModel, WorkFailure>,
    post: LobbyAt,
    turn: Turn<Handled>,
    settings: Settings,
) -> bool {
    let held = Some(visit.scope);
    match rendered {
        Err(error) => post is Over && crate::answers::gives_up(turn, held, error.report@),
        Ok(model) => if visit.channel_id < 0 {
            post is Over && crate::answers::gives_up(
                turn,
                held,
                crate::ids::bad_snowflake_text(visit.channel_id as int),
            )
        } else {
            let channel = match settings.config.channel_for(visit.scope.kind) {
                Some(channel) => channel,
                None => visit.channel_id as u64,
            };
            &&& post matches LobbyAt::Posting { visit: v, player: p, embed, elsewhere }
            &&& v == visit
            &&& p == player
            &&& crate::message::shows_model(embed, model)
            &&& elsewhere == (channel != visit.channel_id)
            &&& turn.before@.len() == 0
            &&& posts_card(turn.next, channel, embed)
        },
    }
}

/// The new lobby was posted: its thread is opened. Where its own channel failed, the invoker's
/// is tried.
pub open spec fn lobby_posted(
    visit: Visit,
    player: Player,
    embed: InteractionEmbed,
    elsewhere: bool,
    posted: Result<DiscordMessageReceipt, String>,
    post: LobbyAt,
    turn: Turn<Handled>,
    wording: Wording,
) -> bool {
    match posted {
        Ok(receipt) => {
            &&& post == (LobbyAt::Threading { visit, player, receipt })
            &&& turn.before@.len() == 0
            &&& turn.next matches Next::Ask(Action::OpenThread { channel_id, message_id, name })
                && channel_id == receipt.channel_id && message_id == receipt.message_id && name@
                == wording.label_of(visit.scope.kind)
        },
        Err(error) => if elsewhere && visit.channel_id >= 0 {
            &&& post == (LobbyAt::Posting { visit, player, embed, elsewhere: false })
            &&& turn.before@.len() == 0
            &&& posts_card(turn.next, visit.channel_id as u64, embed)
        } else {
            post is Over && crate::answers::gives_up(turn, Some(visit.scope), error@)
        },
    }
}

/// Where a new lobby stands.
pub open spec fn new_lobby_ids(
    receipt: DiscordMessageReceipt,
    thread: u64,
    channel_id: i64,
) -> LobbyMessageIds {
    LobbyMessageIds {
        message_id: Some(receipt.message_id as i64),
        channel_id: Some(receipt.channel_id as i64),
        thread_id: Some(thread as i64),
        embed_message_id: Some(receipt.message_id as i64),
        origin_channel_id: Some(channel_id),
    }
}

/// The first of the ids of a new lobby that cannot be stored.
pub open spec fn first_too_large(receipt: DiscordMessageReceipt, thread: u64) -> Option<u64> {
    if receipt.message_id > i64::MAX {
        Some(receipt.message_id)
    } else if receipt.channel_id > i64::MAX {
        Some(receipt.channel_id)
    } else if thread > i64::MAX {
        Some(thread)
    } else {
        None
    }
}

/// The thread was opened: the place of the lobby is stored. Without a thread the message is
/// taken back.
pub open spec fn lobby_threaded(
    visit: Visit,
    player: Player,
    receipt: DiscordMessageReceipt,
    opened: Result<u64, String>,
    post: LobbyAt,
    turn: Turn<Handled>,
) -> bool {
    let held = Some(visit.scope);
    match opened {
        Err(_) => {
            &&& post == (LobbyAt::Closing { held })
            &&& turn.before@.len() == 1
            &&& turn.before@[0] == (Action::Delete {
                channel_id: receipt.channel_id,
                message_id: receipt.message_id,
            })
            &&& turn.next matches Next::Ask(action) && crate::protocol::whispers(
                action,
                THREADS_NEEDED@,
            )
        },
        Ok(thread) => match first_too_large(receipt, thread) {
            Some(id) => {
                &&& post is Over
                &&& crate::answers::frees(turn.before@, held)
                &&& turn.next matches Next::End(Err(error)) && crate::commands::rejects_value(
                    error,
                    crate::text::decimal(id as nat),
                )
            },
            None => {
                &&& post == (LobbyAt::Saving { visit, player, receipt })
                &&& turn.only_asks(
                    Action::SaveMessageIds {
                        scope: visit.scope,
                        ids: new_lobby_ids(receipt, thread, visit.channel_id),
                    },
                )
            },
        },
    }
}

/// The action puts a unicode reaction on a message.
pub open spec fn reacts_with(action: Action, receipt: DiscordMessageReceipt, name: Seq<char>) -> bool {
    action matches Action::React { channel_id, message_id, emoji } && channel_id
        == receipt.channel_id && message_id == receipt.message_id && crate::message::is_unicode(
        emoji,
        name,
    )
}

/// The decorations of a new lobby: it is pinned and gets its four reactions.
pub open spec fn decorates(
    before: Seq<Action>,
    scope: LobbyScope,
    receipt: DiscordMessageReceipt,
    wording: Wording,
) -> bool {
    &&& before.len() == 6
    &&& before[0] == (Action::SyncReadyLobby { scope })
    &&& before[1] == (Action::Pin {
        channel_id: receipt.channel_id,
        message_id: receipt.message_id,
    })
    &&& reacts_with(before[2], receipt, SWORD_EMOJI@)
    &&& before[3] matches Action::React { channel_id, message_id, emoji } && channel_id
        == receipt.channel_id && message_id == receipt.message_id && crate::message::is_custom(
        emoji,
        "jopacoin"@,
        wording.jopacoin_emoji_id,
    )
    &&& reacts_with(before[4], receipt, CLIPBOARD_EMOJI@)
    &&& reacts_with(before[5], receipt, BELL_EMOJI@)
}

/// The place of the lobby was stored: it is decorated and the invoker is let in.
pub open spec fn lobby_saved(
    command: CommandContext,
    visit: Visit,
    player: Player,
    receipt: DiscordMessageReceipt,
    saved: Result<(), String>,
    post: LobbyAt,
    turn: Turn<Handled>,
    wording: Wording,
) -> bool {
    match saved {
        Err(error) => post is Over && crate::answers::gives_up(turn, Some(visit.scope), error@),
        Ok(_) => {
            &&& decorates(turn.before@, visit.scope, receipt, wording)
            &&& lobby_joins(command, visit, player, receipt.jump_url, false, post, turn.next)
        },
    }
}

/// What is published of the join of an invoker: the join itself, or for a lobby that was there
/// before a repaint.
pub open spec fn lobby_publishes(
    before: Seq<Action>,
    command: CommandContext,
    scope: LobbyScope,
    name: String,
    existing: bool,
    join: JoinPresentation,
) -> bool {
    match join.joined_at_ns {
        Some(joined_at_ns) => {
            &&& before.len() == 1
            &&& before[0] == (Action::PublishJoin {
                scope,
                joiner: Joiner {
                    player_id: command.user_id,
                    name,
                    display_name: command.user_display_name,
                    joined_at_ns,
                },
                raw_reaction: false,
            })
        },
        None => if existing {
            before.len() == 1 && before[0] == (Action::SyncDisplay { scope })
        } else {
            before.len() == 0
        },
    }
}

/// The invoker was let in or refused: that is published and answered.
pub open spec fn lobby_joined(
    command: CommandContext,
    visit: Visit,
    name: String,
    jump_url: String,
    existing: bool,
    presented: Result<JoinPresentation, String>,
    post: LobbyAt,
    turn: Turn<Handled>,
    wording: Wording,
) -> bool {
    match presented {
        Err(error) => post is Over && crate::answers::gives_up(turn, Some(visit.scope), error@),
        Ok(join) => {
            &&& post == (LobbyAt::Closing { held: Some(visit.scope) })
            &&& lobby_publishes(turn.before@, command, visit.scope, name, existing, join)
            &&& turn.next matches Next::Ask(action) && crate::protocol::whispers(
                action,
                lobby_answer(visit.scope.kind, existing, jump_url@, join, wording),
            )
        },
    }
}

/// One step of `/lobby`.
pub open spec fn lobby_step(
    pre: LobbyFlow,
    event: Event,
    post: LobbyFlow,
    turn: Turn<Handled>,
    settings: Settings,
) -> bool {
    &&& post.command == pre.command
    &&& match (pre.at, event) {
        (LobbyAt::Deferring, Event::Done(Err(error))) => post.at is Over
            && crate::answers::gives_up(turn, None, error@),
        (LobbyAt::Deferring, Event::Done(Ok(_))) => lobby_deferred(pre.command, post.at, turn),
        (LobbyAt::Loading { visit }, Event::PlayerLoaded(loaded)) => lobby_loaded(
            pre.command,
            visit,
            loaded,
            post.at,
            turn,
        ),
        (LobbyAt::Creating { visit, player }, Event::Created(created)) => lobby_created(
            visit,
            player,
            created,
            post.at,
            turn,
            settings.wording,
        ),
        (LobbyAt::Fetching { visit, player, lobby }, Event::Fetched(fetched)) => match fetched {
            Ok(Some(message)) => turn.before@.len() == 0 && lobby_joins(
                pre.command,
                visit,
                player,
                message.receipt.jump_url,
                true,
                post.at,
                turn.next,
            ),
            _ => lobby_renders(visit, player, lobby, post.at, turn),
        },
        (LobbyAt::Rendering { visit, player }, Event::Rendered(rendered)) => lobby_rendered(
            visit,
            player,
            rendered,
            post.at,
            turn,
            settings,
        ),
        (
            LobbyAt::Posting { visit, player, embed, elsewhere },
            Event::Posted(posted),
        ) => lobby_posted(
            visit,
            player,
            embed,
            elsewhere,
            posted,
            post.at,
            turn,
            settings.wording,
        ),
        (
            LobbyAt::Threading { visit, player, receipt },
            Event::ThreadOpened(opened),
        ) => lobby_threaded(visit, player, receipt, opened, post.at, turn),
        (LobbyAt::Saving { visit, player, receipt }, Event::Done(saved)) => lobby_saved(
            pre.command,
            visit,
            player,
            receipt,
            saved,
            post.at,
            turn,
            settings.wording,
        ),
        (
            LobbyAt::Joining { visit, name, jump_url, existing },
            Event::Presented(presented),
        ) => lobby_joined(
            pre.command,
            visit,
            name,
            jump_url,
            existing,
            presented,
            post.at,
            turn,
            settings.wording,
        ),
        (LobbyAt::Closing { held }, Event::Done(result)) => post.at is Over
            && crate::answers::concludes(turn, held, result),
        _ => post.at == pre.at && turn.waits(),
    }
}

fn on_deferred(command: &CommandContext) -> (r: (LobbyAt, Turn<Handled>))
    ensures
        lobby_deferred(*command, r.0, r.1),
{
    match command.guild_channel() {
        None => (LobbyAt::Closing { held: None }, answer(SERVER_ONLY.to_owned())),
        Some((guild_id, channel_id)) => {
            let scope = LobbyScope::new(guild_id, selected_or_open(&command.options));
            (
                LobbyAt::Loading { visit: Visit { scope, channel_id } },
                Turn::ask(Action::LoadPlayer { player_id: command.user_id, guild_id }),
            )
        },
    }
}

fn on_loaded(command: &CommandContext, visit: Visit, loaded: Result<Option<Player>, String>) -> (r: (
    LobbyAt,
    Turn<Handled>,
))
    ensures
        lobby_loaded(*command, visit, loaded, r.0, r.1),
{
    match loaded {
        Err(error) => (LobbyAt::Over, give_up(None, error)),
        Ok(None) => (LobbyAt::Closing { held: None }, answer(NOT_REGISTERED.to_owned())),
        Ok(Some(player)) => (
            LobbyAt::Creating { visit, player },
            Turn::ask_after(
                vec![Action::Lock { scope: visit.scope }],
                Action::CreateLobby { creator: Some(command.user_id), scope: visit.scope },
            ),
        ),
    }
}

fn on_created(
    visit: Visit,
    player: Player,
    created: Result<LobbySnapshot, CreationFailure>,
    wording: &Wording,
) -> (r: (LobbyAt, Turn<Handled>))
    ensures
        lobby_created(visit, player, created, r.0, r.1, *wording),
{
    let held = Some(visit.scope);
    match created {
        Ok(lobby) => {
            let ids = lobby.message_ids;
            match (ids.channel_id, ids.message_id, ids.thread_id) {
                (Some(channel_id), Some(message_id), Some(_)) => {
                    let channel_id = match to_u64(channel_id) {
                        Ok(channel_id) => channel_id,
                        Err(error) => {
                            return (LobbyAt::Over, give_up(held, error));
                        },
                    };
                    let message_id = match to_u64(message_id) {
                        Ok(message_id) => message_id,
                        Err(error) => {
                            return (LobbyAt::Over, give_up(held, error));
                        },
                    };
                    (
                        LobbyAt::Fetching { visit, player, lobby },
                        Turn::ask(Action::Fetch { channel_id, message_id }),
                    )
                },
                _ => (LobbyAt::Rendering { visit, player }, Turn::ask(Action::Render { lobby })),
            }
        },
        Err(failure) => match failure.cause {
            CreationCause::RatingTooHigh => (
                LobbyAt::Closing { held },
                answer(RATED_TOO_HIGH.to_owned()),
            ),
            CreationCause::Suspended(suspension) => {
                let notice = private_suspension_message(&suspension, wording);
                (LobbyAt::Closing { held }, answer(text2("❌ ", notice.as_str())))
            },
            CreationCause::ModerationGuard(error) => (LobbyAt::Over, give_up(held, error)),
            CreationCause::Persistence(error) => (LobbyAt::Over, give_up(held, error)),
        },
    }
}

fn let_in(
    command: &CommandContext,
    visit: Visit,
    player: Player,
    jump_url: String,
    existing: bool,
    before: Vec<Action>,
) -> (r: (LobbyAt, Turn<Handled>))
    ensures
        r.1.before@ == before@,
        lobby_joins(*command, visit, player, jump_url, existing, r.0, r.1.next),
{
    let has_roles = player.has_roles();
    (
        LobbyAt::Joining { visit, name: player.name, jump_url, existing },
        Turn::ask_after(
            before,
            Action::JoinRegistered { scope: visit.scope, player_id: command.user_id, has_roles },
        ),
    )
}

fn on_rendered(
    visit: Visit,
    player: Player,
    rendered: Result<EmbedModel, WorkFailure>,
    settings: &Settings,
) -> (r: (LobbyAt, Turn<Handled>))
    ensures
        lobby_rendered(visit, player, rendered, r.0, r.1, *settings),
{
    let held = Some(visit.scope);
    let embed = match rendered {
        Err(error) => {
            return (LobbyAt::Over, give_up(held, error.report));
        },
        Ok(model) => interaction_embed(model),
    };
    let own_channel = match to_u64(visit.channel_id) {
        Ok(channel) => channel,
        Err(error) => {
            return (LobbyAt::Over, give_up(held, error));
        },
    };
    let channel_id = match settings.config.configured_channel(visit.scope.kind) {
        Some(channel) => channel,
        None => own_channel,
    };
    let message = DiscordMessage::card(embed.duplicate(), DiscordMessageContentMode::Replace);
    (
        LobbyAt::Posting { visit, player, embed, elsewhere: channel_id != own_channel },
        Turn::ask(Action::Send { channel_id, message }),
    )
}

fn on_posted(
    visit: Visit,
    player: Player,
    embed: InteractionEmbed,
    elsewhere: bool,
    posted: Result<DiscordMessageReceipt, String>,
    wording: &Wording,
) -> (r: (LobbyAt, Turn<Handled>))
    ensures
        lobby_posted(visit, player, embed, elsewhere, posted, r.0, r.1, *wording),
{
    match posted {
        Ok(receipt) => {
            let action = Action::OpenThread {
                channel_id: receipt.channel_id,
                message_id: receipt.message_id,
                name: wording.label(visit.scope.kind).to_owned(),
            };
            (LobbyAt::Threading { visit, player, receipt }, Turn::ask(action))
        },
        Err(error) => {
            if elsewhere && visit.channel_id >= 0 {
                let message = DiscordMessage::card(
                    embed.duplicate(),
                    DiscordMessageContentMode::Replace,
                );
                let channel_id: u64 = visit.channel_id as u64;
                (
                    LobbyAt::Posting { visit, player, embed, elsewhere: false },
                    Turn::ask(Action::Send { channel_id, message }),
                )
            } else {
                (LobbyAt::Over, give_up(Some(visit.scope), error))
            }
        },
    }
}

fn on_threaded(
    visit: Visit,
    player: Player,
    receipt: DiscordMessageReceipt,
    opened: Result<u64, String>,
) -> (r: (LobbyAt, Turn<Handled>))
    ensures
        lobby_threaded(visit, player, receipt, opened, r.0, r.1),
{
    let held = Some(visit.scope);
    let thread = match opened {
        Err(_) => {
            let take_back = Action::Delete {
                channel_id: receipt.channel_id,
                message_id: receipt.message_id,
            };
            return (
                LobbyAt::Closing { held },
                Turn::ask_after(
                    vec![take_back],
                    crate::protocol::whisper_back(THREADS_NEEDED.to_owned()),
                ),
            );
        },
        Ok(thread) => thread,
    };
    match (to_stored(receipt.message_id), to_stored(receipt.channel_id), to_stored(thread)) {
        (Some(message_id), Some(channel_id), Some(thread_id)) => {
            let ids = LobbyMessageIds {
                message_id: Some(message_id),
                channel_id: Some(channel_id),
                thread_id: Some(thread_id),
                embed_message_id: Some(message_id),
                origin_channel_id: Some(visit.channel_id),
            };
            (
                LobbyAt::Saving { visit, player, receipt },
                Turn::ask(Action::SaveMessageIds { scope: visit.scope, ids }),
            )
        },
        (message_id, channel_id, _) => {
            let id: u64 = if message_id.is_none() {
                receipt.message_id
            } else if channel_id.is_none() {
                receipt.channel_id
            } else {
                thread
            };
            (LobbyAt::Over, err(held, HandlerError::Transformer { value: decimal_u64(id) }))
        },
    }
}

fn react(receipt: &DiscordMessageReceipt, emoji: DiscordEmoji) -> (r: Action)
    ensures
        r == (Action::React {
            channel_id: receipt.channel_id,
            message_id: receipt.message_id,
            emoji,
        }),
{
    Action::React { channel_id: receipt.channel_id, message_id: receipt.message_id, emoji }
}

fn decorations(scope: LobbyScope, receipt: &DiscordMessageReceipt, wording: &Wording) -> (r: Vec<
    Action,
>)
    ensures
        decorates(r@, scope, *receipt, *wording),
{
    vec![
        Action::SyncReadyLobby { scope },
        Action::Pin { channel_id: receipt.channel_id, message_id: receipt.message_id },
        react(receipt, DiscordEmoji::unicode(SWORD_EMOJI)),
        react(receipt, DiscordEmoji::custom("jopacoin", wording.jopacoin_emoji_id)),
        react(receipt, DiscordEmoji::unicode(CLIPBOARD_EMOJI)),
        react(receipt, DiscordEmoji::unicode(BELL_EMOJI)),
    ]
}

fn on_saved(
    command: &CommandContext,
    visit: Visit,
    player: Player,
    receipt: DiscordMessageReceipt,
    saved: Result<(), String>,
    wording: &Wording,
) -> (r: (LobbyAt, Turn<Handled>))
    ensures
        lobby_saved(*command, visit, player, receipt, saved, r.0, r.1, *wording),
{
    match saved {
        Err(error) => (LobbyAt::Over, give_up(Some(visit.scope), error)),
        Ok(_) => {
            let before = decorations(visit.scope, &receipt, wording);
            let_in(command, visit, player, receipt.jump_url, false, before)
        },
    }
}

fn on_joined(
    command: &CommandContext,
    visit: Visit,
    name: String,
    jump_url: String,
    existing: bool,
    presented: Result<JoinPresentation, String>,
    wording: &Wording,
) -> (r: (LobbyAt, Turn<Handled>))
    ensures
        lobby_joined(*command, visit, name, jump_url, existing, presented, r.0, r.1, *wording),
{
    let scope = visit.scope;
    let join = match presented {
        Err(error) => {
            return (LobbyAt::Over, give_up(Some(scope), error));
        },
        Ok(join) => join,
    };
    let text = lobby_answer_text(scope.kind, existing, jump_url.as_str(), &join, wording);
    let before = match join.joined_at_ns {
        Some(joined_at_ns) => vec![
            Action::PublishJoin {
                scope,
                joiner: Joiner {
                    player_id: command.user_id,
                    name,
                    display_name: command.user_display_name.clone(),
                    joined_at_ns,
                },
                raw_reaction: false,
            },
        ],
        None => if existing {
            vec![Action::SyncDisplay { scope }]
        } else {
            Vec::new()
        },
    };
    (
        LobbyAt::Closing { held: Some(scope) },
        Turn::ask_after(before, crate::protocol::whisper_back(text)),
    )
}

impl LobbyFlow {
    /// Begins the command.
    pub fn start(command: CommandContext) -> (r: (LobbyFlow, Turn<Handled>))
        ensures
            lobby_starts(command, r.0, r.1),
            r.1.goes_on(|action: Action| r.0.awaits(action)),
    {
        (
            LobbyFlow { command, at: LobbyAt::Deferring },
            Turn::ask(Action::Defer { ephemeral: false }),
        )
    }

    /// Goes on with what came of the last question.
    pub fn resume(self, event: Event, settings: &Settings) -> (r: (LobbyFlow, Turn<Handled>))
        ensures
            lobby_step(self, event, r.0, r.1, *settings),
    {
        let LobbyFlow { command, at } = self;
        let (at, turn) = match (at, event) {
            (LobbyAt::Deferring, Event::Done(Err(error))) => (LobbyAt::Over, give_up(None, error)),
            (LobbyAt::Deferring, Event::Done(Ok(_))) => on_deferred(&command),
            (LobbyAt::Loading { visit }, Event::PlayerLoaded(found)) => on_loaded(
                &command,
                visit,
                found,
            ),
            (LobbyAt::Creating { visit, player }, Event::Created(lobby)) => on_created(
                visit,
                player,
                lobby,
                &settings.wording,
            ),
            (LobbyAt::Fetching { visit, player, lobby }, Event::Fetched(fetched)) => match fetched {
                Ok(Some(message)) => let_in(
                    &command,
                    visit,
                    player,
                    message.receipt.jump_url,
                    true,
                    Vec::new(),
                ),
                _ => (LobbyAt::Rendering { visit, player }, Turn::ask(Action::Render { lobby })),
            },
            (LobbyAt::Rendering { visit, player }, Event::Rendered(model)) => on_rendered(
                visit,
                player,
                model,
                settings,
            ),
            (
                LobbyAt::Posting { visit, player, embed, elsewhere },
                Event::Posted(receipt),
            ) => on_posted(visit, player, embed, elsewhere, receipt, &settings.wording),
            (
                LobbyAt::Threading { visit, player, receipt },
                Event::ThreadOpened(thread),
            ) => on_threaded(visit, player, receipt, thread),
            (LobbyAt::Saving { visit, player, receipt }, Event::Done(result)) => on_saved(
                &command,
                visit,
                player,
                receipt,
                result,
                &settings.wording,
            ),
            (
                LobbyAt::Joining { visit, name, jump_url, existing },
                Event::Presented(presented),
            ) => on_joined(
                &command,
                visit,
                name,
                jump_url,
                existing,
                presented,
                &settings.wording,
            ),
            (LobbyAt::Closing { held }, Event::Done(result)) => (
                LobbyAt::Over,
                conclude(held, result),
            ),
            (at, _) => (at, Turn::wait()),
        };
        (LobbyFlow { command, at }, turn)
    }
}

/// The scope that the command holds.
pub open spec fn lobby_holds(at: LobbyAt) -> Option<LobbyScope> {
    match at {
        LobbyAt::Deferring => None,
        LobbyAt::Loading { visit } => None,
        LobbyAt::Creating { visit, .. } => Some(visit.scope),
        LobbyAt::Fetching { visit, .. } => Some(visit.scope),
        LobbyAt::Rendering { visit, .. } => Some(visit.scope),
        LobbyAt::Posting { visit, .. } => Some(visit.scope),
        LobbyAt::Threading { visit, .. } => Some(visit.scope),
        LobbyAt::Saving { visit, .. } => Some(visit.scope),
        LobbyAt::Joining { visit, .. } => Some(visit.scope),
        LobbyAt::Closing { held } => held,
        LobbyAt::Over => None,
    }
}

/// `/lobby` changes the lobby only while it holds its scope, and gives the scope free however
/// it ends.
pub proof fn lobby_keeps_order(
    pre: LobbyFlow,
    event: Event,
    post: LobbyFlow,
    turn: Turn<Handled>,
    settings: Settings,
)
    requires
        lobby_step(pre, event, post, turn, settings),
    ensures
        crate::locking::keeps_order(lobby_holds(pre.at), turn, lobby_holds(post.at)),
{
    reveal_with_fuel(crate::locking::orderly, 7);
    reveal_with_fuel(crate::locking::held_at_end, 7);
}

/// The invoker is shown a lobby that was there before.
pub open spec fn lobby_is_reused(at: LobbyAt) -> bool {
    match at {
        LobbyAt::Joining { existing, .. } => existing,
        LobbyAt::Closing { .. } => true,
        LobbyAt::Over => true,
        _ => false,
    }
}

/// The action creates something to show a lobby with.
pub open spec fn builds_display(action: Action) -> bool {
    action is Send || action is OpenThread || action is SaveMessageIds || action is Pin
        || action is React
}

/// A lobby whose message is still there is reused: from then on no message is posted, no
/// thread is opened, and its stored place is left as it is.
pub proof fn existing_lobby_is_reused(
    pre: LobbyFlow,
    event: Event,
    post: LobbyFlow,
    turn: Turn<Handled>,
    settings: Settings,
)
    requires
        lobby_step(pre, event, post, turn, settings),
        lobby_is_reused(pre.at) || (pre.at is Fetching && event matches Event::Fetched(Ok(Some(_)))),
    ensures
        lobby_is_reused(post.at),
        forall|i: int| 0 <= i < turn.before@.len() ==> !builds_display(#[trigger] turn.before@[i]),
        turn.next matches Next::Ask(action) ==> !builds_display(action),
{
}

/// The place of a lobby is stored only after its message was posted and its thread opened, and
/// what is stored is exactly where they stand.
pub proof fn stored_lobby_is_shown(
    pre: LobbyFlow,
    event: Event,
    post: LobbyFlow,
    turn: Turn<Handled>,
    settings: Settings,
    scope: LobbyScope,
    ids: LobbyMessageIds,
)
    requires
        lobby_step(pre, event, post, turn, settings),
        turn.next == Next::<Handled>::Ask(Action::SaveMessageIds { scope, ids }),
    ensures
        pre.at matches LobbyAt::Threading { visit, player, receipt } && {
            &&& event matches Event::ThreadOpened(Ok(thread))
            &&& visit.scope == scope
            &&& crate::ids::unsigned_option(ids.message_id) == Some(receipt.message_id)
            &&& crate::ids::unsigned_option(ids.channel_id) == Some(receipt.channel_id)
            &&& crate::ids::unsigned_option(ids.thread_id) == Some(thread)
            &&& ids.origin_channel_id == Some(visit.channel_id)
        },
{
}

impl LobbyFlow {
    /// What is waited for: the answer to this question.
    pub open spec fn awaits(self, action: Action) -> bool {
        match self.at {
            LobbyAt::Deferring => action is Defer,
            LobbyAt::Loading { .. } => action is LoadPlayer,
            LobbyAt::Creating { .. } => action is CreateLobby,
            LobbyAt::Fetching { .. } => action is Fetch,
            LobbyAt::Rendering { .. } => action is Render,
            LobbyAt::Posting { .. } => action is Send,
            LobbyAt::Threading { .. } => action is OpenThread,
            LobbyAt::Saving { .. } => action is SaveMessageIds,
            LobbyAt::Joining { .. } => action is JoinRegistered,
            LobbyAt::Closing { .. } => action is Reply,
            LobbyAt::Over => false,
        }
    }
}

/// `/lobby` is never left waiting by the answer to what it asked for: it goes on to its end or to
/// its next question, and waits for the answer to that.
pub proof fn lobbies_go_on_when_answered(
    pre: LobbyFlow,
    asked: Action,
    event: Event,
    post: LobbyFlow,
    turn: Turn<Handled>,
    settings: Settings,
)
    requires
        lobby_step(pre, event, post, turn, settings),
        pre.awaits(asked),
        asked.answered_by(event),
    ensures
        turn.goes_on(|action: Action| post.awaits(action)),
{
}

/// A run of `/lobby`: it starts, and every turn follows from what came of the one before.
pub open spec fn lobby_run(
    command: CommandContext,
    states: Seq<LobbyFlow>,
    events: Seq<Event>,
    turns: Seq<Turn<Handled>>,
    settings: Settings,
) -> bool {
    &&& states.len() == events.len() + 1
    &&& turns.len() == events.len()
    &&& states[0] == (LobbyFlow { command, at: LobbyAt::Deferring })
    &&& forall|n: int|
        0 <= n < events.len() ==> lobby_step(
            states[n],
            #[trigger] events[n],
            states[n + 1],
            turns[n],
            settings,
        )
}

/// The invoker was looked up before turn `n` and found to be this player.
pub open spec fn found_as(events: Seq<Event>, n: int, player: Player) -> bool {
    crate::protocol::happened(
        events,
        n,
        Event::PlayerLoaded(Ok::<Option<Player>, String>(Some(player))),
    )
}

/// A message was posted before turn `n` and stands here.
pub open spec fn posted_as(events: Seq<Event>, n: int, receipt: DiscordMessageReceipt) -> bool {
    crate::protocol::happened(
        events,
        n,
        Event::Posted(Ok::<DiscordMessageReceipt, String>(receipt)),
    )
}

/// A message was looked up before turn `n` and found at this address.
pub open spec fn found_at(events: Seq<Event>, n: int, url: String) -> bool {
    exists|message: crate::message::DiscordMessageSnapshot| #[trigger]
        crate::protocol::happened(
            events,
            n,
            Event::Fetched(
                Ok::<Option<crate::message::DiscordMessageSnapshot>, String>(Some(message)),
            ),
        ) && message.receipt.jump_url == url
}

spec fn visits(visit: Visit, command: CommandContext, scope: LobbyScope) -> bool {
    visit.scope == scope && command.channel_id == Some(visit.channel_id)
}

spec fn keeps_facts(
    at: LobbyAt,
    command: CommandContext,
    scope: LobbyScope,
    events: Seq<Event>,
    n: int,
) -> bool {
    match at {
        LobbyAt::Deferring => true,
        LobbyAt::Loading { visit } => visits(visit, command, scope),
        LobbyAt::Creating { visit, player } => visits(visit, command, scope) && found_as(
            events,
            n,
            player,
        ),
        LobbyAt::Fetching { visit, player, lobby } => visits(visit, command, scope) && found_as(
            events,
            n,
            player,
        ) && crate::protocol::happened(
            events,
            n,
            Event::Created(Ok::<LobbySnapshot, CreationFailure>(lobby)),
        ),
        LobbyAt::Rendering { visit, player } => visits(visit, command, scope) && found_as(
            events,
            n,
            player,
        ),
        LobbyAt::Posting { visit, player, .. } => visits(visit, command, scope) && found_as(
            events,
            n,
            player,
        ),
        LobbyAt::Threading { visit, player, receipt } => visits(visit, command, scope) && found_as(
            events,
            n,
            player,
        ) && posted_as(events, n, receipt),
        LobbyAt::Saving { visit, player, receipt } => visits(visit, command, scope) && found_as(
            events,
            n,
            player,
        ) && posted_as(events, n, receipt),
        LobbyAt::Joining { visit, name, jump_url, existing } => visits(visit, command, scope) && (
        exists|player: Player| #[trigger] found_as(events, n, player) && player.name == name) && (
        if existing {
            found_at(events, n, jump_url)
        } else {
            exists|receipt: DiscordMessageReceipt| #[trigger]
                posted_as(events, n, receipt) && receipt.jump_url == jump_url
        }),
        LobbyAt::Closing { held } => held matches Some(s) ==> s == scope,
        LobbyAt::Over => true,
    }
}

proof fn runs_keep_their_facts(
    command: CommandContext,
    states: Seq<LobbyFlow>,
    events: Seq<Event>,
    turns: Seq<Turn<Handled>>,
    settings: Settings,
    pick: Option<LobbyKind>,
    n: int,
)
    requires
        lobby_run(command, states, events, turns, settings),
        crate::commands::picked(command.options@, pick),
        0 <= n < states.len(),
    ensures
        states[n].command == command,
        keeps_facts(
            states[n].at,
            command,
            crate::commands::meant_lobby(command, pick),
            events,
            n,
        ),
    decreases n,
{
    crate::commands::the_picked_lobby_is_chosen(command.options@, pick);
    if n > 0 {
        runs_keep_their_facts(command, states, events, turns, settings, pick, n - 1);
        let (pre, event, post) = (states[n - 1], events[n - 1], states[n]);
        assert(lobby_step(pre, event, post, turns[n - 1], settings));
        crate::protocol::what_happened_stays(events, n);
        match (pre.at, event) {
            (LobbyAt::Fetching { player, .. }, Event::Fetched(Ok(Some(message)))) => {
                assert(found_as(events, n, player));
                assert(crate::protocol::happened(
                    events,
                    n,
                    Event::Fetched(
                        Ok::<Option<crate::message::DiscordMessageSnapshot>, String>(
                            Some(message),
                        ),
                    ),
                ));
            },
            (LobbyAt::Posting { .. }, Event::Posted(Ok(receipt))) => {
                assert(posted_as(events, n, receipt));
            },
            (LobbyAt::Saving { player, receipt, .. }, Event::Done(Ok(_))) => {
                assert(found_as(events, n, player));
                assert(posted_as(events, n, receipt));
            },
            (LobbyAt::Joining { name, jump_url, existing, .. }, _) => {
                let player = choose|player: Player| #[trigger]
                    found_as(events, n - 1, player) && player.name == name;
                assert(found_as(events, n, player));
                if existing {
                    let message = choose|message: crate::message::DiscordMessageSnapshot| #[trigger]
                        crate::protocol::happened(
                            events,
                            n - 1,
                            Event::Fetched(
                                Ok::<Option<crate::message::DiscordMessageSnapshot>, String>(
                                    Some(message),
                                ),
                            ),
                        ) && message.receipt.jump_url == jump_url;
                    assert(crate::protocol::happened(
                        events,
                        n,
                        Event::Fetched(
                            Ok::<Option<crate::message::DiscordMessageSnapshot>, String>(
                                Some(message),
                            ),
                        ),
                    ));
                } else {
                    let receipt = choose|receipt: DiscordMessageReceipt| #[trigger]
                        posted_as(events, n - 1, receipt) && receipt.jump_url == jump_url;
                    assert(posted_as(events, n, receipt));
                }
            },
            _ => {},
        }
    }
}

/// Whatever a run of `/lobby` does, it does for its invoker and in the lobby that the command
/// picked in its own guild, in the open one only where none was picked; a lobby that it creates is
/// created by the invoker.
pub proof fn lobby_commands_stay_in_the_picked_lobby(
    command: CommandContext,
    states: Seq<LobbyFlow>,
    events: Seq<Event>,
    turns: Seq<Turn<Handled>>,
    settings: Settings,
    pick: Option<LobbyKind>,
    n: int,
    action: Action,
)
    requires
        lobby_run(command, states, events, turns, settings),
        crate::commands::picked(command.options@, pick),
        0 <= n < turns.len(),
        turns[n].does(action),
    ensures
        crate::commands::keeps_to(action, command, crate::commands::meant_lobby(command, pick)),
        action matches Action::CreateLobby { creator, .. } ==> creator == Some(command.user_id),
{
    runs_keep_their_facts(command, states, events, turns, settings, pick, n);
    crate::commands::the_picked_lobby_is_chosen(command.options@, pick);
    assert(lobby_step(states[n], events[n], states[n + 1], turns[n], settings));
}

/// A run of `/lobby` asks for a seat with roles exactly if the player that was loaded earlier in
/// that run chose at least one: a player without roles is never passed off as having some, nor one
/// with roles as having none.
pub proof fn lobby_seats_need_roles(
    command: CommandContext,
    states: Seq<LobbyFlow>,
    events: Seq<Event>,
    turns: Seq<Turn<Handled>>,
    settings: Settings,
    pick: Option<LobbyKind>,
    n: int,
    scope: LobbyScope,
    player_id: i64,
    has_roles: bool,
)
    requires
        lobby_run(command, states, events, turns, settings),
        crate::commands::picked(command.options@, pick),
        0 <= n < turns.len(),
        turns[n].does(Action::JoinRegistered { scope, player_id, has_roles }),
    ensures
        exists|player: Player| #[trigger]
            found_as(events, n, player) && has_roles == (player.preferred_roles matches Some(roles)
                && roles@.len() > 0),
        player_id == command.user_id,
{
    runs_keep_their_facts(command, states, events, turns, settings, pick, n);
    assert(lobby_step(states[n], events[n], states[n + 1], turns[n], settings));
    match states[n].at {
        LobbyAt::Fetching { player, .. } => {
            assert(found_as(events, n, player));
        },
        LobbyAt::Saving { player, .. } => {
            assert(found_as(events, n, player));
        },
        _ => {},
    }
}

/// A registered invoker gets to see the lobby: `/lobby` reads or creates it for every player who
/// was found; a lobby whose message still stands leads straight to the seat, and any other is
/// rendered as it was read, posted, given a thread, stored and then leads to the seat.
pub proof fn lobby_commands_lead_to_a_seat(
    pre: LobbyFlow,
    event: Event,
    post: LobbyFlow,
    turn: Turn<Handled>,
    settings: Settings,
)
    requires
        lobby_step(pre, event, post, turn, settings),
    ensures
        pre.at is Loading && (event matches Event::PlayerLoaded(Ok(Some(_)))) ==> (
        turn.next matches Next::Ask(Action::CreateLobby { .. })),
        pre.at is Creating ==> (event matches Event::Created(Ok(lobby)) ==> {
            let shown = lobby.message_ids.channel_id is Some && lobby.message_ids.message_id is Some
                && lobby.message_ids.thread_id is Some;
            &&& !shown ==> turn.next == Next::<Handled>::Ask(Action::Render { lobby })
            &&& turn.next matches Next::Ask(Action::Fetch { channel_id, message_id }) ==> shown
                && lobby.message_ids.channel_id == Some(channel_id as i64)
                && lobby.message_ids.message_id == Some(message_id as i64)
            &&& turn.next is Ask ==> (turn.next matches Next::Ask(Action::Fetch { .. })) || !shown
        }),
        pre.at matches LobbyAt::Fetching { lobby, .. } ==> match event {
            Event::Fetched(Ok(Some(_))) => turn.next matches Next::Ask(
                Action::JoinRegistered { .. },
            ),
            Event::Fetched(_) => turn.next == Next::<Handled>::Ask(Action::Render { lobby }),
            _ => turn.next is Wait,
        },
        pre.at is Posting ==> (event matches Event::Posted(Ok(receipt)) ==> (
        turn.next matches Next::Ask(Action::OpenThread { channel_id, message_id, .. }) && channel_id
            == receipt.channel_id && message_id == receipt.message_id)),
        pre.at is Saving && (event matches Event::Done(Ok(_))) ==> (turn.next matches Next::Ask(
            Action::JoinRegistered { .. },
        )),
{
}

/// A new lobby is announced in the channel that is reserved for its kind, or else where the
/// command was used, with the card that was rendered; where its own channel refuses it, it is
/// announced where the command was used, with the same card. Its thread goes by its label.
pub proof fn new_lobbies_are_announced_where_they_belong(
    command: CommandContext,
    states: Seq<LobbyFlow>,
    events: Seq<Event>,
    turns: Seq<Turn<Handled>>,
    settings: Settings,
    pick: Option<LobbyKind>,
    n: int,
)
    requires
        lobby_run(command, states, events, turns, settings),
        crate::commands::picked(command.options@, pick),
        0 <= n < turns.len(),
    ensures
        turns[n].next matches Next::Ask(Action::Send { channel_id, message }) ==> {
            let reserved = match crate::commands::meant_lobby(command, pick).kind {
                LobbyKind::Open => settings.config.lobby_channel_id,
                LobbyKind::LowSkill => if settings.config.low_skill_lobby_channel_id is Some {
                    settings.config.low_skill_lobby_channel_id
                } else {
                    settings.config.lobby_channel_id
                },
            };
            &&& events[n] matches Event::Rendered(Ok(model)) ==> (match reserved {
                Some(channel) => channel_id == channel,
                None => command.channel_id == Some(channel_id as i64),
            }) && (message.response.embed matches Some(card) && card.title == model.title
                && card.description == model.description && card.footer == model.footer
                && card.fields@ == model.fields@)
            &&& !(events[n] is Rendered) ==> (events[n] matches Event::Posted(Err(_)))
                && command.channel_id == Some(channel_id as i64)
            &&& message.allowed_mentions is Nobody
        },
        turns[n].next matches Next::Ask(Action::OpenThread { name, .. }) ==> name@
            == settings.wording.label_of(crate::commands::meant_lobby(command, pick).kind),
        turns[n].next matches Next::Ask(Action::SaveMessageIds { ids, .. }) ==> {
            &&& exists|receipt: DiscordMessageReceipt| #[trigger]
                posted_as(events, n, receipt) && ids.message_id == Some(receipt.message_id as i64)
                    && ids.embed_message_id == ids.message_id && ids.channel_id == Some(
                    receipt.channel_id as i64,
                )
            &&& events[n] matches Event::ThreadOpened(Ok(thread)) && ids.thread_id == Some(
                thread as i64,
            )
            &&& ids.origin_channel_id == command.channel_id
        },
{
    runs_keep_their_facts(command, states, events, turns, settings, pick, n);
    assert(lobby_step(states[n], events[n], states[n + 1], turns[n], settings));
    if let LobbyAt::Threading { receipt, .. } = states[n].at {
        assert(posted_as(events, n, receipt));
    }
}

/// Where a new lobby was stored, its own message is pinned and gets a sword, the coin, a clipboard
/// and a bell, and the ready checks take the lobby over; where no thread could be opened, the
/// message is taken back.
pub proof fn new_lobbies_are_decorated(
    pre: LobbyFlow,
    event: Event,
    post: LobbyFlow,
    turn: Turn<Handled>,
    settings: Settings,
)
    requires
        lobby_step(pre, event, post, turn, settings),
    ensures
        pre.at matches LobbyAt::Saving { visit, receipt, .. } ==> (event matches Event::Done(Ok(_))
            ==> {
            &&& turn.does(
                Action::Pin { channel_id: receipt.channel_id, message_id: receipt.message_id },
            )
            &&& turn.does(Action::SyncReadyLobby { scope: visit.scope })
            &&& puts_on(turn, receipt, "⚔️"@, None)
            &&& puts_on(turn, receipt, "jopacoin"@, Some(settings.wording.jopacoin_emoji_id))
            &&& puts_on(turn, receipt, "📋"@, None)
            &&& puts_on(turn, receipt, "🔔"@, None)
        }),
        pre.at matches LobbyAt::Threading { receipt, .. } ==> (event matches Event::ThreadOpened(
            Err(_),
        ) ==> turn.does(
            Action::Delete { channel_id: receipt.channel_id, message_id: receipt.message_id },
        )),
{
    if let LobbyAt::Saving { visit, receipt, .. } = pre.at {
        if event matches Event::Done(Ok(_)) {
            assert(turn.before@[0] == (Action::SyncReadyLobby { scope: visit.scope }));
            assert(turn.before@.contains(turn.before@[0]));
            assert(turn.before@.contains(turn.before@[1]));
            assert(is_put_on(turn.before@[2], receipt, "⚔️"@, None));
            assert(is_put_on(
                turn.before@[3],
                receipt,
                "jopacoin"@,
                Some(settings.wording.jopacoin_emoji_id),
            ));
            assert(is_put_on(turn.before@[4], receipt, "📋"@, None));
            assert(is_put_on(turn.before@[5], receipt, "🔔"@, None));
        }
    }
    if let LobbyAt::Threading { .. } = pre.at {
        if event matches Event::ThreadOpened(Err(_)) {
            assert(turn.before@.contains(turn.before@[0]));
        }
    }
}

/// The action puts this reaction on this message.
pub open spec fn is_put_on(
    action: Action,
    receipt: DiscordMessageReceipt,
    name: Seq<char>,
    id: Option<u64>,
) -> bool {
    action matches Action::React { channel_id, message_id, emoji } && channel_id
        == receipt.channel_id && message_id == receipt.message_id && emoji.name@ == name && emoji.id
        == id
}

/// The turn puts this reaction on this message.
pub open spec fn puts_on(
    turn: Turn<Handled>,
    receipt: DiscordMessageReceipt,
    name: Seq<char>,
    id: Option<u64>,
) -> bool {
    exists|i: int|
        0 <= i < turn.before@.len() && is_put_on(#[trigger] turn.before@[i], receipt, name, id)
}

/// What became of the seat is made known and answered: a join exactly where the lobby let the
/// invoker in, at the moment it gave and under the invoker's names; and the answer, for the
/// invoker alone, leads to the message of the lobby and, unless that is new, names it.
pub proof fn lobby_seats_are_answered(
    command: CommandContext,
    states: Seq<LobbyFlow>,
    events: Seq<Event>,
    turns: Seq<Turn<Handled>>,
    settings: Settings,
    pick: Option<LobbyKind>,
    n: int,
    join: JoinPresentation,
)
    requires
        lobby_run(command, states, events, turns, settings),
        crate::commands::picked(command.options@, pick),
        0 <= n < turns.len(),
        states[n].at is Joining,
        events[n] == Event::Presented(Ok::<JoinPresentation, String>(join)),
    ensures
        join.joined_at_ns is Some <==> exists|i: int|
            0 <= i < turns[n].before@.len() && #[trigger] turns[n].before@[i] is PublishJoin,
        forall|i: int|
            0 <= i < turns[n].before@.len() ==> (#[trigger] turns[n].before@[i] matches
                Action::PublishJoin { joiner, raw_reaction, .. } ==> !raw_reaction
                && join.joined_at_ns == Some(joiner.joined_at_ns) && joiner.display_name
                == command.user_display_name && (exists|player: Player| #[trigger]
                found_as(events, n, player) && player.name == joiner.name)),
        exists|url: String|
            #![trigger url@]
            (turns[n].next matches Next::Ask(action) && crate::protocol::tells_invoker(
                action,
                "]("@ + url@ + ")"@,
            ) && crate::protocol::tells_invoker(
                action,
                settings.wording.label_of(crate::commands::meant_lobby(command, pick).kind),
            )) && (found_at(events, n, url) || exists|receipt: DiscordMessageReceipt| #[trigger]
                posted_as(events, n, receipt) && receipt.jump_url == url),
{
    runs_keep_their_facts(command, states, events, turns, settings, pick, n);
    let turn = turns[n];
    assert(lobby_step(states[n], events[n], states[n + 1], turn, settings));
    if let LobbyAt::Joining { visit, name, jump_url, existing } = states[n].at {
        let kind = visit.scope.kind;
        answers_name_the_lobby(kind, existing, jump_url@, join, settings.wording);
        assert(turn.next matches Next::Ask(action) && crate::protocol::tells_invoker(
            action,
            "]("@ + jump_url@ + ")"@,
        ));
        if join.joined_at_ns is Some {
            assert(turn.before@[0] is PublishJoin);
        }
    }
}

proof fn answers_name_the_lobby(
    kind: LobbyKind,
    existing: bool,
    url: Seq<char>,
    join: JoinPresentation,
    wording: Wording,
)
    ensures
        crate::text::contains_text(
            lobby_answer(kind, existing, url, join, wording),
            "]("@ + url + ")"@,
        ),
        crate::text::contains_text(
            lobby_answer(kind, existing, url, join, wording),
            wording.label_of(kind),
        ),
{
    let label = wording.label_of(kind);
    let answer = lobby_answer(kind, existing, url, join, wording);
    let link = "]("@ + url + ")"@;
    reveal_strlit("](");
    reveal_strlit("! [View ");
    reveal_strlit(" [View ");
    reveal_strlit(" [View](");
    reveal_strlit(" created! [View](");
    reveal_strlit(" created and joined! [View](");
    let start = answer.len() - link.len();
    assert(answer.subrange(start, start + link.len()) =~= link);
    let head = if existing && join.joined_at_ns is Some {
        "✅ Joined "@
    } else if existing {
        match crate::joining::auto_join_warning(kind, join, wording) {
            Some(warning) => warning + " [View "@,
            None => "[View "@,
        }
    } else {
        "✅ "@
    };
    let from = head.len() as int;
    assert(answer.subrange(from, from + label.len()) =~= label);
}

/// A new lobby that could not be posted to the channel reserved for it is posted, the same card, to
/// the channel of the command; one that could not be posted there either is given up.
pub proof fn new_lobbies_fall_back_to_the_invoker(
    command: CommandContext,
    states: Seq<LobbyFlow>,
    events: Seq<Event>,
    turns: Seq<Turn<Handled>>,
    settings: Settings,
    pick: Option<LobbyKind>,
    n: int,
    channel: u64,
    message: DiscordMessage,
    error: String,
)
    requires
        lobby_run(command, states, events, turns, settings),
        crate::commands::picked(command.options@, pick),
        0 <= n < turns.len() - 1,
        turns[n].next == Next::<Handled>::Ask(Action::Send { channel_id: channel, message }),
        events[n + 1] == Event::Posted(Err::<DiscordMessageReceipt, String>(error)),
    ensures
        events[n] is Rendered && command.channel_id != Some(channel as i64) ==> (
        turns[n + 1].next matches Next::Ask(Action::Send { channel_id: again, message: same })
            && command.channel_id == Some(again as i64) && same.response.content@
            == message.response.content@ && (same.response.embed matches Some(card) && (
        message.response.embed matches Some(shown) && card.title == shown.title && card.fields@
            == shown.fields@ && card.description == shown.description))),
        command.channel_id == Some(channel as i64) && channel <= i64::MAX ==> (
        turns[n + 1].next matches Next::End(Err(_))),
{
    runs_keep_their_facts(command, states, events, turns, settings, pick, n);
    runs_keep_their_facts(command, states, events, turns, settings, pick, n + 1);
    assert(lobby_step(states[n], events[n], states[n + 1], turns[n], settings));
    assert(lobby_step(states[n + 1], events[n + 1], states[n + 2], turns[n + 1], settings));
}

} // verus!
