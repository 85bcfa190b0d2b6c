//! Reactions on the messages of lobbies and ready checks.
use vstd::prelude::*;
use crate::flows::lobby::BELL_EMOJI;
use crate::flows::lobby::SWORD_EMOJI;
use crate::ids::to_stored;
use crate::ids::to_u64;
use crate::ids::to_unsigned;
use crate::joining::JoinPresentation;
use crate::joining::JoinRejection;
use crate::joining::Joiner;
use crate::joining::LobbyGambaSpectator;
use crate::joining::Player;
use crate::joining::raw_rejection_message;
use crate::kinds::LobbyScope;
use crate::kinds::Wording;
use crate::lobby::LobbySnapshot;
use crate::lobby::scope_for_lobby_message;
use crate::lobby::scope_for_readycheck_message;
use crate::message::DiscordEmoji;
use crate::message::DiscordMessage;
use crate::message::DiscordMessageReceipt;
use crate::protocol::Action;
use crate::protocol::Event;
use crate::protocol::Next;
use crate::protocol::Turn;
use crate::protocol::WorkFailure;
use crate::readycheck::ReadycheckBoard;
use crate::readycheck::ReadycheckGeneration;
use crate::text::same_text;
use crate::text::tag_i64;
use crate::text::tag_u64;
use crate::text::text3;

verus! {

/// The reaction that confirms readiness.
pub const READY_EMOJI: &'static str = "✅";

/// A custom emoji that lobbies used to carry and that is cleaned up wherever it shows.
pub const LEGACY_FROGLING_EMOJI_ID: u64 = 1_463_270_458_848_842_003;

/// How long a refusal stays up, in seconds.
pub const REJECTION_SECONDS: u64 = 10;

/// How long a refusal stays up that takes longer to read, in seconds.
pub const LONG_REJECTION_SECONDS: u64 = 15;

/// What a user is told whose reaction cannot let them in because they are not registered.
pub const REGISTER_FIRST: &'static str =
    "You're not registered! Use `/player register` first to join the lobby.";

/// What a user is told whose reaction cannot let them in because they chose no roles.
pub const ROLES_FIRST: &'static str =
    "Set your preferred roles first! Use `/player roles` (e.g., `/player roles 123`).";

/// What a suspended user is told in public.
pub const RESTRICTED: &'static str =
    "You are temporarily restricted from this matchmaking lobby. Check your DMs or use `/player lobby status`.";

/// Whether a reaction was put on or taken off.
#[derive(Clone, Copy, Debug, PartialEq, Eq, Structural)]
pub enum RawReactionKind {
    Add,
    Remove,
}

/// A reaction that was put on or taken off.
#[derive(Clone, Debug, PartialEq, Eq)]
pub struct RawReactionEvent {
    pub kind: RawReactionKind,
    pub guild_id: Option<u64>,
    pub channel_id: u64,
    pub message_id: u64,
    pub user_id: u64,
    pub emoji: DiscordEmoji,
    pub actor_display_name: Option<String>,
}

/// How a reaction ends.
pub type Observed = Result<(), String>;

/// Where the handling of a reaction stands.
#[derive(Debug, PartialEq, Eq)]
pub enum ReactionAt {
    /// The ready check that was reacted to is being found.
    FindingCheck,
    /// The confirmation is being noted.
    Confirming { scope: LobbyScope, message_id: i64 },
    /// The ready check is being read, to be repainted.
    Repainting { scope: LobbyScope, message_id: i64 },
    /// The lobby that was reacted to is being found.
    FindingLobby,
    /// The lobby is being read, to run a ready check.
    Ringing { scope: LobbyScope, user_id: i64, channel_id: i64 },
    /// The ready check is running.
    Running,
    /// The lobby is being read, to welcome a spectator.
    Spectating { scope: LobbyScope, user_id: i64 },
    /// The spectator's observer is being looked for.
    SeekingObserver { scope: LobbyScope, user_id: i64 },
    /// The spectator's name is being looked up.
    NamingSpectator { scope: LobbyScope, user_id: i64 },
    /// The name of a user who joins or leaves is being looked up.
    Naming { scope: LobbyScope, user_id: i64 },
    /// A user who wants to join is being looked up.
    Loading { scope: LobbyScope, user_id: i64, name: Option<String> },
    /// A user is being let in.
    Joining { scope: LobbyScope, user_id: i64, name: Option<String>, player_name: String },
    /// A refusal is being posted; a private reason follows it.
    Rejecting { scope: LobbyScope, seconds: u64, private_reason: Option<String> },
    /// A user is being let out.
    Leaving { scope: LobbyScope, user_id: i64, name: Option<String> },
    /// A name is being found for a user who left.
    NamingLeaver { scope: LobbyScope, user_id: i64 },
    /// Nothing is left to be done.
    Over,
}

/// A reaction in progress.
#[derive(Debug, PartialEq, Eq)]
pub struct ReactionFlow {
    pub event: RawReactionEvent,
    pub at: ReactionAt,
}

/// The turn ends the handling with this failure.
pub open spec fn fails(turn: Turn<Observed>, text: Seq<char>) -> bool {
    &&& turn.before@.len() == 0
    &&& turn.next matches Next::End(Err(error)) && error@ == text
}

/// The turn gives the scope free and ends the handling with this failure.
pub open spec fn fails_free(turn: Turn<Observed>, scope: LobbyScope, text: Seq<char>) -> bool {
    &&& turn.before@.len() == 1
    &&& turn.before@[0] == (Action::Unlock { scope })
    &&& turn.next matches Next::End(Err(error)) && error@ == text
}

/// Nothing is left to be done, and nothing went wrong.
pub open spec fn is_over(post: ReactionAt, turn: Turn<Observed>) -> bool {
    post is Over && turn.only_ends(Ok(()))
}

/// What is said of a user whose id cannot be stored.
pub open spec fn user_overflow() -> Seq<char> {
    "raw reaction user id overflow"@
}

/// The beginning: a confirmation looks for its ready check, any other reaction for its lobby.
pub open spec fn reaction_starts(
    event: RawReactionEvent,
    post: ReactionAt,
    turn: Turn<Observed>,
) -> bool {
    if event.emoji.name@ == READY_EMOJI@ {
        match crate::commands::stored_option(event.guild_id) {
            Some(guild_id) => post is FindingCheck && turn.only_asks(
                Action::ReadCheckMessages { guild_id },
            ),
            None => is_over(post, turn),
        }
    } else {
        post is FindingLobby && turn.only_asks(Action::ListLobbies)
    }
}

/// The action notes that a user is ready, marked by their tag.
pub open spec fn confirms(action: Action, scope: LobbyScope, player_id: i64, message_id: i64) -> bool {
    action matches Action::Confirm { scope: s, player_id: p, mark, message_id: m } && s == scope
        && p == player_id && m == message_id && mark@ == crate::text::tag(player_id as int)
}

/// The ready checks of the guild are known: the confirmation is noted on the one that was
/// reacted to.
pub open spec fn check_found(
    event: RawReactionEvent,
    open: Option<i64>,
    low_skill: Option<i64>,
    post: ReactionAt,
    turn: Turn<Observed>,
) -> bool {
    match crate::lobby::readycheck_message_scope(
        open,
        low_skill,
        event.guild_id,
        event.message_id,
    ) {
        None => is_over(post, turn),
        Some(scope) => if event.user_id > i64::MAX {
            post is Over && fails(turn, user_overflow())
        } else {
            let player_id = event.user_id as i64;
            let message_id = event.message_id as i64;
            &&& post == (ReactionAt::Confirming { scope, message_id })
            &&& turn.before@.len() == 0
            &&& match event.kind {
                RawReactionKind::Add => turn.next matches Next::Ask(action) && confirms(
                    action,
                    scope,
                    player_id,
                    message_id,
                ),
                RawReactionKind::Remove => turn.next == Next::<Observed>::Ask(
                    Action::Withdraw { scope, player_id, message_id },
                ),
            }
        },
    }
}

/// The action repaints a ready check on this message.
pub open spec fn repaints(
    action: Action,
    channel: u64,
    message: u64,
    scope: LobbyScope,
    generation: ReadycheckGeneration,
) -> bool {
    action == (Action::PaintCheck {
        channel_id: channel,
        message_id: message,
        board: ReadycheckBoard {
            kind: scope.kind,
            players: generation.player_data,
            reacted: generation.reacted,
        },
    })
}

/// The ready check was read: it is repainted, and completion is announced where it is due.
pub open spec fn check_read(
    event: RawReactionEvent,
    scope: LobbyScope,
    message_id: i64,
    check: Option<ReadycheckGeneration>,
    post: ReactionAt,
    turn: Turn<Observed>,
) -> bool {
    match check {
        None => is_over(post, turn),
        Some(generation) => {
            &&& post is Over
            &&& turn.before@.len() == 2
            &&& repaints(turn.before@[0], event.channel_id, event.message_id, scope, generation)
            &&& turn.before@[1] == (Action::NotifyCompletion { scope, message_id })
            &&& turn.next == Next::<Observed>::End(Ok(()))
        },
    }
}

/// The action takes a reaction of the user off the message that was reacted to.
pub open spec fn unreacts(action: Action, event: RawReactionEvent, emoji: Seq<char>) -> bool {
    action matches Action::Unreact { channel_id, message_id, emoji: taken, user_id } && channel_id
        == event.channel_id && message_id == event.message_id && user_id == event.user_id
        && crate::message::is_unicode(taken, emoji)
}

/// The reaction is the coin that spectators use.
pub open spec fn is_coin(emoji: DiscordEmoji, wording: Wording) -> bool {
    emoji.id == Some(wording.jopacoin_emoji_id) || emoji.name@ == "jopacoin"@
}

/// A reaction on the message of a lobby is taken up by what it means.
pub open spec fn lobby_reacted(
    event: RawReactionEvent,
    scope: LobbyScope,
    post: ReactionAt,
    turn: Turn<Observed>,
    wording: Wording,
) -> bool {
    let added = event.kind == RawReactionKind::Add;
    let user_id = event.user_id as i64;
    if event.emoji.id == Some(LEGACY_FROGLING_EMOJI_ID) {
        if added {
            &&& post is Over
            &&& turn.before@.len() == 1
            &&& turn.before@[0] matches Action::Unreact { channel_id, message_id, emoji, user_id }
                && channel_id == event.channel_id && message_id == event.message_id && user_id
                == event.user_id && emoji.name@ == event.emoji.name@ && emoji.id == event.emoji.id
            &&& turn.next == Next::<Observed>::End(Ok(()))
        } else {
            is_over(post, turn)
        }
    } else if event.emoji.name@ == BELL_EMOJI@ && added {
        if event.user_id > i64::MAX {
            post is Over && fails(turn, user_overflow())
        } else if event.channel_id > i64::MAX {
            post is Over && fails(turn, "raw reaction channel id overflow"@)
        } else {
            &&& post == (ReactionAt::Ringing {
                scope,
                user_id,
                channel_id: event.channel_id as i64,
            })
            &&& turn.only_asks(Action::ReadLobby { scope })
        }
    } else if is_coin(event.emoji, wording) && added {
        if event.user_id > i64::MAX {
            post is Over && fails(turn, user_overflow())
        } else {
            &&& post == (ReactionAt::Spectating { scope, user_id })
            &&& turn.only_asks(Action::ReadLobby { scope })
        }
    } else if event.emoji.name@ != SWORD_EMOJI@ {
        is_over(post, turn)
    } else if event.user_id > i64::MAX {
        post is Over && fails(turn, user_overflow())
    } else {
        &&& post == (ReactionAt::Naming { scope, user_id })
        &&& turn.only_asks(name_question(event))
    }
}

/// The question for the name that the user shows.
pub open spec fn name_question(event: RawReactionEvent) -> Action {
    Action::ResolveName {
        guild_id: event.guild_id,
        user_id: event.user_id,
        known: event.actor_display_name,
    }
}

/// The channel that a ready check is called from: where the lobby was created, or else where
/// the reaction was made.
pub open spec fn ringing_channel(lobby: Option<LobbySnapshot>, channel_id: i64) -> i64 {
    match lobby {
        Some(lobby) => match lobby.message_ids.origin_channel_id {
            Some(origin) => origin,
            None => channel_id,
        },
        None => channel_id,
    }
}

/// The text that welcomes a spectator.
pub open spec fn spectator_text(user_id: i64, wording: Wording) -> Seq<char> {
    wording.jopacoin_emote@ + " "@ + crate::text::tag(user_id as int) + " is here for the gamba!"@
}

/// The lobby was read: a spectator who is not playing is welcomed in its thread.
pub open spec fn spectated(
    event: RawReactionEvent,
    scope: LobbyScope,
    user_id: i64,
    lobby: Option<LobbySnapshot>,
    post: ReactionAt,
    turn: Turn<Observed>,
    wording: Wording,
) -> bool {
    match lobby {
        None => is_over(post, turn),
        Some(lobby) => if lobby.players@.contains(user_id) {
            is_over(post, turn)
        } else {
            match lobby.message_ids.thread_id {
                Some(thread_id) => if thread_id < 0 {
                    post is Over && fails(turn, crate::ids::bad_snowflake_text(thread_id as int))
                } else {
                    &&& post == (ReactionAt::SeekingObserver { scope, user_id })
                    &&& turn.before@.len() == 1
                    &&& turn.before@[0] matches Action::Send { channel_id, message } && channel_id
                        == thread_id && crate::message::mentioning_text(
                        message,
                        spectator_text(user_id, wording),
                        set![event.user_id],
                    )
                    &&& turn.next == Next::<Observed>::Ask(Action::FindObserver)
                },
                None => {
                    &&& post == (ReactionAt::SeekingObserver { scope, user_id })
                    &&& turn.only_asks(Action::FindObserver)
                },
            }
        },
    }
}

/// The name of a spectator is known: the observer is told.
pub open spec fn spectator_named(
    event: RawReactionEvent,
    scope: LobbyScope,
    user_id: i64,
    name: Option<String>,
    post: ReactionAt,
    turn: Turn<Observed>,
) -> bool {
    &&& post is Over
    &&& turn.next == Next::<Observed>::End(Ok(()))
    &&& if scope.guild_id >= 0 && user_id >= 0 {
        &&& turn.before@.len() == 1
        &&& turn.before@[0] matches Action::TellSpectator { spectator } && spectator.guild_id
            == scope.guild_id && spectator.player_id == user_id && spectator.channel_id
            == event.channel_id && spectator.player_display_name@ == match name {
            Some(name) => name@,
            None => "Lobby spectator"@,
        }
    } else {
        turn.before@.len() == 0
    }
}

/// The name of the user is known: the scope is taken, and the user is looked up to be let in,
/// or let out.
pub open spec fn actor_named(
    event: RawReactionEvent,
    scope: LobbyScope,
    user_id: i64,
    name: Option<String>,
    post: ReactionAt,
    turn: Turn<Observed>,
) -> bool {
    &&& turn.before@.len() == 1
    &&& turn.before@[0] == (Action::Lock { scope })
    &&& match event.kind {
        RawReactionKind::Add => {
            &&& post == (ReactionAt::Loading { scope, user_id, name })
            &&& turn.next == Next::<Observed>::Ask(
                Action::LoadPlayer { player_id: user_id, guild_id: scope.guild_id },
            )
        },
        RawReactionKind::Remove => {
            &&& post == (ReactionAt::Leaving { scope, user_id, name })
            &&& turn.next == Next::<Observed>::Ask(Action::Leave { player_id: user_id, scope })
        },
    }
}

/// The reaction is taken off and the user is told why, for a while.
pub open spec fn rejects(
    event: RawReactionEvent,
    scope: LobbyScope,
    reason: Seq<char>,
    seconds: u64,
    private_reason: Option<String>,
    post: ReactionAt,
    turn: Turn<Observed>,
) -> bool {
    &&& post == (ReactionAt::Rejecting { scope, seconds, private_reason })
    &&& turn.before@.len() == 1
    &&& unreacts(turn.before@[0], event, SWORD_EMOJI@)
    &&& turn.next matches Next::Ask(Action::Send { channel_id, message }) && channel_id
        == event.channel_id && crate::message::mentioning_text(
        message,
        crate::text::tag(event.user_id as int) + " ❌ "@ + reason,
        set![event.user_id],
    )
}

/// The user was looked up: they are let in, if they are registered and chose roles.
pub open spec fn actor_loaded(
    event: RawReactionEvent,
    scope: LobbyScope,
    user_id: i64,
    name: Option<String>,
    loaded: Result<Option<Player>, String>,
    post: ReactionAt,
    turn: Turn<Observed>,
) -> bool {
    match loaded {
        Err(error) => post is Over && fails_free(turn, scope, error@),
        Ok(None) => rejects(event, scope, REGISTER_FIRST@, REJECTION_SECONDS, None, post, turn),
        Ok(Some(player)) => if !player.chose_roles() {
            rejects(event, scope, ROLES_FIRST@, REJECTION_SECONDS, None, post, turn)
        } else {
            &&& post == (ReactionAt::Joining { scope, user_id, name, player_name: player.name })
            &&& turn.only_asks(
                Action::JoinRegistered { scope, player_id: user_id, has_roles: true },
            )
        },
    }
}

/// The user was let in or refused: the join is published, or the reaction is refused. A
/// suspended user learns the reason in private alone.
pub open spec fn actor_joined(
    event: RawReactionEvent,
    scope: LobbyScope,
    user_id: i64,
    name: Option<String>,
    player_name: String,
    presented: Result<JoinPresentation, String>,
    post: ReactionAt,
    turn: Turn<Observed>,
    wording: Wording,
) -> bool {
    match presented {
        Err(error) => post is Over && fails_free(turn, scope, error@),
        Ok(join) => match join.joined_at_ns {
            Some(joined_at_ns) => {
                &&& post is Over
                &&& turn.before@.len() == 2
                &&& turn.before@[0] matches Action::PublishJoin { scope: s, joiner, raw_reaction }
                    && s == scope && raw_reaction && joiner.player_id == user_id && joiner.name@
                    == player_name@ && joiner.joined_at_ns == joined_at_ns && joiner.display_name@
                    == match name {
                    Some(name) => name@,
                    None => player_name@,
                }
                &&& turn.before@[1] == (Action::Unlock { scope })
                &&& turn.next == Next::<Observed>::End(Ok(()))
            },
            None => match join.rejection {
                Some(JoinRejection::Suspended(suspension)) => rejects(
                    event,
                    scope,
                    RESTRICTED@,
                    LONG_REJECTION_SECONDS,
                    Some(suspension.reason),
                    post,
                    turn,
                ),
                Some(rejection) => rejects(
                    event,
                    scope,
                    crate::joining::public_rejection(rejection, wording),
                    if rejection is PendingMatch {
                        LONG_REJECTION_SECONDS
                    } else {
                        REJECTION_SECONDS
                    },
                    None,
                    post,
                    turn,
                ),
                None => rejects(
                    event,
                    scope,
                    "Could not join lobby."@,
                    REJECTION_SECONDS,
                    None,
                    post,
                    turn,
                ),
            },
        },
    }
}

/// What a suspended user is told in private.
pub open spec fn private_reason_text(reason: Seq<char>) -> Seq<char> {
    "You are temporarily suspended from this matchmaking lobby.\nReason: "@ + reason
        + "\nUse `/player lobby status` in the server for the exact remaining term."@
}

/// The refusal was posted, or not: where it stands it is taken down later, and a suspended user
/// is told the reason in private.
pub open spec fn rejection_posted(
    event: RawReactionEvent,
    scope: LobbyScope,
    seconds: u64,
    private_reason: Option<String>,
    posted: Result<DiscordMessageReceipt, String>,
    post: ReactionAt,
    turn: Turn<Observed>,
) -> bool {
    let shown: int = if posted is Ok {
        1
    } else {
        0
    };
    let told: int = if private_reason is Some {
        1
    } else {
        0
    };
    &&& post is Over
    &&& turn.next == Next::<Observed>::End(Ok(()))
    &&& turn.before@.len() == shown + told + 1
    &&& posted matches Ok(receipt) ==> turn.before@[0] == (Action::DeleteLater {
        channel_id: receipt.channel_id,
        message_id: receipt.message_id,
        seconds,
    })
    &&& private_reason matches Some(reason) ==> turn.before@[shown] matches Action::DirectMessage {
        user_id,
        message,
    } && user_id == event.user_id && crate::message::secret_text(
        message,
        private_reason_text(reason@),
    )
    &&& turn.before@[shown + told] == (Action::Unlock { scope })
}

/// The departure is published.
pub open spec fn leaves(
    scope: LobbyScope,
    user_id: i64,
    name: Seq<char>,
    post: ReactionAt,
    turn: Turn<Observed>,
) -> bool {
    &&& post is Over
    &&& turn.before@.len() == 2
    &&& turn.before@[0] matches Action::PublishLeave { scope: s, player_id, display_name, raw_reaction }
        && s == scope && player_id == user_id && raw_reaction && display_name@ == name
    &&& turn.before@[1] == (Action::Unlock { scope })
    &&& turn.next == Next::<Observed>::End(Ok(()))
}

/// The user was let out, or had not been in: a departure is published under the user's name.
pub open spec fn actor_left(
    scope: LobbyScope,
    user_id: i64,
    name: Option<String>,
    left: Result<bool, WorkFailure>,
    post: ReactionAt,
    turn: Turn<Observed>,
) -> bool {
    match left {
        Err(error) => post is Over && fails_free(turn, scope, error.report@),
        Ok(false) => {
            &&& post is Over
            &&& turn.before@.len() == 1
            &&& turn.before@[0] == (Action::Unlock { scope })
            &&& turn.next == Next::<Observed>::End(Ok(()))
        },
        Ok(true) => match name {
            Some(name) => leaves(scope, user_id, name@, post, turn),
            None => {
                &&& post == (ReactionAt::NamingLeaver { scope, user_id })
                &&& turn.only_asks(
                    Action::NamePlayer { player_id: user_id, guild_id: scope.guild_id },
                )
            },
        },
    }
}

/// One step of the handling of a reaction.
pub open spec fn reaction_step(
    pre: ReactionFlow,
    event: Event,
    post: ReactionFlow,
    turn: Turn<Observed>,
    wording: Wording,
) -> bool {
    &&& post.event == pre.event
    &&& match (pre.at, event) {
        (ReactionAt::FindingCheck, Event::CheckMessages { open, low_skill }) => check_found(
            pre.event,
            open,
            low_skill,
            post.at,
            turn,
        ),
        (ReactionAt::Confirming { scope, message_id }, Event::Flag(changed)) => if changed {
            &&& post.at == (ReactionAt::Repainting { scope, message_id })
            &&& turn.only_asks(Action::ReadCheck { scope })
        } else {
            is_over(post.at, turn)
        },
        (ReactionAt::Repainting { scope, message_id }, Event::Check(check)) => check_read(
            pre.event,
            scope,
            message_id,
            check,
            post.at,
            turn,
        ),
        (ReactionAt::FindingLobby, Event::Lobbies(lobbies)) => match crate::lobby::lobby_message_scope(
            lobbies@,
            pre.event.guild_id,
            pre.event.message_id,
        ) {
            None => is_over(post.at, turn),
            Some(scope) => lobby_reacted(pre.event, scope, post.at, turn, wording),
        },
        (ReactionAt::Ringing { scope, user_id, channel_id }, Event::Lobby(lobby)) => {
            &&& post.at is Running
            &&& turn.only_asks(
                Action::RunReadycheck {
                    scope,
                    invoker_id: user_id,
                    channel_id: ringing_channel(lobby, channel_id),
                    confirm_invoker: false,
                    mirror_invocation: true,
                },
            )
        },
        (ReactionAt::Running, Event::CheckRan(result)) => match result {
            Ok(_) => is_over(post.at, turn),
            Err(_) => {
                &&& post.at is Over
                &&& turn.before@.len() == 1
                &&& unreacts(turn.before@[0], pre.event, BELL_EMOJI@)
                &&& turn.next == Next::<Observed>::End(Ok(()))
            },
        },
        (ReactionAt::Spectating { scope, user_id }, Event::Lobby(lobby)) => spectated(
            pre.event,
            scope,
            user_id,
            lobby,
            post.at,
            turn,
            wording,
        ),
        (ReactionAt::SeekingObserver { scope, user_id }, Event::Flag(found)) => if found {
            &&& post.at == (ReactionAt::NamingSpectator { scope, user_id })
            &&& turn.only_asks(name_question(pre.event))
        } else {
            is_over(post.at, turn)
        },
        (ReactionAt::SeekingObserver { scope, user_id }, Event::Done(Err(_))) => is_over(
            post.at,
            turn,
        ),
        (ReactionAt::NamingSpectator { scope, user_id }, Event::Name(name)) => spectator_named(
            pre.event,
            scope,
            user_id,
            name,
            post.at,
            turn,
        ),
        (ReactionAt::Naming { scope, user_id }, Event::Name(name)) => actor_named(
            pre.event,
            scope,
            user_id,
            name,
            post.at,
            turn,
        ),
        (ReactionAt::Loading { scope, user_id, name }, Event::PlayerLoaded(loaded)) => actor_loaded(
            pre.event,
            scope,
            user_id,
            name,
            loaded,
            post.at,
            turn,
        ),
        (
            ReactionAt::Joining { scope, user_id, name, player_name },
            Event::Presented(presented),
        ) => actor_joined(
            pre.event,
            scope,
            user_id,
            name,
            player_name,
            presented,
            post.at,
            turn,
            wording,
        ),
        (
            ReactionAt::Rejecting { scope, seconds, private_reason },
            Event::Posted(posted),
        ) => rejection_posted(pre.event, scope, seconds, private_reason, posted, post.at, turn),
        (ReactionAt::Leaving { scope, user_id, name }, Event::Outcome(left)) => actor_left(
            scope,
            user_id,
            name,
            left,
            post.at,
            turn,
        ),
        (ReactionAt::NamingLeaver { scope, user_id }, Event::Text(name)) => leaves(
            scope,
            user_id,
            name@,
            post.at,
            turn,
        ),
        _ => post.at == pre.at && turn.waits(),
    }
}

fn over() -> (r: (ReactionAt, Turn<Observed>))
    ensures
        is_over(r.0, r.1),
{
    (ReactionAt::Over, Turn::end(Ok(())))
}

fn fail(text: &str) -> (r: (ReactionAt, Turn<Observed>))
    ensures
        r.0 is Over,
        fails(r.1, text@),
{
    (ReactionAt::Over, Turn::end(Err(text.to_owned())))
}

fn fail_free(scope: LobbyScope, text: String) -> (r: (ReactionAt, Turn<Observed>))
    ensures
        r.0 is Over,
        fails_free(r.1, scope, text@),
{
    (ReactionAt::Over, Turn::end_after(vec![Action::Unlock { scope }], Err(text)))
}

fn on_check_found(event: &RawReactionEvent, open: Option<i64>, low_skill: Option<i64>) -> (r: (
    ReactionAt,
    Turn<Observed>,
))
    ensures
        check_found(*event, open, low_skill, r.0, r.1),
{
    let scope = match scope_for_readycheck_message(
        open,
        low_skill,
        event.guild_id,
        event.message_id,
    ) {
        Some(scope) => scope,
        None => {
            return over();
        },
    };
    match (to_stored(event.user_id), to_stored(event.message_id)) {
        (Some(player_id), Some(message_id)) => {
            let action = match event.kind {
                RawReactionKind::Add => Action::Confirm {
                    scope,
                    player_id,
                    mark: tag_i64(player_id),
                    message_id,
                },
                RawReactionKind::Remove => Action::Withdraw { scope, player_id, message_id },
            };
            (ReactionAt::Confirming { scope, message_id }, Turn::ask(action))
        },
        _ => fail("raw reaction user id overflow"),
    }
}

fn on_check_read(
    event: &RawReactionEvent,
    scope: LobbyScope,
    message_id: i64,
    check: Option<ReadycheckGeneration>,
) -> (r: (ReactionAt, Turn<Observed>))
    ensures
        check_read(*event, scope, message_id, check, r.0, r.1),
{
    match check {
        None => over(),
        Some(generation) => {
            let board = ReadycheckBoard {
                kind: scope.kind,
                players: generation.player_data,
                reacted: generation.reacted,
            };
            let before = vec![
                Action::PaintCheck {
                    channel_id: event.channel_id,
                    message_id: event.message_id,
                    board,
                },
                Action::NotifyCompletion { scope, message_id },
            ];
            (ReactionAt::Over, Turn::end_after(before, Ok(())))
        },
    }
}

fn unreact(event: &RawReactionEvent, emoji: DiscordEmoji) -> (r: Action)
    ensures
        r == (Action::Unreact {
            channel_id: event.channel_id,
            message_id: event.message_id,
            emoji,
            user_id: event.user_id,
        }),
{
    Action::Unreact {
        channel_id: event.channel_id,
        message_id: event.message_id,
        emoji,
        user_id: event.user_id,
    }
}

fn ask_name(event: &RawReactionEvent) -> (r: Action)
    ensures
        r == name_question(*event),
{
    let known = match &event.actor_display_name {
        Some(name) => Some(name.clone()),
        None => None,
    };
    Action::ResolveName { guild_id: event.guild_id, user_id: event.user_id, known }
}

fn is_emoji(emoji: &DiscordEmoji, id: u64) -> (r: bool)
    ensures
        r == (emoji.id == Some(id)),
{
    match emoji.id {
        Some(own) => own == id,
        None => false,
    }
}

fn on_lobby_reacted(event: &RawReactionEvent, scope: LobbyScope, wording: &Wording) -> (r: (
    ReactionAt,
    Turn<Observed>,
))
    ensures
        lobby_reacted(*event, scope, r.0, r.1, *wording),
{
    let added = event.kind == RawReactionKind::Add;
    let name = event.emoji.name.as_str();
    if is_emoji(&event.emoji, LEGACY_FROGLING_EMOJI_ID) {
        if !added {
            return over();
        }
        let emoji = DiscordEmoji { name: event.emoji.name.clone(), id: event.emoji.id };
        return (ReactionAt::Over, Turn::end_after(vec![unreact(event, emoji)], Ok(())));
    }
    if same_text(name, BELL_EMOJI) && added {
        return match (to_stored(event.user_id), to_stored(event.channel_id)) {
            (Some(user_id), Some(channel_id)) => (
                ReactionAt::Ringing { scope, user_id, channel_id },
                Turn::ask(Action::ReadLobby { scope }),
            ),
            (None, _) => fail("raw reaction user id overflow"),
            _ => fail("raw reaction channel id overflow"),
        };
    }
    if (is_emoji(&event.emoji, wording.jopacoin_emoji_id) || same_text(name, "jopacoin"))
        && added {
        return match to_stored(event.user_id) {
            Some(user_id) => (
                ReactionAt::Spectating { scope, user_id },
                Turn::ask(Action::ReadLobby { scope }),
            ),
            None => fail("raw reaction user id overflow"),
        };
    }
    if !same_text(name, SWORD_EMOJI) {
        return over();
    }
    match to_stored(event.user_id) {
        Some(user_id) => (ReactionAt::Naming { scope, user_id }, Turn::ask(ask_name(event))),
        None => fail("raw reaction user id overflow"),
    }
}

fn on_ringing(lobby: Option<LobbySnapshot>, channel_id: i64) -> (r: i64)
    ensures
        r == ringing_channel(lobby, channel_id),
{
    match lobby {
        Some(lobby) => match lobby.message_ids.origin_channel_id {
            Some(origin) => origin,
            None => channel_id,
        },
        None => channel_id,
    }
}

fn on_spectated(
    event: &RawReactionEvent,
    scope: LobbyScope,
    user_id: i64,
    lobby: Option<LobbySnapshot>,
    wording: &Wording,
) -> (r: (ReactionAt, Turn<Observed>))
    ensures
        spectated(*event, scope, user_id, lobby, r.0, r.1, *wording),
{
    let lobby = match lobby {
        Some(lobby) => lobby,
        None => {
            return over();
        },
    };
    if lobby.players.contains(&user_id) {
        return over();
    }
    match lobby.message_ids.thread_id {
        Some(thread_id) => match to_u64(thread_id) {
            Err(error) => (ReactionAt::Over, Turn::end(Err(error))),
            Ok(channel_id) => {
                let tag = tag_i64(user_id);
                let mut text = text3(wording.jopacoin_emote.as_str(), " ", tag.as_str());
                text.append(" is here for the gamba!");
                let message = DiscordMessage::mentioning(text, event.user_id);
                (
                    ReactionAt::SeekingObserver { scope, user_id },
                    Turn::ask_after(
                        vec![Action::Send { channel_id, message }],
                        Action::FindObserver,
                    ),
                )
            },
        },
        None => (
            ReactionAt::SeekingObserver { scope, user_id },
            Turn::ask(Action::FindObserver),
        ),
    }
}

fn on_spectator_named(
    event: &RawReactionEvent,
    scope: LobbyScope,
    user_id: i64,
    name: Option<String>,
) -> (r: (ReactionAt, Turn<Observed>))
    ensures
        spectator_named(*event, scope, user_id, name, r.0, r.1),
{
    let player_display_name = match name {
        Some(name) => name,
        None => "Lobby spectator".to_owned(),
    };
    match (to_unsigned(scope.guild_id), to_unsigned(user_id)) {
        (Some(guild_id), Some(player_id)) => {
            let spectator = LobbyGambaSpectator {
                guild_id,
                player_id,
                player_display_name,
                channel_id: event.channel_id,
            };
            (
                ReactionAt::Over,
                Turn::end_after(vec![Action::TellSpectator { spectator }], Ok(())),
            )
        },
        _ => over(),
    }
}

fn on_actor_named(
    event: &RawReactionEvent,
    scope: LobbyScope,
    user_id: i64,
    name: Option<String>,
) -> (r: (ReactionAt, Turn<Observed>))
    ensures
        actor_named(*event, scope, user_id, name, r.0, r.1),
{
    let before = vec![Action::Lock { scope }];
    match event.kind {
        RawReactionKind::Add => (
            ReactionAt::Loading { scope, user_id, name },
            Turn::ask_after(
                before,
                Action::LoadPlayer { player_id: user_id, guild_id: scope.guild_id },
            ),
        ),
        RawReactionKind::Remove => (
            ReactionAt::Leaving { scope, user_id, name },
            Turn::ask_after(before, Action::Leave { player_id: user_id, scope }),
        ),
    }
}

fn reject(
    event: &RawReactionEvent,
    scope: LobbyScope,
    reason: &str,
    seconds: u64,
    private_reason: Option<String>,
) -> (r: (ReactionAt, Turn<Observed>))
    ensures
        rejects(*event, scope, reason@, seconds, private_reason, r.0, r.1),
{
    let text = text3(tag_u64(event.user_id).as_str(), " ❌ ", reason);
    let message = DiscordMessage::mentioning(text, event.user_id);
    (
        ReactionAt::Rejecting { scope, seconds, private_reason },
        Turn::ask_after(
            vec![unreact(event, DiscordEmoji::unicode(SWORD_EMOJI))],
            Action::Send { channel_id: event.channel_id, message },
        ),
    )
}

fn on_actor_loaded(
    event: &RawReactionEvent,
    scope: LobbyScope,
    user_id: i64,
    name: Option<String>,
    loaded: Result<Option<Player>, String>,
) -> (r: (ReactionAt, Turn<Observed>))
    ensures
        actor_loaded(*event, scope, user_id, name, loaded, r.0, r.1),
{
    match loaded {
        Err(error) => fail_free(scope, error),
        Ok(None) => reject(event, scope, REGISTER_FIRST, REJECTION_SECONDS, None),
        Ok(Some(player)) => {
            if !player.has_roles() {
                return reject(event, scope, ROLES_FIRST, REJECTION_SECONDS, None);
            }
            (
                ReactionAt::Joining { scope, user_id, name, player_name: player.name },
                Turn::ask(Action::JoinRegistered { scope, player_id: user_id, has_roles: true }),
            )
        },
    }
}

fn on_actor_joined(
    event: &RawReactionEvent,
    scope: LobbyScope,
    user_id: i64,
    name: Option<String>,
    player_name: String,
    presented: Result<JoinPresentation, String>,
    wording: &Wording,
) -> (r: (ReactionAt, Turn<Observed>))
    ensures
        actor_joined(*event, scope, user_id, name, player_name, presented, r.0, r.1, *wording),
{
    let join = match presented {
        Err(error) => {
            return fail_free(scope, error);
        },
        Ok(join) => join,
    };
    if let Some(joined_at_ns) = join.joined_at_ns {
        let display_name = match name {
            Some(name) => name,
            None => player_name.clone(),
        };
        let joiner = Joiner { player_id: user_id, name: player_name, display_name, joined_at_ns };
        let before = vec![
            Action::PublishJoin { scope, joiner, raw_reaction: true },
            Action::Unlock { scope },
        ];
        return (ReactionAt::Over, Turn::end_after(before, Ok(())));
    }
    match join.rejection {
        Some(JoinRejection::Suspended(suspension)) => reject(
            event,
            scope,
            RESTRICTED,
            LONG_REJECTION_SECONDS,
            Some(suspension.reason),
        ),
        Some(rejection) => {
            let seconds: u64 = match &rejection {
                JoinRejection::PendingMatch(_) => LONG_REJECTION_SECONDS,
                _ => REJECTION_SECONDS,
            };
            let reason = raw_rejection_message(&rejection, wording);
            reject(event, scope, reason.as_str(), seconds, None)
        },
        None => reject(event, scope, "Could not join lobby.", REJECTION_SECONDS, None),
    }
}

fn on_rejection_posted(
    event: &RawReactionEvent,
    scope: LobbyScope,
    seconds: u64,
    private_reason: Option<String>,
    posted: Result<DiscordMessageReceipt, String>,
) -> (r: (ReactionAt, Turn<Observed>))
    ensures
        rejection_posted(*event, scope, seconds, private_reason, posted, r.0, r.1),
{
    let mut before: Vec<Action> = Vec::new();
    if let Ok(receipt) = posted {
        before.push(
            Action::DeleteLater {
                channel_id: receipt.channel_id,
                message_id: receipt.message_id,
                seconds,
            },
        );
    }
    if let Some(reason) = private_reason {
        let text = text3(
            "You are temporarily suspended from this matchmaking lobby.\nReason: ",
            reason.as_str(),
            "\nUse `/player lobby status` in the server for the exact remaining term.",
        );
        before.push(
            Action::DirectMessage { user_id: event.user_id, message: DiscordMessage::secret(text) },
        );
    }
    before.push(Action::Unlock { scope });
    (ReactionAt::Over, Turn::end_after(before, Ok(())))
}

fn leave(scope: LobbyScope, user_id: i64, display_name: String) -> (r: (ReactionAt, Turn<Observed>))
    ensures
        leaves(scope, user_id, display_name@, r.0, r.1),
{
    let before = vec![
        Action::PublishLeave { scope, player_id: user_id, display_name, raw_reaction: true },
        Action::Unlock { scope },
    ];
    (ReactionAt::Over, Turn::end_after(before, Ok(())))
}

fn on_actor_left(
    scope: LobbyScope,
    user_id: i64,
    name: Option<String>,
    left: Result<bool, WorkFailure>,
) -> (r: (ReactionAt, Turn<Observed>))
    ensures
        actor_left(scope, user_id, name, left, r.0, r.1),
{
    match left {
        Err(error) => fail_free(scope, error.report),
        Ok(true) => match name {
            Some(name) => leave(scope, user_id, name),
            None => (
                ReactionAt::NamingLeaver { scope, user_id },
                Turn::ask(Action::NamePlayer { player_id: user_id, guild_id: scope.guild_id }),
            ),
        },
        Ok(false) => (
            ReactionAt::Over,
            Turn::end_after(vec![Action::Unlock { scope }], Ok(())),
        ),
    }
}

impl ReactionFlow {
    /// Begins to handle a reaction.
    pub fn start(event: RawReactionEvent) -> (r: (ReactionFlow, Turn<Observed>))
        ensures
            r.0.event == event,
            reaction_starts(event, r.0.at, r.1),
            r.1.goes_on(|action: Action| r.0.awaits(action)),
    {
        let (at, turn) = if same_text(event.emoji.name.as_str(), READY_EMOJI) {
            let guild_id = match event.guild_id {
                Some(guild_id) => to_stored(guild_id),
                None => None,
            };
            match guild_id {
                Some(guild_id) => (
                    ReactionAt::FindingCheck,
                    Turn::ask(Action::ReadCheckMessages { guild_id }),
                ),
                None => over(),
            }
        } else {
            (ReactionAt::FindingLobby, Turn::ask(Action::ListLobbies))
        };
        (ReactionFlow { event, at }, turn)
    }

    /// Goes on with what came of the last question.
    pub fn resume(self, event: Event, wording: &Wording) -> (r: (ReactionFlow, Turn<Observed>))
        ensures
            reaction_step(self, event, r.0, r.1, *wording),
    {
        let ReactionFlow { event: reaction, at } = self;
        let (at, turn) = match (at, event) {
            (ReactionAt::FindingCheck, Event::CheckMessages { open, low_skill }) => on_check_found(
                &reaction,
                open,
                low_skill,
            ),
            (ReactionAt::Confirming { scope, message_id }, Event::Flag(changed)) => if changed {
                (
                    ReactionAt::Repainting { scope, message_id },
                    Turn::ask(Action::ReadCheck { scope }),
                )
            } else {
                over()
            },
            (ReactionAt::Repainting { scope, message_id }, Event::Check(check)) => on_check_read(
                &reaction,
                scope,
                message_id,
                check,
            ),
            (ReactionAt::FindingLobby, Event::Lobbies(lobbies)) => match scope_for_lobby_message(
                &lobbies,
                reaction.guild_id,
                reaction.message_id,
            ) {
                Some(scope) => on_lobby_reacted(&reaction, scope, wording),
                None => over(),
            },
            (ReactionAt::Ringing { scope, user_id, channel_id }, Event::Lobby(lobby)) => (
                ReactionAt::Running,
                Turn::ask(
                    Action::RunReadycheck {
                        scope,
                        invoker_id: user_id,
                        channel_id: on_ringing(lobby, channel_id),
                        confirm_invoker: false,
                        mirror_invocation: true,
                    },
                ),
            ),
            (ReactionAt::Running, Event::CheckRan(result)) => match result {
                Ok(_) => over(),
                Err(_) => (
                    ReactionAt::Over,
                    Turn::end_after(
                        vec![unreact(&reaction, DiscordEmoji::unicode(BELL_EMOJI))],
                        Ok(()),
                    ),
                ),
            },
            (ReactionAt::Spectating { scope, user_id }, Event::Lobby(lobby)) => on_spectated(
                &reaction,
                scope,
                user_id,
                lobby,
                wording,
            ),
            (ReactionAt::SeekingObserver { scope, user_id }, Event::Flag(found)) => if found {
                (
                    ReactionAt::NamingSpectator { scope, user_id },
                    Turn::ask(ask_name(&reaction)),
                )
            } else {
                over()
            },
            (ReactionAt::SeekingObserver { scope, user_id }, Event::Done(Err(_))) => over(),
            (
                ReactionAt::NamingSpectator { scope, user_id },
                Event::Name(name),
            ) => on_spectator_named(&reaction, scope, user_id, name),
            (ReactionAt::Naming { scope, user_id }, Event::Name(name)) => on_actor_named(
                &reaction,
                scope,
                user_id,
                name,
            ),
            (
                ReactionAt::Loading { scope, user_id, name },
                Event::PlayerLoaded(loaded),
            ) => on_actor_loaded(&reaction, scope, user_id, name, loaded),
            (
                ReactionAt::Joining { scope, user_id, name, player_name },
                Event::Presented(presented),
            ) => on_actor_joined(
                &reaction,
                scope,
                user_id,
                name,
                player_name,
                presented,
                wording,
            ),
            (
                ReactionAt::Rejecting { scope, seconds, private_reason },
                Event::Posted(posted),
            ) => on_rejection_posted(&reaction, scope, seconds, private_reason, posted),
            (ReactionAt::Leaving { scope, user_id, name }, Event::Outcome(left)) => on_actor_left(
                scope,
                user_id,
                name,
                left,
            ),
            (ReactionAt::NamingLeaver { scope, user_id }, Event::Text(name)) => leave(
                scope,
                user_id,
                name,
            ),
            (at, _) => (at, Turn::wait()),
        };
        (ReactionFlow { event: reaction, at }, turn)
    }
}

/// The scope that the handling of a reaction holds.
pub open spec fn reaction_holds(at: ReactionAt) -> Option<LobbyScope> {
    match at {
        ReactionAt::Loading { scope, .. } => Some(scope),
        ReactionAt::Joining { scope, .. } => Some(scope),
        ReactionAt::Rejecting { scope, .. } => Some(scope),
        ReactionAt::Leaving { scope, .. } => Some(scope),
        ReactionAt::NamingLeaver { scope, .. } => Some(scope),
        _ => None,
    }
}

/// A reaction changes a lobby only while it holds its scope, and gives the scope free however
/// it ends.
pub proof fn reactions_keep_order(
    pre: ReactionFlow,
    event: Event,
    post: ReactionFlow,
    turn: Turn<Observed>,
    wording: Wording,
)
    requires
        reaction_step(pre, event, post, turn, wording),
    ensures
        crate::locking::keeps_order(reaction_holds(pre.at), turn, reaction_holds(post.at)),
{
    reveal_with_fuel(crate::locking::orderly, 5);
    reveal_with_fuel(crate::locking::held_at_end, 5);
}

/// The message goes to a channel, where others read it.
pub open spec fn public_text(action: Action) -> Option<Seq<char>> {
    match action {
        Action::Send { channel_id, message } => Some(message.response.content@),
        _ => None,
    }
}

/// What is said in public to a suspended user does not depend on the reason of the suspension:
/// whatever the reason, the same refusal is posted, and nothing else.
pub proof fn suspension_reason_stays_private(
    pre: ReactionFlow,
    one: JoinPresentation,
    other: JoinPresentation,
    one_post: ReactionFlow,
    one_turn: Turn<Observed>,
    other_post: ReactionFlow,
    other_turn: Turn<Observed>,
    wording: Wording,
)
    requires
        pre.at is Joining,
        one.joined_at_ns is None,
        other.joined_at_ns is None,
        one.rejection matches Some(JoinRejection::Suspended(_)),
        other.rejection matches Some(JoinRejection::Suspended(_)),
        reaction_step(pre, Event::Presented(Ok(one)), one_post, one_turn, wording),
        reaction_step(pre, Event::Presented(Ok(other)), other_post, other_turn, wording),
    ensures
        (one_turn.next matches Next::Ask(one_action) && (other_turn.next matches Next::Ask(
            other_action,
        ) && public_text(one_action) is Some && public_text(one_action) == public_text(
            other_action,
        ))),
        one_turn.before@.len() == 1 && public_text(one_turn.before@[0]) is None,
        other_turn.before@.len() == 1 && public_text(other_turn.before@[0]) is None,
{
}

/// Whatever is posted to a channel in answer to a reaction may notify at most the user who
/// reacted.
pub proof fn reactions_notify_only_their_author(
    pre: ReactionFlow,
    event: Event,
    post: ReactionFlow,
    turn: Turn<Observed>,
    wording: Wording,
    channel: u64,
    message: DiscordMessage,
)
    requires
        reaction_step(pre, event, post, turn, wording),
        turn.next == Next::<Observed>::Ask(Action::Send { channel_id: channel, message }) || exists|
            i: int,
        |
            0 <= i < turn.before@.len() && #[trigger] turn.before@[i] == (Action::Send {
                channel_id: channel,
                message,
            }),
    ensures
        message.allowed_mentions matches crate::message::DiscordAllowedMentions::Users(users)
            && users@ == set![pre.event.user_id],
{
}

/// A reaction never puts a user into a lobby past the checks of a seat, its curfew among them.
pub proof fn reactions_join_through_the_seat(
    pre: ReactionFlow,
    event: Event,
    post: ReactionFlow,
    turn: Turn<Observed>,
    wording: Wording,
    i: int,
)
    requires
        reaction_step(pre, event, post, turn, wording),
    ensures
        0 <= i < turn.before@.len() ==> !(turn.before@[i] is Join),
        turn.next matches Next::Ask(action) ==> !(action is Join),
{
}

/// A reaction is never told to the observer as an explicit join.
pub proof fn reactions_are_no_explicit_joins(
    pre: ReactionFlow,
    event: Event,
    post: ReactionFlow,
    turn: Turn<Observed>,
    wording: Wording,
    i: int,
)
    requires
        reaction_step(pre, event, post, turn, wording),
    ensures
        0 <= i < turn.before@.len() ==> !(turn.before@[i] is TellExplicitJoin),
        turn.next matches Next::Ask(action) ==> !(action is TellExplicitJoin),
{
}

impl ReactionFlow {
    /// What is waited for: the answer to this question.
    pub open spec fn awaits(self, action: Action) -> bool {
        match self.at {
            ReactionAt::FindingCheck => action is ReadCheckMessages,
            ReactionAt::Confirming { .. } => action is Confirm || action is Withdraw,
            ReactionAt::Repainting { .. } => action is ReadCheck,
            ReactionAt::FindingLobby => action is ListLobbies,
            ReactionAt::Ringing { .. } => action is ReadLobby,
            ReactionAt::Running => action is RunReadycheck,
            ReactionAt::Spectating { .. } => action is ReadLobby,
            ReactionAt::SeekingObserver { .. } => action is FindObserver,
            ReactionAt::NamingSpectator { .. } => action is ResolveName,
            ReactionAt::Naming { .. } => action is ResolveName,
            ReactionAt::Loading { .. } => action is LoadPlayer,
            ReactionAt::Joining { .. } => action is JoinRegistered,
            ReactionAt::Rejecting { .. } => action is Send,
            ReactionAt::Leaving { .. } => action is Leave,
            ReactionAt::NamingLeaver { .. } => action is NamePlayer,
            ReactionAt::Over => false,
        }
    }
}

/// A reaction is never left waiting by the answer to what it asked for: it goes on to its end or to
/// its next question, and waits for the answer to that.
pub proof fn reactions_go_on_when_answered(
    pre: ReactionFlow,
    asked: Action,
    event: Event,
    post: ReactionFlow,
    turn: Turn<Observed>,
    wording: Wording,
)
    requires
        reaction_step(pre, event, post, turn, wording),
        pre.awaits(asked),
        asked.answered_by(event),
    ensures
        turn.goes_on(|action: Action| post.awaits(action)),
{
}

/// A run of the handling of a reaction: it starts, and every turn follows from what came of the
/// one before.
pub open spec fn reaction_run(
    reaction: RawReactionEvent,
    first: Turn<Observed>,
    states: Seq<ReactionFlow>,
    events: Seq<Event>,
    turns: Seq<Turn<Observed>>,
    wording: Wording,
) -> bool {
    &&& states.len() == events.len() + 1
    &&& turns.len() == events.len()
    &&& states[0].event == reaction
    &&& reaction_starts(reaction, states[0].at, first)
    &&& forall|n: int|
        0 <= n < events.len() ==> reaction_step(
            states[n],
            #[trigger] events[n],
            states[n + 1],
            turns[n],
            wording,
        )
}

/// These were read as the ready checks of the guild before turn `n`.
pub open spec fn saw_checks(
    events: Seq<Event>,
    n: int,
    open: Option<i64>,
    low_skill: Option<i64>,
) -> bool {
    crate::protocol::happened(events, n, Event::CheckMessages { open, low_skill })
}

/// These were listed as the open lobbies before turn `n`.
pub open spec fn saw_lobbies(events: Seq<Event>, n: int, lobbies: Vec<LobbySnapshot>) -> bool {
    crate::protocol::happened(events, n, Event::Lobbies(lobbies))
}

/// This was found as the name that the user shows before turn `n`.
pub open spec fn saw_name(events: Seq<Event>, n: int, name: Option<String>) -> bool {
    crate::protocol::happened(events, n, Event::Name(name))
}

/// The user was found to be this registered player before turn `n`.
pub open spec fn saw_player(events: Seq<Event>, n: int, player: Player) -> bool {
    crate::protocol::happened(
        events,
        n,
        Event::PlayerLoaded(Ok::<Option<Player>, String>(Some(player))),
    )
}

/// The user was found registered under this name, with at least one role, before turn `n`.
pub open spec fn saw_roles(events: Seq<Event>, n: int, name: String) -> bool {
    exists|player: Player| #[trigger]
        saw_player(events, n, player) && player.name == name && (
        player.preferred_roles matches Some(roles) && roles@.len() > 0)
}

/// The reaction was made on the ready check of this lobby, as the checks were read before turn `n`.
pub open spec fn on_check(
    reaction: RawReactionEvent,
    events: Seq<Event>,
    n: int,
    scope: LobbyScope,
) -> bool {
    exists|open: Option<i64>, low_skill: Option<i64>| #[trigger]
        saw_checks(events, n, open, low_skill) && crate::lobby::checks(
            open,
            low_skill,
            reaction.guild_id,
            reaction.message_id,
            scope,
        )
}

/// The reaction was made on the message of this lobby, as the lobbies were listed before turn `n`.
pub open spec fn on_lobby(
    reaction: RawReactionEvent,
    events: Seq<Event>,
    n: int,
    scope: LobbyScope,
) -> bool {
    exists|lobbies: Vec<LobbySnapshot>| #[trigger]
        saw_lobbies(events, n, lobbies) && crate::lobby::shows(
            lobbies@,
            reaction.guild_id,
            reaction.message_id,
            scope,
        )
}

/// The crossed swords, put on or taken off.
pub open spec fn is_sword(reaction: RawReactionEvent, kind: RawReactionKind) -> bool {
    reaction.emoji.name@ == "⚔️"@ && reaction.kind == kind
}

/// The bell, put on.
pub open spec fn is_bell(reaction: RawReactionEvent) -> bool {
    reaction.emoji.name@ == "🔔"@ && reaction.kind == RawReactionKind::Add
}

spec fn about(
    reaction: RawReactionEvent,
    events: Seq<Event>,
    n: int,
    scope: LobbyScope,
    user_id: i64,
) -> bool {
    user_id == reaction.user_id && on_lobby(reaction, events, n, scope)
}

spec fn keeps_facts(
    reaction: RawReactionEvent,
    at: ReactionAt,
    events: Seq<Event>,
    n: int,
    wording: Wording,
) -> bool {
    let coin = is_coin(reaction.emoji, wording) && reaction.kind == RawReactionKind::Add;
    match at {
        ReactionAt::FindingCheck => reaction.emoji.name@ == "✅"@,
        ReactionAt::Confirming { scope, message_id } => reaction.emoji.name@ == "✅"@ && message_id
            == reaction.message_id && on_check(reaction, events, n, scope),
        ReactionAt::Repainting { scope, message_id } => reaction.emoji.name@ == "✅"@ && message_id
            == reaction.message_id && on_check(reaction, events, n, scope),
        ReactionAt::FindingLobby => true,
        ReactionAt::Ringing { scope, user_id, channel_id } => is_bell(reaction) && channel_id
            == reaction.channel_id && about(reaction, events, n, scope, user_id),
        ReactionAt::Running => is_bell(reaction),
        ReactionAt::Spectating { scope, user_id } => coin && about(
            reaction,
            events,
            n,
            scope,
            user_id,
        ),
        ReactionAt::SeekingObserver { scope, user_id } => coin && about(
            reaction,
            events,
            n,
            scope,
            user_id,
        ),
        ReactionAt::NamingSpectator { scope, user_id } => coin && about(
            reaction,
            events,
            n,
            scope,
            user_id,
        ),
        ReactionAt::Naming { scope, user_id } => reaction.emoji.name@ == "⚔️"@ && about(
            reaction,
            events,
            n,
            scope,
            user_id,
        ),
        ReactionAt::Loading { scope, user_id, name } => is_sword(reaction, RawReactionKind::Add)
            && about(reaction, events, n, scope, user_id) && saw_name(events, n, name),
        ReactionAt::Joining { scope, user_id, name, player_name } => is_sword(
            reaction,
            RawReactionKind::Add,
        ) && about(reaction, events, n, scope, user_id) && saw_name(events, n, name) && saw_roles(
            events,
            n,
            player_name,
        ),
        ReactionAt::Rejecting { scope, .. } => is_sword(reaction, RawReactionKind::Add) && on_lobby(
            reaction,
            events,
            n,
            scope,
        ),
        ReactionAt::Leaving { scope, user_id, name } => is_sword(reaction, RawReactionKind::Remove)
            && about(reaction, events, n, scope, user_id) && saw_name(events, n, name),
        ReactionAt::NamingLeaver { scope, user_id } => is_sword(reaction, RawReactionKind::Remove)
            && about(reaction, events, n, scope, user_id) && saw_name(events, n, None),
        ReactionAt::Over => true,
    }
}

proof fn what_was_seen_stays(reaction: RawReactionEvent, events: Seq<Event>, n: int)
    requires
        0 < n <= events.len(),
    ensures
        forall|scope: LobbyScope| #[trigger]
            on_check(reaction, events, n - 1, scope) ==> on_check(reaction, events, n, scope),
        forall|scope: LobbyScope| #[trigger]
            on_lobby(reaction, events, n - 1, scope) ==> on_lobby(reaction, events, n, scope),
        forall|name: Option<String>| #[trigger]
            saw_name(events, n - 1, name) ==> saw_name(events, n, name),
        forall|name: String| #[trigger] saw_roles(events, n - 1, name) ==> saw_roles(events, n, name),
{
    crate::protocol::what_happened_stays(events, n);
    assert forall|scope: LobbyScope| #[trigger] on_check(reaction, events, n - 1, scope) implies on_check(
        reaction,
        events,
        n,
        scope,
    ) by {
        let (open, low_skill) = choose|open: Option<i64>, low_skill: Option<i64>| #[trigger]
            saw_checks(events, n - 1, open, low_skill) && crate::lobby::checks(
                open,
                low_skill,
                reaction.guild_id,
                reaction.message_id,
                scope,
            );
        assert(saw_checks(events, n, open, low_skill));
    }
    assert forall|scope: LobbyScope| #[trigger] on_lobby(reaction, events, n - 1, scope) implies on_lobby(
        reaction,
        events,
        n,
        scope,
    ) by {
        let lobbies = choose|lobbies: Vec<LobbySnapshot>| #[trigger]
            saw_lobbies(events, n - 1, lobbies) && crate::lobby::shows(
                lobbies@,
                reaction.guild_id,
                reaction.message_id,
                scope,
            );
        assert(saw_lobbies(events, n, lobbies));
    }
    assert forall|name: String| #[trigger] saw_roles(events, n - 1, name) implies saw_roles(
        events,
        n,
        name,
    ) by {
        let player = choose|player: Player| #[trigger]
            saw_player(events, n - 1, player) && player.name == name && (
            player.preferred_roles matches Some(roles) && roles@.len() > 0);
        assert(saw_player(events, n, player));
    }
}

proof fn runs_keep_their_facts(
    reaction: RawReactionEvent,
    first: Turn<Observed>,
    states: Seq<ReactionFlow>,
    events: Seq<Event>,
    turns: Seq<Turn<Observed>>,
    wording: Wording,
    n: int,
)
    requires
        reaction_run(reaction, first, states, events, turns, wording),
        0 <= n < states.len(),
    ensures
        states[n].event == reaction,
        keeps_facts(reaction, states[n].at, events, n, wording),
    decreases n,
{
    if n > 0 {
        runs_keep_their_facts(reaction, first, states, events, turns, wording, n - 1);
        let (pre, event, post) = (states[n - 1], events[n - 1], states[n]);
        assert(reaction_step(pre, event, post, turns[n - 1], wording));
        crate::protocol::what_happened_stays(events, n);
        what_was_seen_stays(reaction, events, n);
        match (pre.at, event) {
            (ReactionAt::FindingCheck, Event::CheckMessages { open, low_skill }) => {
                assert(saw_checks(events, n, open, low_skill));
                if let Some(scope) = crate::lobby::readycheck_message_scope(
                    open,
                    low_skill,
                    reaction.guild_id,
                    reaction.message_id,
                ) {
                    crate::lobby::messages_lead_to_the_check_they_show(
                        open,
                        low_skill,
                        reaction.guild_id,
                        reaction.message_id,
                        scope,
                    );
                }
            },
            (ReactionAt::FindingLobby, Event::Lobbies(lobbies)) => {
                assert(saw_lobbies(events, n, lobbies));
                if let Some(scope) = crate::lobby::lobby_message_scope(
                    lobbies@,
                    reaction.guild_id,
                    reaction.message_id,
                ) {
                    crate::lobby::messages_lead_to_the_lobby_they_show(
                        lobbies@,
                        reaction.guild_id,
                        reaction.message_id,
                        scope,
                    );
                    assert(on_lobby(reaction, events, n, scope));
                }
            },
            (ReactionAt::Loading { .. }, Event::PlayerLoaded(Ok(Some(player)))) => {
                assert(saw_player(events, n, player));
            },
            (_, Event::Name(name)) => {
                assert(saw_name(events, n, name));
            },
            _ => {},
        }
    }
}

/// Whatever a reaction leads to concerns the user who reacted and the lobby whose message or ready
/// check they reacted to, in the server they reacted in: no other lobby and nobody else.
pub proof fn reactions_stay_with_their_message(
    reaction: RawReactionEvent,
    first: Turn<Observed>,
    states: Seq<ReactionFlow>,
    events: Seq<Event>,
    turns: Seq<Turn<Observed>>,
    wording: Wording,
    n: int,
    action: Action,
)
    requires
        reaction_run(reaction, first, states, events, turns, wording),
        0 <= n < turns.len(),
        turns[n].does(action),
    ensures
        action.lobby() matches Some(scope) ==> on_check(reaction, events, n + 1, scope) || on_lobby(
            reaction,
            events,
            n + 1,
            scope,
        ),
        action.player() matches Some(player) ==> player == reaction.user_id,
        action.guild() matches Some(guild) ==> guild >= 0 && reaction.guild_id == Some(guild as u64),
{
    runs_keep_their_facts(reaction, first, states, events, turns, wording, n);
    runs_keep_their_facts(reaction, first, states, events, turns, wording, n + 1);
    what_was_seen_stays(reaction, events, n + 1);
    assert(reaction_step(states[n], events[n], states[n + 1], turns[n], wording));
    assert forall|scope: LobbyScope| #[trigger] on_check(reaction, events, n, scope) implies on_check(
        reaction,
        events,
        n + 1,
        scope,
    ) by {
        assert(on_check(reaction, events, n + 1 - 1, scope));
    }
    assert forall|scope: LobbyScope| #[trigger] on_lobby(reaction, events, n, scope) implies on_lobby(
        reaction,
        events,
        n + 1,
        scope,
    ) by {
        assert(on_lobby(reaction, events, n + 1 - 1, scope));
    }
    match states[n].at {
        ReactionAt::Confirming { scope, .. } => assert(on_check(reaction, events, n + 1, scope)),
        ReactionAt::Repainting { scope, .. } => assert(on_check(reaction, events, n + 1, scope)),
        ReactionAt::Rejecting { scope, .. } => assert(on_lobby(reaction, events, n + 1, scope)),
        _ => {},
    }
}

/// A check mark on the message of a ready check confirms the user who put it on, and withdraws the
/// user who took it off, on exactly that message; and nothing else confirms or withdraws anybody.
pub proof fn check_marks_confirm_and_withdraw(
    reaction: RawReactionEvent,
    first: Turn<Observed>,
    states: Seq<ReactionFlow>,
    events: Seq<Event>,
    turns: Seq<Turn<Observed>>,
    wording: Wording,
    n: int,
    scope: LobbyScope,
)
    requires
        reaction_run(reaction, first, states, events, turns, wording),
        0 <= n < turns.len(),
    ensures
        turns[n].next matches Next::Ask(Action::Confirm { player_id, mark, message_id, .. }) ==> {
            &&& reaction.emoji.name@ == "✅"@
            &&& reaction.kind == RawReactionKind::Add
            &&& player_id == reaction.user_id
            &&& mark@ == crate::text::tag(reaction.user_id as int)
            &&& message_id == reaction.message_id
        },
        turns[n].next matches Next::Ask(Action::Withdraw { player_id, message_id, .. }) ==> {
            &&& reaction.emoji.name@ == "✅"@
            &&& reaction.kind == RawReactionKind::Remove
            &&& player_id == reaction.user_id
            &&& message_id == reaction.message_id
        },
        states[n].at is FindingCheck ==> (events[n] matches Event::CheckMessages { open, low_skill }
            ==> (crate::lobby::checks(
            open,
            low_skill,
            reaction.guild_id,
            reaction.message_id,
            scope,
        ) && reaction.user_id <= i64::MAX ==> match reaction.kind {
            RawReactionKind::Add => turns[n].next matches Next::Ask(Action::Confirm {
                scope: noted,
                ..
            }) && noted == scope,
            RawReactionKind::Remove => turns[n].next matches Next::Ask(Action::Withdraw {
                scope: noted,
                ..
            }) && noted == scope,
        })),
        forall|action: Action| #[trigger]
            turns[n].before@.contains(action) ==> !(action is Confirm) && !(action is Withdraw),
{
    runs_keep_their_facts(reaction, first, states, events, turns, wording, n);
    assert(reaction_step(states[n], events[n], states[n + 1], turns[n], wording));
    if let Event::CheckMessages { open, low_skill } = events[n] {
        crate::lobby::messages_lead_to_the_check_they_show(
            open,
            low_skill,
            reaction.guild_id,
            reaction.message_id,
            scope,
        );
    }
}

/// Once a confirmation or a withdrawal was noted, the check is read and the message that was
/// reacted to is repainted with exactly what was read: with every player of it and with everybody
/// who confirmed it, the user who just did among them. Completion is looked at after that.
pub proof fn noted_marks_show_on_the_board(
    reaction: RawReactionEvent,
    first: Turn<Observed>,
    states: Seq<ReactionFlow>,
    events: Seq<Event>,
    turns: Seq<Turn<Observed>>,
    wording: Wording,
    n: int,
    channel_id: u64,
    message_id: u64,
    board: ReadycheckBoard,
)
    requires
        reaction_run(reaction, first, states, events, turns, wording),
        0 <= n < turns.len(),
    ensures
        states[n].at matches ReactionAt::Confirming { scope, .. } ==> (events[n] == Event::Flag(true)
            ==> turns[n].next == Next::<Observed>::Ask(Action::ReadCheck { scope })),
        states[n].at matches ReactionAt::Repainting { scope, .. } ==> (
        events[n] matches Event::Check(Some(generation)) ==> {
            &&& turns[n].does(
                Action::PaintCheck {
                    channel_id: reaction.channel_id,
                    message_id: reaction.message_id,
                    board: ReadycheckBoard {
                        kind: scope.kind,
                        players: generation.player_data,
                        reacted: generation.reacted,
                    },
                },
            )
            &&& turns[n].does(
                Action::NotifyCompletion { scope, message_id: reaction.message_id as i64 },
            )
        }),
        turns[n].does(Action::PaintCheck { channel_id, message_id, board }) ==> {
            &&& channel_id == reaction.channel_id
            &&& message_id == reaction.message_id
            &&& exists|scope: LobbyScope| #[trigger]
                on_check(reaction, events, n, scope) && board.kind == scope.kind
            &&& events[n] matches Event::Check(Some(generation)) && board.players@
                == generation.player_data@ && board.reacted@ == generation.reacted@
        },
{
    runs_keep_their_facts(reaction, first, states, events, turns, wording, n);
    let turn = turns[n];
    assert(reaction_step(states[n], events[n], states[n + 1], turn, wording));
    if let (ReactionAt::Repainting { scope, .. }, Event::Check(Some(generation))) = (
        states[n].at,
        events[n],
    ) {
        assert(on_check(reaction, events, n, scope));
        assert(turn.before@.contains(turn.before@[0]));
        assert(turn.before@.contains(turn.before@[1]));
    }
}

/// A player whose confirmation stands in the check that was read is among the confirmed on the
/// repainted message, by their mark.
pub proof fn noted_players_are_listed_as_confirmed(
    reaction: RawReactionEvent,
    first: Turn<Observed>,
    states: Seq<ReactionFlow>,
    events: Seq<Event>,
    turns: Seq<Turn<Observed>>,
    wording: Wording,
    n: int,
    channel_id: u64,
    message_id: u64,
    board: ReadycheckBoard,
    generation: ReadycheckGeneration,
    id: i64,
)
    requires
        reaction_run(reaction, first, states, events, turns, wording),
        0 <= n < turns.len(),
        events[n] == Event::Check(Some(generation)),
        turns[n].does(Action::PaintCheck { channel_id, message_id, board }),
        generation.player_data@.dom().finite(),
        generation.reacted@.dom().finite(),
        generation.reacted@.dom().contains(id),
    ensures
        crate::readycheck::lists_under(
            crate::readycheck::board_sections(board),
            "✅ Reacted to Ready Check ("@,
            generation.reacted@[id]@,
        ),
{
    noted_marks_show_on_the_board(
        reaction,
        first,
        states,
        events,
        turns,
        wording,
        n,
        channel_id,
        message_id,
        board,
    );
    crate::readycheck::boards_list_everybody(board, id);
}

/// A reaction on the message of a lobby is taken up by what it means: the bell reads the lobby to
/// run a check, the coin to welcome a spectator, the swords ask for the user's name, the old emoji
/// is taken off, and anything else is let be.
pub proof fn reactions_mean_what_they_show(
    reaction: RawReactionEvent,
    first: Turn<Observed>,
    states: Seq<ReactionFlow>,
    events: Seq<Event>,
    turns: Seq<Turn<Observed>>,
    wording: Wording,
    n: int,
    scope: LobbyScope,
)
    requires
        reaction_run(reaction, first, states, events, turns, wording),
        0 <= n < turns.len(),
        states[n].at is FindingLobby,
        events[n] matches Event::Lobbies(lobbies) && crate::lobby::shows(
            lobbies@,
            reaction.guild_id,
            reaction.message_id,
            scope,
        ),
        reaction.user_id <= i64::MAX,
        reaction.channel_id <= i64::MAX,
    ensures
        ({
            let added = reaction.kind == RawReactionKind::Add;
            let old = reaction.emoji.id == Some(1_463_270_458_848_842_003u64);
            let bell = reaction.emoji.name@ == "🔔"@ && added;
            let coin = (reaction.emoji.id == Some(wording.jopacoin_emoji_id) || reaction.emoji.name@
                == "jopacoin"@) && added;
            let sword = reaction.emoji.name@ == "⚔️"@;
            let turn = turns[n];
            &&& old && added ==> turn.before@.len() == 1 && (
            turn.before@[0] matches Action::Unreact { channel_id, message_id, emoji, user_id }
                && channel_id == reaction.channel_id && message_id == reaction.message_id && user_id
                == reaction.user_id && emoji.name@ == reaction.emoji.name@ && emoji.id
                == reaction.emoji.id)
            &&& !old && bell ==> states[n + 1].at is Ringing && turn.next == Next::<
                Observed,
            >::Ask(Action::ReadLobby { scope })
            &&& !old && !bell && coin ==> states[n + 1].at is Spectating && turn.next == Next::<
                Observed,
            >::Ask(Action::ReadLobby { scope })
            &&& !old && !bell && !coin && sword ==> states[n + 1].at is Naming && turn.next
                == Next::<Observed>::Ask(
                Action::ResolveName {
                    guild_id: reaction.guild_id,
                    user_id: reaction.user_id,
                    known: reaction.actor_display_name,
                },
            )
            &&& !sword && !bell && !coin && !(old && added) ==> turn.before@.len() == 0 && turn.next
                == Next::<Observed>::End(Ok(()))
        }),
{
    runs_keep_their_facts(reaction, first, states, events, turns, wording, n);
    assert(reaction_step(states[n], events[n], states[n + 1], turns[n], wording));
    if let Event::Lobbies(lobbies) = events[n] {
        crate::lobby::messages_lead_to_the_lobby_they_show(
            lobbies@,
            reaction.guild_id,
            reaction.message_id,
            scope,
        );
    }
}

/// A bell runs a check of its lobby in the name of the user who rang it, whom it does not count as
/// ready; it is answered in the channel where the lobby was created, or else where the bell is. A
/// check that could not run takes the bell off again.
pub proof fn bells_run_checks(
    reaction: RawReactionEvent,
    first: Turn<Observed>,
    states: Seq<ReactionFlow>,
    events: Seq<Event>,
    turns: Seq<Turn<Observed>>,
    wording: Wording,
    n: int,
)
    requires
        reaction_run(reaction, first, states, events, turns, wording),
        0 <= n < turns.len(),
    ensures
        states[n].at is Ringing && events[n] is Lobby ==> (turns[n].next matches Next::Ask(
            Action::RunReadycheck { .. },
        )),
        turns[n].next matches Next::Ask(
            Action::RunReadycheck {
                scope,
                invoker_id,
                channel_id,
                confirm_invoker,
                mirror_invocation,
            },
        ) ==> {
            &&& is_bell(reaction)
            &&& on_lobby(reaction, events, n, scope)
            &&& invoker_id == reaction.user_id
            &&& !confirm_invoker
            &&& mirror_invocation
            &&& events[n] matches Event::Lobby(lobby) && channel_id == (match lobby {
                Some(lobby) => match lobby.message_ids.origin_channel_id {
                    Some(origin) => origin as int,
                    None => reaction.channel_id as int,
                },
                None => reaction.channel_id as int,
            })
        },
        states[n].at is Running ==> (events[n] matches Event::CheckRan(Err(_)) ==> {
            &&& turns[n].before@.len() == 1
            &&& turns[n].before@[0] matches Action::Unreact { channel_id, message_id, emoji, user_id }
                && channel_id == reaction.channel_id && message_id == reaction.message_id && user_id
                == reaction.user_id && emoji.name@ == "🔔"@ && emoji.id is None
        }),
        states[n].at is Running ==> (events[n] matches Event::CheckRan(Ok(_))
            ==> turns[n].before@.len() == 0),
{
    runs_keep_their_facts(reaction, first, states, events, turns, wording, n);
    assert(reaction_step(states[n], events[n], states[n + 1], turns[n], wording));
}

/// A coin makes the user a spectator unless they play: they are welcomed by their tag in the thread
/// of the lobby, and the observer is told of them under the name they show.
pub proof fn coins_make_spectators(
    reaction: RawReactionEvent,
    first: Turn<Observed>,
    states: Seq<ReactionFlow>,
    events: Seq<Event>,
    turns: Seq<Turn<Observed>>,
    wording: Wording,
    n: int,
)
    requires
        reaction_run(reaction, first, states, events, turns, wording),
        0 <= n < turns.len(),
    ensures
        states[n].at is Spectating ==> (events[n] matches Event::Lobby(Some(lobby)) ==> {
            let user = reaction.user_id as i64;
            &&& lobby.players@.contains(user) ==> turns[n].before@.len() == 0 && turns[n].next
                == Next::<Observed>::End(Ok(()))
            &&& !lobby.players@.contains(user) ==> match lobby.message_ids.thread_id {
                Some(thread_id) => thread_id >= 0 ==> {
                    &&& turns[n].next == Next::<Observed>::Ask(Action::FindObserver)
                    &&& turns[n].before@.len() == 1
                    &&& turns[n].before@[0] matches Action::Send { channel_id, message }
                        && channel_id == thread_id && crate::text::contains_text(
                        message.response.content@,
                        crate::text::tag(reaction.user_id as int),
                    )
                },
                None => turns[n].only_asks(Action::FindObserver),
            }
        }),
        states[n].at is SeekingObserver && events[n] == Event::Flag(true) ==> turns[n].next
            == Next::<Observed>::Ask(
            Action::ResolveName {
                guild_id: reaction.guild_id,
                user_id: reaction.user_id,
                known: reaction.actor_display_name,
            },
        ),
        states[n].at is NamingSpectator ==> (events[n] matches Event::Name(name)
            ==> turns[n].before@.len() == 1 && (turns[n].before@[0] matches Action::TellSpectator {
            spectator,
        } && spectator.player_id == reaction.user_id && spectator.channel_id == reaction.channel_id
            && reaction.guild_id == Some(spectator.guild_id) && (name matches Some(name)
            ==> spectator.player_display_name@ == name@) && (name is None
            ==> spectator.player_display_name@ == "Lobby spectator"@))),
{
    runs_keep_their_facts(reaction, first, states, events, turns, wording, n);
    assert(reaction_step(states[n], events[n], states[n + 1], turns[n], wording));
    let tag = crate::text::tag(reaction.user_id as int);
    crate::text::middles_stand(
        wording.jopacoin_emote@ + " "@,
        tag,
        " is here for the gamba!"@,
    );
}

/// Putting the swords on asks for a seat, once the user was found registered with at least one
/// role; taking them off asks to leave. A join or a departure is made known exactly when it
/// happened, at the moment and under the names that were found, and as a reaction.
pub proof fn swords_join_and_leave(
    reaction: RawReactionEvent,
    first: Turn<Observed>,
    states: Seq<ReactionFlow>,
    events: Seq<Event>,
    turns: Seq<Turn<Observed>>,
    wording: Wording,
    n: int,
)
    requires
        reaction_run(reaction, first, states, events, turns, wording),
        0 <= n < turns.len(),
    ensures
        states[n].at is Naming && events[n] is Name ==> match reaction.kind {
            RawReactionKind::Add => turns[n].next matches Next::Ask(Action::LoadPlayer { .. }),
            RawReactionKind::Remove => turns[n].next matches Next::Ask(Action::Leave { .. }),
        },
        states[n].at is Loading ==> (events[n] matches Event::PlayerLoaded(Ok(Some(player))) ==> (
        turns[n].next matches Next::Ask(Action::JoinRegistered { .. })) == (
        player.preferred_roles matches Some(roles) && roles@.len() > 0)),
        turns[n].next matches Next::Ask(Action::JoinRegistered { has_roles, .. }) ==> has_roles
            && is_sword(reaction, RawReactionKind::Add) && (
        events[n] matches Event::PlayerLoaded(Ok(Some(player))) && (
        player.preferred_roles matches Some(roles) && roles@.len() > 0)),
        turns[n].next matches Next::Ask(Action::Leave { .. }) ==> is_sword(
            reaction,
            RawReactionKind::Remove,
        ),
        states[n].at is Joining ==> (events[n] matches Event::Presented(Ok(join)) ==> (
        join.joined_at_ns matches Some(joined) ==> turns[n].before@.len() > 0 && (
        turns[n].before@[0] matches Action::PublishJoin { joiner, .. } && joiner.joined_at_ns
            == joined))),
        forall|scope: LobbyScope, joiner: Joiner, raw_reaction: bool|
            turns[n].does(#[trigger] published_join(scope, joiner, raw_reaction)) ==> {
                &&& raw_reaction
                &&& events[n] matches Event::Presented(Ok(join)) && join.joined_at_ns == Some(
                    joiner.joined_at_ns,
                )
                &&& exists|player: Player| #[trigger]
                    saw_player(events, n, player) && player.name@ == joiner.name@
                &&& exists|name: Option<String>| #[trigger]
                    saw_name(events, n, name) && joiner.display_name@ == match name {
                        Some(name) => name@,
                        None => joiner.name@,
                    }
            },
        states[n].at is Leaving ==> (events[n] matches Event::Outcome(Ok(left)) ==> {
            &&& !left ==> turns[n].before@.len() == 1
            &&& left ==> (states[n].at->Leaving_name matches Some(name) ==> tells_departure(
                turns[n],
                reaction,
                name@,
            ))
            &&& left && states[n].at->Leaving_name is None ==> turns[n].next matches Next::Ask(
                Action::NamePlayer { .. },
            )
        }),
        states[n].at matches ReactionAt::Leaving { name, .. } ==> saw_name(events, n, name),
        states[n].at is NamingLeaver ==> (events[n] matches Event::Text(name) ==> tells_departure(
            turns[n],
            reaction,
            name@,
        )),
{
    runs_keep_their_facts(reaction, first, states, events, turns, wording, n);
    let turn = turns[n];
    assert(reaction_step(states[n], events[n], states[n + 1], turn, wording));
    assert forall|scope: LobbyScope, joiner: Joiner, raw_reaction: bool|
        turn.does(#[trigger] published_join(scope, joiner, raw_reaction)) implies {
        &&& raw_reaction
        &&& events[n] matches Event::Presented(Ok(join)) && join.joined_at_ns == Some(
            joiner.joined_at_ns,
        )
        &&& exists|player: Player| #[trigger]
            saw_player(events, n, player) && player.name@ == joiner.name@
        &&& exists|name: Option<String>| #[trigger]
            saw_name(events, n, name) && joiner.display_name@ == match name {
                Some(name) => name@,
                None => joiner.name@,
            }
    } by {
        if let ReactionAt::Joining { name, player_name, .. } = states[n].at {
            assert(saw_name(events, n, name));
            let player = choose|player: Player| #[trigger]
                saw_player(events, n, player) && player.name == player_name && (
                player.preferred_roles matches Some(roles) && roles@.len() > 0);
            assert(saw_player(events, n, player));
        }
    }
}

/// Making this join known.
pub open spec fn published_join(scope: LobbyScope, joiner: Joiner, raw_reaction: bool) -> Action {
    Action::PublishJoin { scope, joiner, raw_reaction }
}

/// The turn makes the departure of the user known, under this name and as a reaction.
pub open spec fn tells_departure(
    turn: Turn<Observed>,
    reaction: RawReactionEvent,
    name: Seq<char>,
) -> bool {
    &&& turn.before@.len() == 2
    &&& turn.before@[0] matches Action::PublishLeave { player_id, display_name, raw_reaction, .. }
        && player_id == reaction.user_id && raw_reaction && display_name@ == name
}

/// The turn takes the swords of the user off and tells them this by their tag, where they reacted.
pub open spec fn turns_away(
    turn: Turn<Observed>,
    reaction: RawReactionEvent,
    reason: Seq<char>,
) -> bool {
    &&& turn.before@.len() == 1
    &&& turn.before@[0] matches Action::Unreact { channel_id, message_id, emoji, user_id }
        && channel_id == reaction.channel_id && message_id == reaction.message_id && user_id
        == reaction.user_id && emoji.name@ == "⚔️"@ && emoji.id is None
    &&& turn.next matches Next::Ask(Action::Send { channel_id, message }) && channel_id
        == reaction.channel_id && crate::text::contains_text(message.response.content@, reason)
        && crate::text::contains_text(
        message.response.content@,
        crate::text::tag(reaction.user_id as int),
    )
}

/// A user who cannot be let in is turned away with the reason: that they are not registered, chose
/// no roles, are restricted, or what their refusal says. What they are told stays up for ten
/// seconds, and for fifteen where it takes longer to read; the reason of a suspension goes to the
/// suspended user alone, and is theirs.
pub proof fn refused_users_are_turned_away(
    reaction: RawReactionEvent,
    first: Turn<Observed>,
    states: Seq<ReactionFlow>,
    events: Seq<Event>,
    turns: Seq<Turn<Observed>>,
    wording: Wording,
    n: int,
)
    requires
        reaction_run(reaction, first, states, events, turns, wording),
        0 <= n < turns.len(),
    ensures
        states[n].at is Loading && events[n] == Event::PlayerLoaded(
            Ok::<Option<Player>, String>(None),
        ) ==> turns_away(turns[n], reaction, REGISTER_FIRST@) && states[n
            + 1].at->Rejecting_seconds == 10 && states[n + 1].at->Rejecting_private_reason is None,
        states[n].at is Loading ==> (events[n] matches Event::PlayerLoaded(Ok(Some(player))) ==> (
        !(player.preferred_roles matches Some(roles) && roles@.len() > 0) ==> turns_away(
            turns[n],
            reaction,
            ROLES_FIRST@,
        ) && states[n + 1].at->Rejecting_seconds == 10 && states[n
            + 1].at->Rejecting_private_reason is None)),
        states[n].at is Joining ==> (events[n] matches Event::Presented(Ok(join)) ==> (
        join.joined_at_ns is None ==> match join.rejection {
            Some(JoinRejection::Suspended(suspension)) => {
                &&& turns_away(turns[n], reaction, RESTRICTED@)
                &&& states[n + 1].at->Rejecting_seconds == 15
                &&& states[n + 1].at->Rejecting_private_reason == Some(suspension.reason)
            },
            Some(rejection) => {
                &&& turns_away(
                    turns[n],
                    reaction,
                    crate::joining::public_rejection(rejection, wording),
                )
                &&& states[n + 1].at->Rejecting_seconds == (if rejection is PendingMatch {
                    15u64
                } else {
                    10u64
                })
                &&& states[n + 1].at->Rejecting_private_reason is None
            },
            None => turns_away(turns[n], reaction, "Could not join lobby."@) && states[n
                + 1].at->Rejecting_private_reason is None,
        })),
        states[n].at matches ReactionAt::Rejecting { seconds, private_reason, .. } ==> (
        events[n] matches Event::Posted(posted) ==> {
            &&& posted matches Ok(receipt) ==> turns[n].does(
                Action::DeleteLater {
                    channel_id: receipt.channel_id,
                    message_id: receipt.message_id,
                    seconds,
                },
            )
            &&& private_reason matches Some(reason) ==> exists|i: int|
                {
                    &&& 0 <= i < turns[n].before@.len()
                    &&& #[trigger] turns[n].before@[i] matches Action::DirectMessage {
                        user_id,
                        message,
                    } && user_id == reaction.user_id && crate::text::contains_text(
                        message.response.content@,
                        reason@,
                    )
                }
            &&& private_reason is None ==> forall|i: int|
                0 <= i < turns[n].before@.len() ==> !(#[trigger] turns[n].before@[i] is DirectMessage)
        }),
{
    runs_keep_their_facts(reaction, first, states, events, turns, wording, n);
    let turn = turns[n];
    assert(reaction_step(states[n], events[n], states[n + 1], turn, wording));
    let tag = crate::text::tag(reaction.user_id as int);
    let reason = match (states[n].at, events[n]) {
        (ReactionAt::Loading { .. }, Event::PlayerLoaded(Ok(None))) => REGISTER_FIRST@,
        (ReactionAt::Loading { .. }, _) => ROLES_FIRST@,
        (ReactionAt::Joining { .. }, Event::Presented(Ok(join))) => match join.rejection {
            Some(JoinRejection::Suspended(_)) => RESTRICTED@,
            Some(rejection) => crate::joining::public_rejection(rejection, wording),
            None => "Could not join lobby."@,
        },
        _ => Seq::empty(),
    };
    crate::text::middles_stand(tag + " ❌ "@, reason, Seq::empty());
    crate::text::middles_stand(Seq::empty(), tag, " ❌ "@ + reason);
    assert(tag + " ❌ "@ + reason =~= tag + (" ❌ "@ + reason));
    if let (ReactionAt::Rejecting { seconds, private_reason, .. }, Event::Posted(posted)) = (
        states[n].at,
        events[n],
    ) {
        assert(turn.before@.contains(turn.before@[0]));
        if let Some(said) = private_reason {
            crate::text::middles_stand(
                "You are temporarily suspended from this matchmaking lobby.\nReason: "@,
                said@,
                "\nUse `/player lobby status` in the server for the exact remaining term."@,
            );
            let i = if posted is Ok {
                1int
            } else {
                0int
            };
            assert(turn.before@[i] is DirectMessage);
        }
    }
}

/// The handling of a reaction that ends because something went wrong reports that in its own words;
/// and it does end so wherever the user cannot be looked up, let in or let out.
pub proof fn reactions_report_failures_in_their_own_words(
    pre: ReactionFlow,
    event: Event,
    post: ReactionFlow,
    turn: Turn<Observed>,
    wording: Wording,
    text: Seq<char>,
)
    requires
        reaction_step(pre, event, post, turn, wording),
        event.failure() == Some(text),
    ensures
        turn.next matches Next::End(Err(said)) ==> said@ == text,
        pre.at is Loading && event is PlayerLoaded ==> (turn.next matches Next::End(Err(_))),
        pre.at is Joining && event is Presented ==> (turn.next matches Next::End(Err(_))),
        pre.at is Leaving && event is Outcome ==> (turn.next matches Next::End(Err(_))),
{
}

} // verus!
