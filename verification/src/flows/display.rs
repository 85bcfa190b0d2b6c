//! Keeping the message of a lobby up to date.
use vstd::prelude::*;
use crate::flows::lobby::SWORD_EMOJI;
use crate::ids::to_u64;
use crate::kinds::LobbyScope;
use crate::lobby::LobbySnapshot;
use crate::lobby::display_ids;
use crate::lobby::has_display;
use crate::lobby::lobby_reaction;
use crate::message::DiscordEmoji;
use crate::message::DiscordMessage;
use crate::message::DiscordMessageContentMode;
use crate::message::EmbedModel;
use crate::message::interaction_embed;
use crate::protocol::Action;
use crate::protocol::Event;
use crate::protocol::Next;
use crate::protocol::Turn;
use crate::protocol::WorkFailure;

verus! {

/// How keeping a message up to date ends.
pub type Shown = Result<(), String>;

/// Where a repaint stands.
#[derive(Debug, PartialEq, Eq)]
pub enum DisplayAt {
    /// The lobby is being read.
    Reading,
    /// The lobby is being rendered.
    Rendering { channel_id: i64, message_id: i64 },
    /// The message is being replaced.
    Editing,
    /// Nothing is left to be done.
    Over,
}

/// A repaint in progress.
#[derive(Debug, PartialEq, Eq)]
pub struct DisplayFlow {
    pub scope: LobbyScope,
    pub at: DisplayAt,
}

/// The beginning: the lobby is read.
pub open spec fn display_starts(scope: LobbyScope, post: DisplayFlow, turn: Turn<Shown>) -> bool {
    &&& post == (DisplayFlow { scope, at: DisplayAt::Reading })
    &&& turn.only_asks(Action::ReadLobby { scope })
}

/// The repaint ends with this failure.
pub open spec fn display_fails(post: DisplayAt, turn: Turn<Shown>, text: Seq<char>) -> bool {
    &&& post is Over
    &&& turn.before@.len() == 0
    &&& turn.next matches Next::End(Err(error)) && error@ == text
}

/// What is said of a lobby that has no message.
pub open spec fn not_shown(lobby: Option<LobbySnapshot>) -> Seq<char> {
    match lobby {
        None => "lobby no longer exists"@,
        Some(lobby) => if lobby.message_ids.channel_id is None {
            "lobby has no channel id"@
        } else {
            "lobby has no message id"@
        },
    }
}

/// The lobby was read: it is rendered, if it has a message.
pub open spec fn display_read(
    lobby: Option<LobbySnapshot>,
    post: DisplayAt,
    turn: Turn<Shown>,
) -> bool {
    if crate::lobby::displayed(lobby) {
        let shown = lobby->0;
        &&& post == (DisplayAt::Rendering {
            channel_id: shown.message_ids.channel_id->0,
            message_id: shown.message_ids.message_id->0,
        })
        &&& turn.only_asks(Action::Render { lobby: shown })
    } else {
        display_fails(post, turn, not_shown(lobby))
    }
}

/// The action puts this card on a message, whose text it leaves as it is.
pub open spec fn repaints_card(
    next: Next<Shown>,
    channel: i64,
    message: i64,
    model: EmbedModel,
) -> bool {
    next matches Next::Ask(Action::Edit { channel_id, message_id, message: new }) && channel_id
        == channel && message_id == message && (new.response.embed matches Some(embed)
        && crate::message::card_message(new, embed, DiscordMessageContentMode::Preserve)
        && crate::message::shows_fields(embed, model))
}

/// The lobby was rendered: its message is replaced.
pub open spec fn display_rendered(
    channel_id: i64,
    message_id: i64,
    rendered: Result<EmbedModel, WorkFailure>,
    post: DisplayAt,
    turn: Turn<Shown>,
) -> bool {
    match rendered {
        Err(failure) => display_fails(
            post,
            turn,
            failure.told("lobby display render task failed: "@),
        ),
        Ok(model) => match crate::lobby::first_bad_id(channel_id, message_id, 0) {
            Some(bad) => display_fails(post, turn, crate::ids::bad_snowflake_text(bad as int)),
            None => {
                &&& post is Editing
                &&& turn.before@.len() == 0
                &&& repaints_card(turn.next, channel_id, message_id, model)
            },
        },
    }
}

/// One step of a repaint.
pub open spec fn display_step(
    pre: DisplayFlow,
    event: Event,
    post: DisplayFlow,
    turn: Turn<Shown>,
) -> bool {
    &&& post.scope == pre.scope
    &&& match (pre.at, event) {
        (DisplayAt::Reading, Event::Lobby(lobby)) => display_read(lobby, post.at, turn),
        (
            DisplayAt::Rendering { channel_id, message_id },
            Event::Rendered(rendered),
        ) => display_rendered(channel_id, message_id, rendered, post.at, turn),
        (DisplayAt::Editing, Event::Done(result)) => post.at is Over && turn.only_ends(result),
        _ => post.at == pre.at && turn.waits(),
    }
}

fn fail(text: String) -> (r: (DisplayAt, Turn<Shown>))
    ensures
        display_fails(r.0, r.1, text@),
{
    (DisplayAt::Over, Turn::end(Err(text)))
}

fn on_read(lobby: Option<LobbySnapshot>) -> (r: (DisplayAt, Turn<Shown>))
    ensures
        display_read(lobby, r.0, r.1),
{
    match display_ids(&lobby) {
        Err(text) => fail(text),
        Ok((channel_id, message_id)) => match lobby {
            Some(lobby) => (
                DisplayAt::Rendering { channel_id, message_id },
                Turn::ask(Action::Render { lobby }),
            ),
            None => fail("lobby no longer exists".to_owned()),
        },
    }
}

/// The message that repaints a lobby.
pub fn lobby_card(model: EmbedModel) -> (r: DiscordMessage)
    ensures
        r.response.embed matches Some(embed) && crate::message::card_message(
            r,
            embed,
            DiscordMessageContentMode::Preserve,
        ) && crate::message::shows_fields(embed, model),
{
    let embed = interaction_embed(model);
    let ghost shown = embed;
    let message = DiscordMessage::card(embed, DiscordMessageContentMode::Preserve);
    proof {
        let card = message.response.embed->0;
        assert(crate::message::same_card(card, shown));
        assert(crate::message::same_card(card, card));
    }
    message
}

fn on_rendered(
    channel_id: i64,
    message_id: i64,
    rendered: Result<EmbedModel, WorkFailure>,
) -> (r: (DisplayAt, Turn<Shown>))
    ensures
        display_rendered(channel_id, message_id, rendered, r.0, r.1),
{
    let model = match rendered {
        Err(failure) => {
            return fail(failure.tell("lobby display render task failed: "));
        },
        Ok(model) => model,
    };
    match (to_u64(channel_id), to_u64(message_id)) {
        (Ok(channel_id), Ok(message_id)) => (
            DisplayAt::Editing,
            Turn::ask(Action::Edit { channel_id, message_id, message: lobby_card(model) }),
        ),
        (Err(text), _) => fail(text),
        (_, Err(text)) => fail(text),
    }
}

impl DisplayFlow {
    /// Begins a repaint.
    pub fn start(scope: LobbyScope) -> (r: (DisplayFlow, Turn<Shown>))
        ensures
            display_starts(scope, r.0, r.1),
            r.1.goes_on(|action: Action| r.0.awaits(action)),
    {
        (
            DisplayFlow { scope, at: DisplayAt::Reading },
            Turn::ask(Action::ReadLobby { scope }),
        )
    }

    /// Goes on with what came of the last question.
    pub fn resume(self, event: Event) -> (r: (DisplayFlow, Turn<Shown>))
        ensures
            display_step(self, event, r.0, r.1),
    {
        let DisplayFlow { scope, at } = self;
        let (at, turn) = match (at, event) {
            (DisplayAt::Reading, Event::Lobby(lobby)) => on_read(lobby),
            (
                DisplayAt::Rendering { channel_id, message_id },
                Event::Rendered(rendered),
            ) => on_rendered(channel_id, message_id, rendered),
            (DisplayAt::Editing, Event::Done(result)) => (DisplayAt::Over, Turn::end(result)),
            (at, _) => (at, Turn::wait()),
        };
        (DisplayFlow { scope, at }, turn)
    }
}

/// A repaint leaves every lobby as it is.
pub proof fn repaints_leave_lobbies_alone(
    pre: DisplayFlow,
    event: Event,
    post: DisplayFlow,
    turn: Turn<Shown>,
)
    requires
        display_step(pre, event, post, turn),
    ensures
        crate::locking::leaves_lobbies_alone(turn),
{
}

/// Where the removal of a reaction stands.
#[derive(Debug, PartialEq, Eq)]
pub enum RemovalAt {
    /// The lobby is being read.
    Reading,
    /// The reaction is being taken off.
    Removing,
    /// Nothing is left to be done.
    Over,
}

/// The removal of a player's reaction from the message of a lobby, in progress.
#[derive(Debug, PartialEq, Eq)]
pub struct RemovalFlow {
    pub player_id: i64,
    pub at: RemovalAt,
}

/// The beginning: the lobby is read.
pub open spec fn removal_starts(
    scope: LobbyScope,
    player_id: i64,
    post: RemovalFlow,
    turn: Turn<Shown>,
) -> bool {
    &&& post == (RemovalFlow { player_id, at: RemovalAt::Reading })
    &&& turn.only_asks(Action::ReadLobby { scope })
}

/// The lobby was read: the sword of the player is taken off its message, if it has one.
pub open spec fn removal_read(
    player_id: i64,
    lobby: Option<LobbySnapshot>,
    post: RemovalAt,
    turn: Turn<Shown>,
) -> bool {
    if crate::lobby::displayed(lobby) {
        let channel = lobby->0.message_ids.channel_id->0;
        let message = lobby->0.message_ids.message_id->0;
        match crate::lobby::first_bad_id(channel, message, player_id) {
            Some(bad) => {
                &&& post is Over
                &&& turn.before@.len() == 0
                &&& turn.next matches Next::End(Err(text)) && text@
                    == crate::ids::bad_snowflake_text(bad as int)
            },
            None => {
                &&& post is Removing
                &&& turn.before@.len() == 0
                &&& turn.next matches Next::Ask(
                    Action::Unreact { channel_id, message_id, emoji, user_id },
                ) && channel_id == channel && message_id == message && user_id == player_id
                    && crate::message::is_unicode(emoji, SWORD_EMOJI@)
            },
        }
    } else {
        post is Over && turn.only_ends(Ok(()))
    }
}

/// One step of a removal.
pub open spec fn removal_step(
    pre: RemovalFlow,
    event: Event,
    post: RemovalFlow,
    turn: Turn<Shown>,
) -> bool {
    &&& post.player_id == pre.player_id
    &&& match (pre.at, event) {
        (RemovalAt::Reading, Event::Lobby(lobby)) => removal_read(
            pre.player_id,
            lobby,
            post.at,
            turn,
        ),
        (RemovalAt::Removing, Event::Done(result)) => post.at is Over && turn.only_ends(result),
        _ => post.at == pre.at && turn.waits(),
    }
}

impl RemovalFlow {
    /// Begins a removal.
    pub fn start(scope: LobbyScope, player_id: i64) -> (r: (RemovalFlow, Turn<Shown>))
        ensures
            removal_starts(scope, player_id, r.0, r.1),
            r.1.goes_on(|action: Action| r.0.awaits(action)),
    {
        (
            RemovalFlow { player_id, at: RemovalAt::Reading },
            Turn::ask(Action::ReadLobby { scope }),
        )
    }

    /// Goes on with what came of the last question.
    pub fn resume(self, event: Event) -> (r: (RemovalFlow, Turn<Shown>))
        ensures
            removal_step(self, event, r.0, r.1),
    {
        let RemovalFlow { player_id, at } = self;
        let (at, turn) = match (at, event) {
            (RemovalAt::Reading, Event::Lobby(lobby)) => match lobby_reaction(&lobby, player_id) {
                Err(text) => (RemovalAt::Over, Turn::end(Err(text))),
                Ok(None) => (RemovalAt::Over, Turn::end(Ok(()))),
                Ok(Some((channel_id, message_id, user_id))) => (
                    RemovalAt::Removing,
                    Turn::ask(
                        Action::Unreact {
                            channel_id,
                            message_id,
                            emoji: DiscordEmoji::unicode(SWORD_EMOJI),
                            user_id,
                        },
                    ),
                ),
            },
            (RemovalAt::Removing, Event::Done(result)) => (RemovalAt::Over, Turn::end(result)),
            (at, _) => (at, Turn::wait()),
        };
        (RemovalFlow { player_id, at }, turn)
    }
}

/// What is done to refresh a lobby: a lobby with a message is repainted.
pub fn refresh_lobby(scope: LobbyScope, lobby: &Option<LobbySnapshot>) -> (r: Option<Action>)
    ensures
        r == if crate::lobby::displayed(*lobby) {
            Some(Action::SyncDisplay { scope })
        } else {
            None
        },
{
    if has_display(lobby) {
        Some(Action::SyncDisplay { scope })
    } else {
        None
    }
}

impl DisplayFlow {
    /// What is waited for: the answer to this question.
    pub open spec fn awaits(self, action: Action) -> bool {
        match self.at {
            DisplayAt::Reading => action is ReadLobby,
            DisplayAt::Rendering { .. } => action is Render,
            DisplayAt::Editing => action is Edit,
            DisplayAt::Over => false,
        }
    }
}

/// Repainting a lobby is never left waiting by the answer to what it asked for: it goes on to its
/// end or to its next question, and waits for the answer to that.
pub proof fn displays_go_on_when_answered(
    pre: DisplayFlow,
    asked: Action,
    event: Event,
    post: DisplayFlow,
    turn: Turn<Shown>,
)
    requires
        display_step(pre, event, post, turn),
        pre.awaits(asked),
        asked.answered_by(event),
    ensures
        turn.goes_on(|action: Action| post.awaits(action)),
{
}

impl RemovalFlow {
    /// What is waited for: the answer to this question.
    pub open spec fn awaits(self, action: Action) -> bool {
        match self.at {
            RemovalAt::Reading => action is ReadLobby,
            RemovalAt::Removing => action is Unreact,
            RemovalAt::Over => false,
        }
    }
}

/// Taking a reaction off is never left waiting by the answer to what it asked for: it goes on to
/// its end or to its next question, and waits for the answer to that.
pub proof fn removals_go_on_when_answered(
    pre: RemovalFlow,
    asked: Action,
    event: Event,
    post: RemovalFlow,
    turn: Turn<Shown>,
)
    requires
        removal_step(pre, event, post, turn),
        pre.awaits(asked),
        asked.answered_by(event),
    ensures
        turn.goes_on(|action: Action| post.awaits(action)),
{
}

/// The message of a lobby is repainted with what that lobby was rendered to, on the channel and
/// message that show it; its text stays, and nobody is notified. Where it is not shown, or could
/// not be rendered, the reason is reported.
pub proof fn displays_show_their_lobby(
    scope: LobbyScope,
    start: DisplayFlow,
    first: Turn<Shown>,
    pre: DisplayFlow,
    event: Event,
    post: DisplayFlow,
    turn: Turn<Shown>,
)
    requires
        display_starts(scope, start, first),
        display_step(pre, event, post, turn),
    ensures
        first.next == Next::<Shown>::Ask(Action::ReadLobby { scope }),
        start.scope == scope,
        pre.at is Reading ==> (event matches Event::Lobby(Some(lobby)) ==> {
            &&& lobby.message_ids.channel_id matches Some(channel) ==> (
            lobby.message_ids.message_id matches Some(message) ==> turn.next == Next::<Shown>::Ask(
                Action::Render { lobby },
            ) && post.at == (DisplayAt::Rendering { channel_id: channel, message_id: message }))
            &&& lobby.message_ids.channel_id is None || lobby.message_ids.message_id is None ==> (
            turn.next matches Next::End(Err(_)))
        }),
        pre.at is Reading && event == Event::Lobby(None) ==> (turn.next matches Next::End(Err(_))),
        pre.at matches DisplayAt::Rendering { channel_id, message_id } ==> (
        event matches Event::Rendered(Ok(model)) ==> (channel_id >= 0 && message_id >= 0 ==> (
        turn.next matches Next::Ask(Action::Edit { channel_id: on, message_id: at, message }) && on
            == channel_id && at == message_id && message.content_mode is Preserve
            && message.allowed_mentions is Nobody && (message.response.embed matches Some(card)
            && crate::commands::optional_string(card.title) == crate::commands::optional_string(
            model.title,
        ) && crate::commands::optional_string(card.description) == crate::commands::optional_string(
            model.description,
        ) && card.fields@ == model.fields@ && card.footer == model.footer)))),
        pre.at is Rendering ==> (event matches Event::Rendered(Err(failure)) ==> (
        turn.next matches Next::End(Err(said)) && crate::text::contains_text(
            said@,
            failure.report@,
        ))),
        pre.at is Editing ==> (event matches Event::Done(result) ==> turn.only_ends(result)),
{
    if let Event::Rendered(Err(failure)) = event {
        crate::text::middles_stand(
            "lobby display render task failed: "@,
            failure.report@,
            Seq::empty(),
        );
        crate::text::texts_contain_themselves(failure.report@);
    }
}

/// The reaction that is taken off is the crossed swords of the given player, on the message that
/// shows the lobby; a lobby that is not shown has none to be taken off.
pub proof fn removals_take_the_players_swords_off(
    scope: LobbyScope,
    player_id: i64,
    start: RemovalFlow,
    first: Turn<Shown>,
    pre: RemovalFlow,
    event: Event,
    post: RemovalFlow,
    turn: Turn<Shown>,
)
    requires
        removal_starts(scope, player_id, start, first),
        pre.player_id == player_id,
        removal_step(pre, event, post, turn),
    ensures
        start.player_id == player_id,
        post.player_id == player_id,
        first.next == Next::<Shown>::Ask(Action::ReadLobby { scope }),
        pre.at is Reading ==> (event matches Event::Lobby(Some(lobby)) ==> (
        lobby.message_ids.channel_id matches Some(channel) ==> (
        lobby.message_ids.message_id matches Some(message) ==> (channel >= 0 && message >= 0
            && player_id >= 0 ==> (turn.next matches Next::Ask(
            Action::Unreact { channel_id, message_id, emoji, user_id },
        ) && channel_id == channel && message_id == message && user_id == player_id && emoji.name@
            == "⚔️"@ && emoji.id is None))))),
        pre.at is Reading ==> (event matches Event::Lobby(lobby) ==> ((lobby is None
            || lobby->0.message_ids.channel_id is None || lobby->0.message_ids.message_id is None)
            ==> turn.only_ends(Ok(())))),
        pre.at is Removing ==> (event matches Event::Done(result) ==> turn.only_ends(result)),
{
}

} // verus!
