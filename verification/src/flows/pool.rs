//! Repainting the lobbies of a guild after the pool of the first game was funded.
use vstd::prelude::*;
use crate::flows::display::lobby_card;
use crate::ids::to_u64;
use crate::kinds::LobbyKind;
use crate::kinds::LobbyScope;
use crate::kinds::lobby_kind_value;
use crate::lobby::LobbySnapshot;
use crate::message::DiscordMessageContentMode;
use crate::message::EmbedModel;
use crate::protocol::Action;
use crate::protocol::Event;
use crate::protocol::Next;
use crate::protocol::Turn;
use crate::protocol::WorkFailure;
use crate::text::contents;
use crate::text::join_texts;
use crate::text::text3;

verus! {

/// How the repaint ends.
pub type Refreshed = Result<(), String>;

/// Where the repaint stands.
#[derive(Debug, PartialEq, Eq)]
pub enum PoolAt {
    /// A lobby is being read.
    Reading { kind: LobbyKind },
    /// A lobby is being rendered.
    Rendering { kind: LobbyKind, channel_id: i64, message_id: i64 },
    /// The message of a lobby is being replaced.
    Editing { kind: LobbyKind },
    /// Nothing is left to be done.
    Over,
}

/// A repaint in progress, with the failures so far.
#[derive(Debug, PartialEq, Eq)]
pub struct PoolFlow {
    pub guild_id: i64,
    pub failures: Vec<String>,
    pub at: PoolAt,
}

/// The scope of a lobby of the guild.
pub open spec fn pool_scope(guild_id: i64, kind: LobbyKind) -> LobbyScope {
    LobbyScope { guild_id, kind }
}

/// The beginning: the open lobby is taken first.
pub open spec fn pool_starts(guild_id: i64, flow: PoolFlow, turn: Turn<Refreshed>) -> bool {
    let scope = pool_scope(guild_id, LobbyKind::Open);
    &&& flow.guild_id == guild_id
    &&& flow.failures@.len() == 0
    &&& flow.at == (PoolAt::Reading { kind: LobbyKind::Open })
    &&& turn.before@.len() == 1
    &&& turn.before@[0] == (Action::Lock { scope })
    &&& turn.next == Next::<Refreshed>::Ask(Action::ReadLobby { scope })
}

/// A lobby is dealt with: its scope is given free, and the next one is taken. After the second
/// one the failures are reported.
pub open spec fn pool_goes_on(
    guild_id: i64,
    kind: LobbyKind,
    failures: Seq<String>,
    post: PoolFlow,
    turn: Turn<Refreshed>,
) -> bool {
    let free = Action::Unlock { scope: pool_scope(guild_id, kind) };
    &&& post.guild_id == guild_id
    &&& post.failures@ == failures
    &&& match kind {
        LobbyKind::Open => {
            let scope = pool_scope(guild_id, LobbyKind::LowSkill);
            &&& post.at == (PoolAt::Reading { kind: LobbyKind::LowSkill })
            &&& turn.before@.len() == 2
            &&& turn.before@[0] == free
            &&& turn.before@[1] == (Action::Lock { scope })
            &&& turn.next == Next::<Refreshed>::Ask(Action::ReadLobby { scope })
        },
        LobbyKind::LowSkill => {
            &&& post.at is Over
            &&& turn.before@.len() == 1
            &&& turn.before@[0] == free
            &&& if failures.len() == 0 {
                turn.next == Next::<Refreshed>::End(Ok(()))
            } else {
                turn.next matches Next::End(Err(error)) && error@ == crate::text::joined(
                    contents(failures),
                    "; "@,
                )
            }
        },
    }
}

/// The repaint is given up: the scope is given free.
pub open spec fn pool_fails(
    guild_id: i64,
    kind: LobbyKind,
    post: PoolFlow,
    turn: Turn<Refreshed>,
    text: Seq<char>,
) -> bool {
    &&& post.at is Over
    &&& turn.before@.len() == 1
    &&& turn.before@[0] == (Action::Unlock { scope: pool_scope(guild_id, kind) })
    &&& turn.next matches Next::End(Err(error)) && error@ == text
}

/// A lobby was read: it is rendered with the pool as it is funded now, if it has a message.
pub open spec fn pool_read(
    pre: PoolFlow,
    kind: LobbyKind,
    lobby: Option<LobbySnapshot>,
    post: PoolFlow,
    turn: Turn<Refreshed>,
) -> bool {
    if crate::lobby::displayed(lobby) {
        let shown = lobby->0;
        &&& post.guild_id == pre.guild_id
        &&& post.failures@ == pre.failures@
        &&& post.at == (PoolAt::Rendering {
            kind,
            channel_id: shown.message_ids.channel_id->0,
            message_id: shown.message_ids.message_id->0,
        })
        &&& turn.only_asks(Action::RenderFunded { lobby: shown })
    } else {
        pool_goes_on(pre.guild_id, kind, pre.failures@, post, turn)
    }
}

/// A lobby was rendered: its message is replaced.
pub open spec fn pool_rendered(
    pre: PoolFlow,
    kind: LobbyKind,
    channel: i64,
    message: i64,
    rendered: Result<EmbedModel, WorkFailure>,
    post: PoolFlow,
    turn: Turn<Refreshed>,
) -> bool {
    match rendered {
        Err(failure) => pool_fails(
            pre.guild_id,
            kind,
            post,
            turn,
            failure.told("first-game lobby render task failed: "@),
        ),
        Ok(model) => match crate::lobby::first_bad_id(channel, message, 0) {
            Some(bad) => pool_fails(
                pre.guild_id,
                kind,
                post,
                turn,
                crate::ids::bad_snowflake_text(bad as int),
            ),
            None => {
                &&& post.guild_id == pre.guild_id
                &&& post.failures@ == pre.failures@
                &&& post.at == (PoolAt::Editing { kind })
                &&& turn.before@.len() == 0
                &&& turn.next matches Next::Ask(Action::Edit { channel_id, message_id, message: new })
                    && channel_id == channel && message_id == message && (
                new.response.embed matches Some(embed) && crate::message::card_message(
                    new,
                    embed,
                    DiscordMessageContentMode::Preserve,
                ) && crate::message::shows_fields(embed, model))
            },
        },
    }
}

/// The message of a lobby was replaced, or could not be: a failure is noted under the lobby's
/// name, and the next lobby is next.
pub open spec fn pool_edited(
    pre: PoolFlow,
    kind: LobbyKind,
    result: Result<(), String>,
    post: PoolFlow,
    turn: Turn<Refreshed>,
) -> bool {
    match result {
        Ok(_) => pool_goes_on(pre.guild_id, kind, pre.failures@, post, turn),
        Err(error) => {
            &&& post.failures@.len() == pre.failures@.len() + 1
            &&& post.failures@.drop_last() == pre.failures@
            &&& post.failures@.last()@ == crate::kinds::kind_value(kind) + ": "@ + error@
            &&& pool_goes_on(pre.guild_id, kind, post.failures@, post, turn)
        },
    }
}

/// One step of the repaint.
pub open spec fn pool_step(
    pre: PoolFlow,
    event: Event,
    post: PoolFlow,
    turn: Turn<Refreshed>,
) -> bool {
    match (pre.at, event) {
        (PoolAt::Reading { kind }, Event::Lobby(lobby)) => pool_read(pre, kind, lobby, post, turn),
        (
            PoolAt::Rendering { kind, channel_id, message_id },
            Event::Rendered(rendered),
        ) => pool_rendered(pre, kind, channel_id, message_id, rendered, post, turn),
        (PoolAt::Editing { kind }, Event::Done(result)) => pool_edited(
            pre,
            kind,
            result,
            post,
            turn,
        ),
        _ => post == pre && turn.waits(),
    }
}

fn go_on(guild_id: i64, kind: LobbyKind, failures: Vec<String>) -> (r: (PoolFlow, Turn<Refreshed>))
    ensures
        pool_goes_on(guild_id, kind, failures@, r.0, r.1),
{
    let free = Action::Unlock { scope: LobbyScope { guild_id, kind } };
    match kind {
        LobbyKind::Open => {
            let scope = LobbyScope { guild_id, kind: LobbyKind::LowSkill };
            (
                PoolFlow {
                    guild_id,
                    failures,
                    at: PoolAt::Reading { kind: LobbyKind::LowSkill },
                },
                Turn::ask_after(vec![free, Action::Lock { scope }], Action::ReadLobby { scope }),
            )
        },
        LobbyKind::LowSkill => {
            let result = if failures.len() == 0 {
                Ok(())
            } else {
                Err(join_texts(&failures, "; "))
            };
            (
                PoolFlow { guild_id, failures, at: PoolAt::Over },
                Turn::end_after(vec![free], result),
            )
        },
    }
}

fn fail(guild_id: i64, kind: LobbyKind, text: String) -> (r: (PoolFlow, Turn<Refreshed>))
    ensures
        pool_fails(guild_id, kind, r.0, r.1, text@),
{
    let free = Action::Unlock { scope: LobbyScope { guild_id, kind } };
    (
        PoolFlow { guild_id, failures: Vec::new(), at: PoolAt::Over },
        Turn::end_after(vec![free], Err(text)),
    )
}

fn place_of(lobby: &LobbySnapshot) -> (r: Option<(i64, i64)>)
    ensures
        r == match (lobby.message_ids.channel_id, lobby.message_ids.message_id) {
            (Some(channel_id), Some(message_id)) => Some((channel_id, message_id)),
            _ => None,
        },
{
    match (lobby.message_ids.channel_id, lobby.message_ids.message_id) {
        (Some(channel_id), Some(message_id)) => Some((channel_id, message_id)),
        _ => None,
    }
}

impl PoolFlow {
    /// Begins the repaint.
    pub fn start(guild_id: i64) -> (r: (PoolFlow, Turn<Refreshed>))
        ensures
            pool_starts(guild_id, r.0, r.1),
            r.1.goes_on(|action: Action| r.0.awaits(action)),
    {
        let scope = LobbyScope { guild_id, kind: LobbyKind::Open };
        (
            PoolFlow {
                guild_id,
                failures: Vec::new(),
                at: PoolAt::Reading { kind: LobbyKind::Open },
            },
            Turn::ask_after(vec![Action::Lock { scope }], Action::ReadLobby { scope }),
        )
    }

    /// Goes on with what came of the last question.
    pub fn resume(self, event: Event) -> (r: (PoolFlow, Turn<Refreshed>))
        ensures
            pool_step(self, event, r.0, r.1),
    {
        let PoolFlow { guild_id, failures, at } = self;
        match (at, event) {
            (PoolAt::Reading { kind }, Event::Lobby(lobby)) => {
                if let Some(lobby) = lobby {
                    if let Some((channel_id, message_id)) = place_of(&lobby) {
                        return (
                            PoolFlow {
                                guild_id,
                                failures,
                                at: PoolAt::Rendering { kind, channel_id, message_id },
                            },
                            Turn::ask(Action::RenderFunded { lobby }),
                        );
                    }
                }
                go_on(guild_id, kind, failures)
            },
            (
                PoolAt::Rendering { kind, channel_id, message_id },
                Event::Rendered(rendered),
            ) => {
                let model = match rendered {
                    Err(failure) => {
                        return fail(
                            guild_id,
                            kind,
                            failure.tell("first-game lobby render task failed: "),
                        );
                    },
                    Ok(model) => model,
                };
                match (to_u64(channel_id), to_u64(message_id)) {
                    (Ok(channel_id), Ok(message_id)) => (
                        PoolFlow { guild_id, failures, at: PoolAt::Editing { kind } },
                        Turn::ask(
                            Action::Edit { channel_id, message_id, message: lobby_card(model) },
                        ),
                    ),
                    (Err(text), _) => fail(guild_id, kind, text),
                    (_, Err(text)) => fail(guild_id, kind, text),
                }
            },
            (PoolAt::Editing { kind }, Event::Done(result)) => {
                let mut failures = failures;
                let ghost before = failures@;
                if let Err(error) = result {
                    failures.push(text3(lobby_kind_value(kind), ": ", error.as_str()));
                    assert(failures@.drop_last() =~= before);
                }
                go_on(guild_id, kind, failures)
            },
            (at, _) => (PoolFlow { guild_id, failures, at }, Turn::wait()),
        }
    }
}

/// The scope that the repaint holds.
pub open spec fn pool_holds(flow: PoolFlow) -> Option<LobbyScope> {
    match flow.at {
        PoolAt::Reading { kind } => Some(pool_scope(flow.guild_id, kind)),
        PoolAt::Rendering { kind, .. } => Some(pool_scope(flow.guild_id, kind)),
        PoolAt::Editing { kind } => Some(pool_scope(flow.guild_id, kind)),
        PoolAt::Over => None,
    }
}

/// The repaint holds the scope of one lobby at a time, and gives it free however it ends.
pub proof fn pool_repaints_keep_order(
    pre: PoolFlow,
    event: Event,
    post: PoolFlow,
    turn: Turn<Refreshed>,
)
    requires
        pool_step(pre, event, post, turn),
    ensures
        crate::locking::keeps_order(pool_holds(pre), turn, pool_holds(post)),
{
    reveal_with_fuel(crate::locking::orderly, 4);
    reveal_with_fuel(crate::locking::held_at_end, 4);
}

/// One lobby that cannot be repainted does not keep the other from it: after the open lobby was
/// dealt with, whether its message could be replaced or not, the low-skill lobby is taken.
pub proof fn pool_repaints_go_on_after_a_failure(
    pre: PoolFlow,
    result: Result<(), String>,
    post: PoolFlow,
    turn: Turn<Refreshed>,
)
    requires
        pre.at == (PoolAt::Editing { kind: LobbyKind::Open }),
        pool_step(pre, Event::Done(result), post, turn),
    ensures
        post.at == (PoolAt::Reading { kind: LobbyKind::LowSkill }),
{
}

impl PoolFlow {
    /// What is waited for: the answer to this question.
    pub open spec fn awaits(self, action: Action) -> bool {
        match self.at {
            PoolAt::Reading { .. } => action is ReadLobby,
            PoolAt::Rendering { .. } => action is RenderFunded,
            PoolAt::Editing { .. } => action is Edit,
            PoolAt::Over => false,
        }
    }
}

/// A refresh is never left waiting by the answer to what it asked for: it goes on to its end or to
/// its next question, and waits for the answer to that.
pub proof fn refreshes_go_on_when_answered(
    pre: PoolFlow,
    asked: Action,
    event: Event,
    post: PoolFlow,
    turn: Turn<Refreshed>,
)
    requires
        pool_step(pre, event, post, turn),
        pre.awaits(asked),
        asked.answered_by(event),
    ensures
        turn.goes_on(|action: Action| post.awaits(action)),
{
}

/// A run of the repaint: it starts, and every turn follows from what came of the one before.
pub open spec fn pool_run(
    guild_id: i64,
    first: Turn<Refreshed>,
    states: Seq<PoolFlow>,
    events: Seq<Event>,
    turns: Seq<Turn<Refreshed>>,
) -> bool {
    &&& states.len() == events.len() + 1
    &&& turns.len() == events.len()
    &&& pool_starts(guild_id, states[0], first)
    &&& forall|n: int|
        0 <= n < events.len() ==> pool_step(
            states[n],
            #[trigger] events[n],
            states[n + 1],
            turns[n],
        )
}

/// The messages that could not be replaced before turn `n` of the run: what went wrong, each
/// under the name of its lobby.
pub open spec fn failed_edits(states: Seq<PoolFlow>, events: Seq<Event>, n: int) -> Seq<Seq<char>>
    decreases n,
{
    if n <= 0 {
        Seq::empty()
    } else {
        let earlier = failed_edits(states, events, n - 1);
        match (states[n - 1].at, events[n - 1]) {
            (PoolAt::Editing { kind }, Event::Done(Err(error))) => earlier.push(
                crate::kinds::kind_value(kind) + ": "@ + error@,
            ),
            _ => earlier,
        }
    }
}

proof fn runs_note_failed_edits(
    guild_id: i64,
    first: Turn<Refreshed>,
    states: Seq<PoolFlow>,
    events: Seq<Event>,
    turns: Seq<Turn<Refreshed>>,
    n: int,
)
    requires
        pool_run(guild_id, first, states, events, turns),
        0 <= n < states.len(),
    ensures
        !(states[n].at is Over) ==> contents(states[n].failures@) == failed_edits(
            states,
            events,
            n,
        ),
    decreases n,
{
    if n == 0 {
        assert(contents(states[0].failures@) =~= Seq::empty());
    } else {
        runs_note_failed_edits(guild_id, first, states, events, turns, n - 1);
        let (pre, post) = (states[n - 1], states[n]);
        assert(pool_step(pre, events[n - 1], post, turns[n - 1]));
        if let (PoolAt::Editing { .. }, Event::Done(Err(_))) = (pre.at, events[n - 1]) {
            assert(contents(post.failures@) =~= contents(pre.failures@).push(
                post.failures@.last()@,
            )) by {
                assert(post.failures@ =~= pre.failures@.push(post.failures@.last()));
            }
        }
    }
}

/// Where both lobbies could be rendered, a repaint succeeds exactly where no message refused to
/// be replaced, and otherwise it reports every one that did.
pub proof fn pool_repaints_report_every_failure(
    guild_id: i64,
    first: Turn<Refreshed>,
    states: Seq<PoolFlow>,
    events: Seq<Event>,
    turns: Seq<Turn<Refreshed>>,
    n: int,
    result: Refreshed,
)
    requires
        pool_run(guild_id, first, states, events, turns),
        0 <= n < turns.len(),
        !(states[n].at is Rendering),
        turns[n].next == Next::<Refreshed>::End(result),
    ensures
        match result {
            Ok(_) => failed_edits(states, events, n + 1).len() == 0,
            Err(error) => failed_edits(states, events, n + 1).len() > 0 && error@
                == crate::text::joined(failed_edits(states, events, n + 1), "; "@),
        },
{
    runs_note_failed_edits(guild_id, first, states, events, turns, n);
    let (pre, post) = (states[n], states[n + 1]);
    assert(pool_step(pre, events[n], post, turns[n]));
    if let (PoolAt::Editing { .. }, Event::Done(Err(_))) = (pre.at, events[n]) {
        assert(post.failures@ =~= pre.failures@.push(post.failures@.last()));
        assert(contents(post.failures@) =~= contents(pre.failures@).push(post.failures@.last()@));
    }
}

proof fn runs_keep_their_guild(
    guild_id: i64,
    first: Turn<Refreshed>,
    states: Seq<PoolFlow>,
    events: Seq<Event>,
    turns: Seq<Turn<Refreshed>>,
    n: int,
)
    requires
        pool_run(guild_id, first, states, events, turns),
        0 <= n < states.len(),
    ensures
        states[n].at is Over || states[n].guild_id == guild_id,
    decreases n,
{
    if n > 0 {
        runs_keep_their_guild(guild_id, first, states, events, turns, n - 1);
        assert(pool_step(states[n - 1], events[n - 1], states[n], turns[n - 1]));
    }
}

/// A refresh of the pool concerns the lobbies of its own guild alone. It begins with the open lobby
/// and comes to the other one after it; each that is shown is rendered and repainted on its own
/// channel and message with what it was rendered to.
pub proof fn pool_repaints_show_both_lobbies(
    guild_id: i64,
    first: Turn<Refreshed>,
    states: Seq<PoolFlow>,
    events: Seq<Event>,
    turns: Seq<Turn<Refreshed>>,
    n: int,
    action: Action,
)
    requires
        pool_run(guild_id, first, states, events, turns),
        0 <= n < turns.len(),
    ensures
        first.next == Next::<Refreshed>::Ask(
            Action::ReadLobby { scope: LobbyScope { guild_id, kind: LobbyKind::Open } },
        ),
        turns[n].does(action) ==> (action.lobby() matches Some(scope) ==> scope.guild_id
            == guild_id),
        states[n].at matches PoolAt::Reading { kind } ==> (
        events[n] matches Event::Lobby(Some(lobby)) ==> (
        lobby.message_ids.channel_id matches Some(channel) ==> (
        lobby.message_ids.message_id matches Some(message) ==> turns[n].next == Next::<
            Refreshed,
        >::Ask(Action::RenderFunded { lobby }) && states[n + 1].at == (PoolAt::Rendering {
            kind,
            channel_id: channel,
            message_id: message,
        })))),
        states[n].at == (PoolAt::Reading { kind: LobbyKind::Open }) && events[n] == Event::Lobby(
            None,
        ) ==> turns[n].next == Next::<Refreshed>::Ask(
            Action::ReadLobby { scope: LobbyScope { guild_id, kind: LobbyKind::LowSkill } },
        ),
        states[n].at matches PoolAt::Rendering { channel_id, message_id, .. } ==> (
        events[n] matches Event::Rendered(Ok(model)) ==> (channel_id >= 0 && message_id >= 0 ==> (
        turns[n].next matches Next::Ask(Action::Edit { channel_id: on, message_id: at, message })
            && on == channel_id && at == message_id && message.content_mode is Preserve
            && message.allowed_mentions is Nobody && (message.response.embed matches Some(card)
            && crate::commands::optional_string(card.title) == crate::commands::optional_string(
            model.title,
        ) && crate::commands::optional_string(card.description) == crate::commands::optional_string(
            model.description,
        ) && card.fields@ == model.fields@ && card.footer == model.footer)))),
        states[n].at == (PoolAt::Editing { kind: LobbyKind::Open }) && events[n] is Done
            ==> turns[n].next == Next::<Refreshed>::Ask(
            Action::ReadLobby { scope: LobbyScope { guild_id, kind: LobbyKind::LowSkill } },
        ),
        states[n].at is Rendering ==> (events[n] matches Event::Rendered(Err(failure)) ==> (
        turns[n].next matches Next::End(Err(said)) && crate::text::contains_text(
            said@,
            failure.report@,
        ))),
{
    runs_keep_their_guild(guild_id, first, states, events, turns, n);
    assert(pool_step(states[n], events[n], states[n + 1], turns[n]));
    if let Event::Rendered(Err(failure)) = events[n] {
        crate::text::middles_stand(
            "first-game lobby render task failed: "@,
            failure.report@,
            Seq::empty(),
        );
        crate::text::texts_contain_themselves(failure.report@);
    }
}

} // verus!
