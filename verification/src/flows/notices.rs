//! Making joins and departures known: on the lobby's message, in its ready check, in its thread
//! and to the observer.
use vstd::prelude::*;
use crate::ids::to_unsigned;
use crate::ids::to_unsigned_option;
use crate::joining::ConfirmedLobbyJoin;
use crate::joining::Joiner;
use crate::joining::confirmed_join;
use crate::kinds::LobbyScope;
use crate::kinds::Wording;
use crate::lobby::LobbySnapshot;
use crate::message::DiscordAllowedMentions;
use crate::message::DiscordMessage;
use crate::protocol::Action;
use crate::protocol::Event;
use crate::protocol::Next;
use crate::protocol::Settings;
use crate::protocol::Turn;
use crate::protocol::post_silently;
use crate::text::tag_i64;
use crate::text::text3;
use crate::text::text5;

verus! {

/// A join being made known.
#[derive(Debug, PartialEq, Eq)]
pub struct JoinNotice {
    pub scope: LobbyScope,
    pub joiner: Joiner,
    pub raw_reaction: bool,
    pub over: bool,
}

/// What came of making a join known: what observers were told of it.
pub type Noticed = Option<ConfirmedLobbyJoin>;

/// A join shows on the lobby's message and in its ready check before the lobby is read.
pub open spec fn join_notice_starts(scope: LobbyScope, turn: Turn<Noticed>) -> bool {
    &&& turn.before@.len() == 2
    &&& turn.before@[0] == (Action::SyncDisplay { scope })
    &&& turn.before@[1] == (Action::SyncReadycheck { scope })
    &&& turn.next == Next::<Noticed>::Ask(Action::ReadLobby { scope })
}

/// What the thread of a lobby is told of a join.
pub open spec fn join_text(notice: JoinNotice, wording: Wording) -> Seq<char> {
    let tag = crate::text::tag(notice.joiner.player_id as int);
    if notice.raw_reaction {
        "✅ "@ + tag + " joined "@ + wording.label_of(notice.scope.kind) + "!"@
    } else {
        "✅ "@ + tag + " joined the lobby!"@
    }
}

/// The thread is told of the join if the lobby has one and Discord knows the player.
pub open spec fn join_thread(notice: JoinNotice, lobby: LobbySnapshot) -> Option<u64> {
    if notice.joiner.player_id >= 0 {
        crate::ids::unsigned_option(lobby.message_ids.thread_id)
    } else {
        None
    }
}

/// The action tells a thread of the join and calls the player there.
pub open spec fn tells_thread(
    action: Action,
    notice: JoinNotice,
    thread: u64,
    wording: Wording,
) -> bool {
    action matches Action::Send { channel_id, message } && channel_id == thread
        && crate::message::calling_text(
        message,
        join_text(notice, wording),
        seq![notice.joiner.player_id as u64],
    )
}

/// The lobby was read: its thread is told first, and then the observer, of the lobby as it is.
pub open spec fn join_noticed(
    notice: JoinNotice,
    lobby: LobbySnapshot,
    turn: Turn<Noticed>,
    settings: Settings,
) -> bool {
    let shown: int = if join_thread(notice, lobby) is Some {
        1
    } else {
        0
    };
    &&& join_thread(notice, lobby) matches Some(thread) ==> turn.before@.len() > 0 && tells_thread(
        turn.before@[0],
        notice,
        thread,
        settings.wording,
    )
    &&& if notice.scope.guild_id >= 0 && notice.joiner.player_id >= 0 {
        &&& turn.before@.len() == shown + 1
        &&& turn.next matches Next::End(Some(event)) && crate::joining::tells_of_join(
            event,
            notice.scope,
            notice.joiner,
            lobby,
            settings.config.ready_threshold,
        ) && (turn.before@[shown] matches Action::TellJoin { event: told }
            && crate::joining::same_join(told, event))
    } else {
        turn.before@.len() == shown && turn.next == Next::<Noticed>::End(None)
    }
}

/// One step of making a join known.
pub open spec fn join_notice_step(
    pre: JoinNotice,
    event: Event,
    post: JoinNotice,
    turn: Turn<Noticed>,
    settings: Settings,
) -> bool {
    match event {
        Event::Lobby(lobby) => if pre.over {
            post == pre && turn.waits()
        } else {
            &&& post == (JoinNotice { over: true, ..pre })
            &&& match lobby {
                None => turn.only_ends(None),
                Some(lobby) => join_noticed(pre, lobby, turn, settings),
            }
        },
        _ => post == pre && turn.waits(),
    }
}

fn tell_thread(notice: &JoinNotice, thread: u64, player: u64, wording: &Wording) -> (r: Action)
    requires
        player == notice.joiner.player_id,
    ensures
        tells_thread(r, *notice, thread, *wording),
{
    let tag = tag_i64(notice.joiner.player_id);
    let text = if notice.raw_reaction {
        text5("✅ ", tag.as_str(), " joined ", wording.label(notice.scope.kind), "!")
    } else {
        text3("✅ ", tag.as_str(), " joined the lobby!")
    };
    let users = vec![player];
    assert(users@ =~= seq![notice.joiner.player_id as u64]);
    Action::Send { channel_id: thread, message: DiscordMessage::calling(text, users) }
}

fn on_join_noticed(notice: &JoinNotice, lobby: LobbySnapshot, settings: &Settings) -> (r: Turn<
    Noticed,
>)
    ensures
        join_noticed(*notice, lobby, r, *settings),
{
    let mut before: Vec<Action> = Vec::new();
    match (
        to_unsigned_option(lobby.message_ids.thread_id),
        to_unsigned(notice.joiner.player_id),
    ) {
        (Some(thread), Some(player)) => {
            before.push(tell_thread(notice, thread, player, &settings.wording));
        },
        _ => {},
    }
    match confirmed_join(notice.scope, &notice.joiner, &lobby, settings.config.ready_threshold) {
        Some(event) => {
            before.push(Action::TellJoin { event: event.duplicate() });
            Turn::end_after(before, Some(event))
        },
        None => Turn::end_after(before, None),
    }
}

impl JoinNotice {
    /// Begins to make a join known.
    pub fn start(scope: LobbyScope, joiner: Joiner, raw_reaction: bool) -> (r: (
        JoinNotice,
        Turn<Noticed>,
    ))
        ensures
            r.0 == (JoinNotice { scope, joiner, raw_reaction, over: false }),
            join_notice_starts(scope, r.1),
            r.1.goes_on(|action: Action| r.0.awaits(action)),
    {
        (
            JoinNotice { scope, joiner, raw_reaction, over: false },
            Turn::ask_after(
                vec![Action::SyncDisplay { scope }, Action::SyncReadycheck { scope }],
                Action::ReadLobby { scope },
            ),
        )
    }

    /// Goes on with what came of the last question.
    pub fn resume(self, event: Event, settings: &Settings) -> (r: (JoinNotice, Turn<Noticed>))
        ensures
            join_notice_step(self, event, r.0, r.1, *settings),
    {
        let mut notice = self;
        if notice.over {
            return (notice, Turn::wait());
        }
        match event {
            Event::Lobby(lobby) => {
                let turn = match lobby {
                    None => Turn::end(None),
                    Some(lobby) => on_join_noticed(&notice, lobby, settings),
                };
                notice.over = true;
                (notice, turn)
            },
            _ => (notice, Turn::wait()),
        }
    }
}

/// A departure being made known.
#[derive(Debug, PartialEq, Eq)]
pub struct LeaveNotice {
    pub scope: LobbyScope,
    pub player_id: i64,
    pub display_name: String,
    pub raw_reaction: bool,
    pub over: bool,
}

/// A departure shows on the lobby's message, in its ready check and by the reaction taken off,
/// before the lobby is read.
pub open spec fn leave_notice_starts(scope: LobbyScope, player_id: i64, turn: Turn<()>) -> bool {
    &&& turn.before@.len() == 3
    &&& turn.before@[0] == (Action::SyncDisplay { scope })
    &&& turn.before@[1] == (Action::SyncReadycheck { scope })
    &&& turn.before@[2] == (Action::RemoveReaction { scope, player_id })
    &&& turn.next == Next::<()>::Ask(Action::ReadLobby { scope })
}

/// What the thread of a lobby is told of a departure.
pub open spec fn leave_text(notice: LeaveNotice, wording: Wording) -> Seq<char> {
    if notice.raw_reaction {
        "🚪 "@ + notice.display_name@ + " left "@ + wording.label_of(notice.scope.kind) + "."@
    } else {
        "🚪 **"@ + notice.display_name@ + "** left the lobby."@
    }
}

/// One step of making a departure known: once the lobby is read, its thread is told.
pub open spec fn leave_notice_step(
    pre: LeaveNotice,
    event: Event,
    post: LeaveNotice,
    turn: Turn<()>,
    wording: Wording,
) -> bool {
    match event {
        Event::Lobby(lobby) => if pre.over {
            post == pre && turn.waits()
        } else {
            &&& post == (LeaveNotice { over: true, ..pre })
            &&& turn.next == Next::End(())
            &&& match crate::flows::kick::thread_of(lobby) {
                Some(thread) => turn.before@.len() == 1 && crate::protocol::posts_silently(
                    turn.before@[0],
                    thread,
                    leave_text(pre, wording),
                ),
                None => turn.before@.len() == 0,
            }
        },
        _ => post == pre && turn.waits(),
    }
}

impl LeaveNotice {
    /// Begins to make a departure known.
    pub fn start(
        scope: LobbyScope,
        player_id: i64,
        display_name: String,
        raw_reaction: bool,
    ) -> (r: (LeaveNotice, Turn<()>))
        ensures
            r.0 == (LeaveNotice { scope, player_id, display_name, raw_reaction, over: false }),
            leave_notice_starts(scope, player_id, r.1),
            r.1.goes_on(|action: Action| r.0.awaits(action)),
    {
        (
            LeaveNotice { scope, player_id, display_name, raw_reaction, over: false },
            Turn::ask_after(
                vec![
                    Action::SyncDisplay { scope },
                    Action::SyncReadycheck { scope },
                    Action::RemoveReaction { scope, player_id },
                ],
                Action::ReadLobby { scope },
            ),
        )
    }

    /// Goes on with what came of the last question.
    pub fn resume(self, event: Event, wording: &Wording) -> (r: (LeaveNotice, Turn<()>))
        ensures
            leave_notice_step(self, event, r.0, r.1, *wording),
    {
        let mut notice = self;
        if notice.over {
            return (notice, Turn::wait());
        }
        match event {
            Event::Lobby(lobby) => {
                let thread = match lobby {
                    Some(lobby) => to_unsigned_option(lobby.message_ids.thread_id),
                    None => None,
                };
                let turn = match thread {
                    Some(thread) => {
                        let name = notice.display_name.as_str();
                        let text = if notice.raw_reaction {
                            text5("🚪 ", name, " left ", wording.label(notice.scope.kind), ".")
                        } else {
                            text3("🚪 **", name, "** left the lobby.")
                        };
                        Turn::end_after(vec![post_silently(thread, text)], ())
                    },
                    None => Turn::end(()),
                };
                notice.over = true;
                (notice, turn)
            },
            _ => (notice, Turn::wait()),
        }
    }
}

/// A join is shown before it is told: the message and the ready check of the lobby are brought
/// up to date in the first turn, and the observer is told last of all, of the very event that is
/// handed on.
pub proof fn observers_are_told_last(
    pre: JoinNotice,
    event: Event,
    post: JoinNotice,
    turn: Turn<Noticed>,
    settings: Settings,
    i: int,
    told: ConfirmedLobbyJoin,
)
    requires
        join_notice_step(pre, event, post, turn, settings),
        0 <= i < turn.before@.len(),
        turn.before@[i] == (Action::TellJoin { event: told }),
    ensures
        i == turn.before@.len() - 1,
        turn.next matches Next::End(Some(event)) && crate::joining::same_join(told, event),
{
}

/// Making joins known leaves every lobby as it is.
pub proof fn join_notices_leave_lobbies_alone(
    pre: JoinNotice,
    event: Event,
    post: JoinNotice,
    turn: Turn<Noticed>,
    settings: Settings,
)
    requires
        join_notice_step(pre, event, post, turn, settings),
    ensures
        crate::locking::leaves_lobbies_alone(turn),
{
}

/// Making departures known leaves every lobby as it is.
pub proof fn leave_notices_leave_lobbies_alone(
    pre: LeaveNotice,
    event: Event,
    post: LeaveNotice,
    turn: Turn<()>,
    wording: Wording,
)
    requires
        leave_notice_step(pre, event, post, turn, wording),
    ensures
        crate::locking::leaves_lobbies_alone(turn),
{
}

/// Making a join known may notify the joiner alone.
pub proof fn join_notices_notify_only_the_joiner(
    pre: JoinNotice,
    event: Event,
    post: JoinNotice,
    turn: Turn<Noticed>,
    settings: Settings,
    i: int,
    channel: u64,
    message: DiscordMessage,
)
    requires
        join_notice_step(pre, event, post, turn, settings),
        0 <= i < turn.before@.len(),
        turn.before@[i] == (Action::Send { channel_id: channel, message }),
    ensures
        pre.joiner.player_id >= 0,
        message.allowed_mentions matches DiscordAllowedMentions::Users(users) && users@ == set![
            pre.joiner.player_id as u64,
        ],
{
    let player = pre.joiner.player_id as u64;
    let users = seq![player];
    assert(users[0] == player);
    assert(users.to_set() =~= set![player]);
}

/// Making a departure known notifies nobody.
pub proof fn leave_notices_notify_nobody(
    pre: LeaveNotice,
    event: Event,
    post: LeaveNotice,
    turn: Turn<()>,
    wording: Wording,
    i: int,
    channel: u64,
    message: DiscordMessage,
)
    requires
        leave_notice_step(pre, event, post, turn, wording),
        0 <= i < turn.before@.len(),
        turn.before@[i] == (Action::Send { channel_id: channel, message }),
    ensures
        message.allowed_mentions is Nobody,
{
}

impl JoinNotice {
    /// What is waited for: the answer to this question.
    pub open spec fn awaits(self, action: Action) -> bool {
        !self.over && action is ReadLobby
    }
}

/// The notice of a join is never left waiting by the answer to what it asked for: it goes on to its
/// end or to its next question, and waits for the answer to that.
pub proof fn join_notices_go_on_when_answered(
    pre: JoinNotice,
    asked: Action,
    event: Event,
    post: JoinNotice,
    turn: Turn<Noticed>,
    settings: Settings,
)
    requires
        join_notice_step(pre, event, post, turn, settings),
        pre.awaits(asked),
        asked.answered_by(event),
    ensures
        turn.goes_on(|action: Action| post.awaits(action)),
{
}

impl LeaveNotice {
    /// What is waited for: the answer to this question.
    pub open spec fn awaits(self, action: Action) -> bool {
        !self.over && action is ReadLobby
    }
}

/// The notice of a departure is never left waiting by the answer to what it asked for: it goes on
/// to its end or to its next question, and waits for the answer to that.
pub proof fn leave_notices_go_on_when_answered(
    pre: LeaveNotice,
    asked: Action,
    event: Event,
    post: LeaveNotice,
    turn: Turn<()>,
    wording: Wording,
)
    requires
        leave_notice_step(pre, event, post, turn, wording),
        pre.awaits(asked),
        asked.answered_by(event),
    ensures
        turn.goes_on(|action: Action| post.awaits(action)),
{
}

/// A join makes the message and the ready check of its own lobby follow before that lobby is read.
pub proof fn join_notices_begin_in_their_lobby(scope: LobbyScope, turn: Turn<Noticed>)
    requires
        join_notice_starts(scope, turn),
    ensures
        turn.does(Action::SyncDisplay { scope }),
        turn.does(Action::SyncReadycheck { scope }),
        turn.next == Next::<Noticed>::Ask(Action::ReadLobby { scope }),
{
    assert(turn.before@.contains(turn.before@[0]));
    assert(turn.before@.contains(turn.before@[1]));
}

/// A departure makes the message and the ready check of its own lobby follow, and takes the reaction
/// of the player who left off, before that lobby is read.
pub proof fn leave_notices_begin_in_their_lobby(scope: LobbyScope, player_id: i64, turn: Turn<()>)
    requires
        leave_notice_starts(scope, player_id, turn),
    ensures
        turn.does(Action::SyncDisplay { scope }),
        turn.does(Action::SyncReadycheck { scope }),
        turn.does(Action::RemoveReaction { scope, player_id }),
        turn.next == Next::<()>::Ask(Action::ReadLobby { scope }),
{
    assert(turn.before@.contains(turn.before@[0]));
    assert(turn.before@.contains(turn.before@[1]));
    assert(turn.before@.contains(turn.before@[2]));
}

/// A join is told of as it happened: in the thread of the lobby, by the tag of the player and, for a
/// reaction, the label of the lobby; and to the observer, with the names and the moment of the join,
/// everybody who is in the lobby now, and where it is shown.
pub proof fn joins_are_told_of_as_they_happened(
    pre: JoinNotice,
    post: JoinNotice,
    turn: Turn<Noticed>,
    settings: Settings,
    lobby: LobbySnapshot,
    id: u64,
)
    requires
        join_notice_step(pre, Event::Lobby(Some(lobby)), post, turn, settings),
        !pre.over,
        pre.joiner.player_id >= 0,
    ensures
        lobby.message_ids.thread_id matches Some(thread) ==> (thread >= 0 ==> turn.before@.len() > 0
            && (turn.before@[0] matches Action::Send { channel_id, message } && channel_id == thread
            && crate::text::contains_text(
            message.response.content@,
            crate::text::tag(pre.joiner.player_id as int),
        ) && (pre.raw_reaction ==> crate::text::contains_text(
            message.response.content@,
            settings.wording.label_of(pre.scope.kind),
        )))),
        pre.scope.guild_id >= 0 ==> (turn.next matches Next::End(Some(told)) && {
            &&& turn.before@.len() > 0
            &&& turn.before@.last() matches Action::TellJoin { event } && event.player_id
                == told.player_id && event.guild_id == told.guild_id && event.joined_at_ns
                == told.joined_at_ns && event.lobby_kind == told.lobby_kind
            &&& told.guild_id == pre.scope.guild_id
            &&& told.lobby_kind == pre.scope.kind
            &&& told.player_id == pre.joiner.player_id
            &&& told.player_name == pre.joiner.name
            &&& told.player_display_name == pre.joiner.display_name
            &&& told.joined_at_ns == pre.joiner.joined_at_ns
            &&& told.player_ids@.contains(id) <==> id <= i64::MAX && lobby.players@.contains(
                id as i64,
            )
            &&& told.ready_threshold == settings.config.ready_threshold
            &&& lobby.message_ids.thread_id matches Some(thread) ==> (thread >= 0 ==> told.thread_id
                == Some(thread as u64))
            &&& lobby.message_ids.channel_id matches Some(channel) ==> (channel >= 0
                ==> told.lobby_channel_id == Some(channel as u64))
            &&& lobby.message_ids.message_id matches Some(message) ==> (message >= 0
                ==> told.lobby_message_id == Some(message as u64))
            &&& lobby.message_ids.origin_channel_id matches Some(origin) ==> (origin >= 0
                ==> told.origin_channel_id == Some(origin as u64))
        }),
{
    let tag = crate::text::tag(pre.joiner.player_id as int);
    let label = settings.wording.label_of(pre.scope.kind);
    crate::text::middles_stand("✅ "@, tag, " joined the lobby!"@);
    crate::text::middles_stand("✅ "@ + tag + " joined "@, label, "!"@);
    crate::text::middles_stand("✅ "@, tag, " joined "@ + label + "!"@);
    assert("✅ "@ + tag + " joined "@ + label + "!"@ =~= "✅ "@ + tag + (" joined "@ + label
        + "!"@));
}

/// A departure is told of in the thread of the lobby under the name of the player who left and, for a
/// reaction, with the label of the lobby.
pub proof fn departures_are_told_of_by_name(
    pre: LeaveNotice,
    post: LeaveNotice,
    turn: Turn<()>,
    wording: Wording,
    lobby: LobbySnapshot,
)
    requires
        leave_notice_step(pre, Event::Lobby(Some(lobby)), post, turn, wording),
        !pre.over,
    ensures
        turn.next == Next::End(()),
        lobby.message_ids.thread_id matches Some(thread) ==> (thread >= 0 ==> turn.before@.len() == 1
            && (turn.before@[0] matches Action::Send { channel_id, message } && channel_id == thread
            && crate::text::contains_text(message.response.content@, pre.display_name@) && (
        pre.raw_reaction ==> crate::text::contains_text(
            message.response.content@,
            wording.label_of(pre.scope.kind),
        )))),
        lobby.message_ids.thread_id is None ==> turn.before@.len() == 0,
{
    let name = pre.display_name@;
    let label = wording.label_of(pre.scope.kind);
    crate::text::middles_stand("🚪 **"@, name, "** left the lobby."@);
    crate::text::middles_stand("🚪 "@ + name + " left "@, label, "."@);
    crate::text::middles_stand("🚪 "@, name, " left "@ + label + "."@);
    assert("🚪 "@ + name + " left "@ + label + "."@ =~= "🚪 "@ + name + (" left "@ + label + "."@));
}

} // verus!
