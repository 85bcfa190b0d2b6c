//! `/kick`: puts a player out of the lobbies they are in.
use vstd::prelude::*;
use crate::answers::Handled;
use crate::answers::SERVER_ONLY;
use crate::answers::answer;
use crate::answers::conclude;
use crate::answers::err;
use crate::answers::give_up;
use crate::commands::CommandContext;
use crate::commands::HandlerError;
use crate::commands::SelectedUser;
use crate::commands::selected_string;
use crate::commands::selected_user;
use crate::config::LobbyRuntimeConfig;
use crate::ids::to_u64;
use crate::ids::to_unsigned_option;
use crate::kinds::LobbyKind;
use crate::kinds::LobbyScope;
use crate::kinds::copy_kinds;
use crate::kinds::first_kind;
use crate::lobby::LobbySnapshot;
use crate::message::DiscordMessage;
use crate::moderation::ModerationSource;
use crate::moderation::suspension_scope;
use crate::protocol::Action;
use crate::protocol::Event;
use crate::protocol::KickRecord;
use crate::protocol::Next;
use crate::protocol::Turn;
use crate::protocol::WorkFailure;
use crate::protocol::post_silently;
use crate::protocol::whisper_back;
use crate::text::tag_i64;
use crate::text::text3;
use crate::text::text5;

verus! {

/// The answer to somebody who may not kick the player.
pub const KICK_DENIED: &'static str = "❌ Permission denied. Admin or lobby creator only.";

/// The answer to somebody who tries to kick themselves.
pub const KICK_SELF: &'static str =
    "❌ You can't kick yourself. Use the Leave button in the lobby thread.";

/// Who is to be kicked, where, and on whose authority.
#[derive(Debug, PartialEq, Eq)]
pub struct KickJob {
    pub guild_id: i64,
    pub target: SelectedUser,
    pub by_admin: bool,
}

/// Where the command stands.
#[derive(Debug, PartialEq, Eq)]
pub enum KickAt {
    /// The command is being acknowledged.
    Deferring,
    /// The lobbies of the player are being looked up.
    Looking { job: KickJob },
    /// A lobby is being read, to see whether the invoker leads it.
    Screening { job: KickJob, kind: LobbyKind, rest: Vec<LobbyKind>, kickable: Vec<LobbyKind> },
    /// The player is being taken out of a lobby.
    Removing { job: KickJob, kind: LobbyKind, rest: Vec<LobbyKind>, kicked: Vec<LobbyKind> },
    /// The lobby is being read, to tell its thread.
    Telling { job: KickJob, kind: LobbyKind, rest: Vec<LobbyKind>, kicked: Vec<LobbyKind> },
    /// The labels of the lobbies are being put together.
    Labelling { job: KickJob, kicked: Vec<LobbyKind> },
    /// The kick is being answered; its records follow.
    Answering { job: KickJob, kicked: Vec<LobbyKind> },
    /// The last answer is being sent.
    Closing,
    /// Nothing is left to be done.
    Over,
}

/// The `/kick` command in progress.
#[derive(Debug, PartialEq, Eq)]
pub struct KickFlow {
    pub command: CommandContext,
    pub at: KickAt,
}

/// The lobby is led by this user, who is in it.
pub open spec fn leads(lobby: Option<LobbySnapshot>, user_id: i64) -> bool {
    lobby matches Some(lobby) && lobby.created_by == Some(user_id) && lobby.players@.contains(
        user_id,
    )
}

/// The scope of a lobby of the guild.
pub open spec fn job_scope(job: KickJob, kind: LobbyKind) -> LobbyScope {
    LobbyScope { guild_id: job.guild_id, kind }
}

/// Acknowledged: the lobbies of the player are looked up.
pub open spec fn kick_deferred(
    command: CommandContext,
    config: LobbyRuntimeConfig,
    post: KickAt,
    turn: Turn<Handled>,
) -> bool {
    match command.place() {
        None => post is Closing && crate::answers::answers(turn, SERVER_ONLY@),
        Some((guild_id, channel_id)) => exists|selected: Result<
            Option<SelectedUser>,
            HandlerError,
        >|
            {
                &&& #[trigger] crate::commands::user_selection(
                    command.options@,
                    "player"@,
                    selected,
                )
                &&& match selected {
                    Err(error) => post is Over && crate::answers::errs(turn, None, error),
                    Ok(None) => {
                        &&& post is Over
                        &&& turn.before@.len() == 0
                        &&& turn.next matches Next::End(Err(error))
                            && crate::commands::rejects_value(error, "missing player"@)
                    },
                    Ok(Some(target)) => {
                        &&& post == (KickAt::Looking {
                            job: KickJob {
                                guild_id,
                                target,
                                by_admin: command.administers(config),
                            },
                        })
                        &&& turn.only_asks(
                            Action::ReadMemberships { guild_id, player_id: target.id },
                        )
                    },
                }
            },
    }
}

/// The lobbies of the player are known: an administrator may kick from all of them, anybody
/// else from those they lead.
pub open spec fn kick_looked(
    command: CommandContext,
    job: KickJob,
    kinds: Seq<LobbyKind>,
    post: KickAt,
    turn: Turn<Handled>,
) -> bool {
    if kinds.len() == 0 {
        post is Closing && crate::answers::answers(
            turn,
            "⚠️ "@ + crate::text::tag(job.target.id as int) + " is not in a lobby."@,
        )
    } else if job.by_admin {
        kick_decides(command, job, kinds, post, turn)
    } else {
        kick_screens(command, job, kinds, Seq::empty(), post, turn)
    }
}

/// The next lobby is read, to see whether the invoker leads it; after the last one the kick is
/// decided.
pub open spec fn kick_screens(
    command: CommandContext,
    job: KickJob,
    kinds: Seq<LobbyKind>,
    kickable: Seq<LobbyKind>,
    post: KickAt,
    turn: Turn<Handled>,
) -> bool {
    if kinds.len() == 0 {
        kick_decides(command, job, kickable, post, turn)
    } else {
        &&& post matches KickAt::Screening { job: j, kind, rest, kickable: k } && j == job && kind
            == kinds[0] && rest@ == kinds.drop_first() && k@ == kickable
        &&& turn.only_asks(Action::ReadLobby { scope: job_scope(job, kinds[0]) })
    }
}

/// The kick is decided: it needs a lobby to kick from, and nobody kicks themselves.
pub open spec fn kick_decides(
    command: CommandContext,
    job: KickJob,
    kickable: Seq<LobbyKind>,
    post: KickAt,
    turn: Turn<Handled>,
) -> bool {
    if kickable.len() == 0 {
        post is Closing && crate::answers::answers(turn, KICK_DENIED@)
    } else if job.target.id == command.user_id {
        post is Closing && crate::answers::answers(turn, KICK_SELF@)
    } else {
        kick_goes_on(job, kickable, Seq::empty(), Seq::empty(), post, turn)
    }
}

/// The player is taken out of the next lobby, under its scope; after the last one the outcome is
/// put into words. These actions come before.
pub open spec fn kick_goes_on(
    job: KickJob,
    kinds: Seq<LobbyKind>,
    kicked: Seq<LobbyKind>,
    done: Seq<Action>,
    post: KickAt,
    turn: Turn<Handled>,
) -> bool {
    if kinds.len() > 0 {
        let scope = job_scope(job, kinds[0]);
        &&& post matches KickAt::Removing { job: j, kind, rest, kicked: k } && j == job && kind
            == kinds[0] && rest@ == kinds.drop_first() && k@ == kicked
        &&& turn.before@ == done.push(Action::Lock { scope })
        &&& turn.next == Next::<Handled>::Ask(Action::Leave { player_id: job.target.id, scope })
    } else if kicked.len() == 0 {
        &&& post is Closing
        &&& turn.before@ == done
        &&& turn.next matches Next::Ask(action) && crate::protocol::whispers(
            action,
            "❌ Failed to kick "@ + crate::text::tag(job.target.id as int) + "."@,
        )
    } else {
        &&& post matches KickAt::Labelling { job: j, kicked: k } && j == job && k@ == kicked
        &&& turn.before@ == done
        &&& turn.next matches Next::Ask(Action::JoinLabels { kinds: shown }) && shown@ == kicked
    }
}

/// The player was taken out of a lobby, or had not been in it: a departure shows in the ready
/// check, on the lobby's message and in its thread.
pub open spec fn kick_removed(
    job: KickJob,
    kind: LobbyKind,
    rest: Seq<LobbyKind>,
    kicked: Seq<LobbyKind>,
    removed: Result<bool, WorkFailure>,
    post: KickAt,
    turn: Turn<Handled>,
) -> bool {
    let scope = job_scope(job, kind);
    match removed {
        Err(error) => post is Over && crate::answers::gives_up(turn, Some(scope), error.report@),
        Ok(false) => kick_goes_on(job, rest, kicked, seq![Action::Unlock { scope }], post, turn),
        Ok(true) => {
            &&& post matches KickAt::Telling { job: j, kind: n, rest: r, kicked: k } && j == job
                && n == kind && r@ == rest && k@ == kicked.push(kind)
            &&& turn.before@.len() == 3
            &&& turn.before@[0] == (Action::SyncReadycheck { scope })
            &&& turn.before@[1] == (Action::SyncDisplay { scope })
            &&& turn.before@[2] == (Action::RemoveReaction { scope, player_id: job.target.id })
            &&& turn.next == Next::<Handled>::Ask(Action::ReadLobby { scope })
        },
    }
}

/// What the thread of a lobby is told of a kick.
pub open spec fn kick_thread_text(job: KickJob, command: CommandContext) -> Seq<char> {
    "👢 **"@ + job.target.name@ + "** was kicked by "@ + command.user_display_name@ + "."@
}

/// The thread that a lobby has, as Discord knows it.
pub open spec fn thread_of(lobby: Option<LobbySnapshot>) -> Option<u64> {
    match lobby {
        Some(lobby) => crate::ids::unsigned_option(lobby.message_ids.thread_id),
        None => None,
    }
}

/// The lobby was read: its thread is told, the scope is given free, and the next lobby is next.
pub open spec fn kick_told(
    command: CommandContext,
    job: KickJob,
    kind: LobbyKind,
    rest: Seq<LobbyKind>,
    kicked: Seq<LobbyKind>,
    lobby: Option<LobbySnapshot>,
    post: KickAt,
    turn: Turn<Handled>,
) -> bool {
    let free = Action::Unlock { scope: job_scope(job, kind) };
    match thread_of(lobby) {
        Some(thread) => {
            &&& turn.before@.len() > 0
            &&& crate::protocol::posts_silently(
                turn.before@[0],
                thread,
                kick_thread_text(job, command),
            )
            &&& kick_goes_on(job, rest, kicked, seq![turn.before@[0], free], post, turn)
        },
        None => kick_goes_on(job, rest, kicked, seq![free], post, turn),
    }
}

/// What a kicked player is told in private.
pub open spec fn kick_notice(command: CommandContext, labels: Seq<char>) -> Seq<char> {
    let notice = "You were kicked from "@ + labels + " by "@ + crate::text::tag(
        command.user_id as int,
    ) + "."@;
    match crate::commands::first_text(command.options@, "reason"@) {
        Some(reason) => notice + "\nReason: "@ + reason,
        None => notice,
    }
}

/// The labels are put together: the player is told in private, and the kick is answered.
pub open spec fn kick_labelled(
    command: CommandContext,
    job: KickJob,
    kicked: Vec<LobbyKind>,
    labels: Seq<char>,
    post: KickAt,
    turn: Turn<Handled>,
) -> bool {
    if job.target.id < 0 {
        post is Over && crate::answers::gives_up(
            turn,
            None,
            crate::ids::bad_snowflake_text(job.target.id as int),
        )
    } else {
        &&& post == (KickAt::Answering { job, kicked })
        &&& turn.before@.len() == 1
        &&& turn.before@[0] matches Action::DirectMessage { user_id, message } && user_id
            == job.target.id && crate::message::silent_text(message, kick_notice(command, labels))
        &&& turn.next matches Next::Ask(action) && crate::protocol::whispers(
            action,
            "✅ Kicked "@ + crate::text::tag(job.target.id as int) + " from "@ + labels + "."@,
        )
    }
}

/// The record of a kick from a lobby of this kind.
pub open spec fn records(
    action: Action,
    command: CommandContext,
    job: KickJob,
    kind: LobbyKind,
) -> bool {
    action matches Action::RecordKick { record } && record.discord_id == job.target.id
        && record.guild_id == job.guild_id && record.actor_id == command.user_id
        && record.lobby_kind == crate::moderation::scope_of_kind(kind)
        && crate::commands::optional_string(record.reason) == crate::commands::first_text(
        command.options@,
        "reason"@,
    ) && record.source == if job.by_admin {
        ModerationSource::Admin
    } else {
        ModerationSource::Creator
    }
}

/// The actions record the kicks from these lobbies, in order.
pub open spec fn records_all(
    actions: Seq<Action>,
    command: CommandContext,
    job: KickJob,
    kicked: Seq<LobbyKind>,
) -> bool {
    &&& actions.len() == kicked.len()
    &&& forall|i: int|
        0 <= i < kicked.len() ==> records(#[trigger] actions[i], command, job, kicked[i])
}

/// The kick was answered: it is recorded, and the fate of the answer ends the command.
pub open spec fn kick_answered(
    command: CommandContext,
    job: KickJob,
    kicked: Seq<LobbyKind>,
    result: Result<(), String>,
    post: KickAt,
    turn: Turn<Handled>,
) -> bool {
    &&& post is Over
    &&& records_all(turn.before@, command, job, kicked)
    &&& match result {
        Ok(_) => turn.next == Next::<Handled>::End(Ok(())),
        Err(text) => turn.next matches Next::End(Err(error)) && crate::commands::reports(
            error,
            text@,
        ),
    }
}

/// The beginning of `/kick`: it is acknowledged in private.
pub open spec fn kick_starts(command: CommandContext, post: KickFlow, turn: Turn<Handled>) -> bool {
    &&& post == (KickFlow { command, at: KickAt::Deferring })
    &&& turn.only_asks(Action::Defer { ephemeral: true })
}

/// One step of `/kick`.
pub open spec fn kick_step(
    pre: KickFlow,
    event: Event,
    post: KickFlow,
    turn: Turn<Handled>,
    config: LobbyRuntimeConfig,
) -> bool {
    let command = pre.command;
    &&& post.command == command
    &&& match (pre.at, event) {
        (KickAt::Deferring, Event::Done(Err(error))) => post.at is Over
            && crate::answers::gives_up(turn, None, error@),
        (KickAt::Deferring, Event::Done(Ok(_))) => kick_deferred(command, config, post.at, turn),
        (KickAt::Looking { job }, Event::Kinds(kinds)) => kick_looked(
            command,
            job,
            kinds@,
            post.at,
            turn,
        ),
        (KickAt::Screening { job, kind, rest, kickable }, Event::Lobby(lobby)) => kick_screens(
            command,
            job,
            rest@,
            if leads(lobby, command.user_id) {
                kickable@.push(kind)
            } else {
                kickable@
            },
            post.at,
            turn,
        ),
        (KickAt::Removing { job, kind, rest, kicked }, Event::Outcome(removed)) => kick_removed(
            job,
            kind,
            rest@,
            kicked@,
            removed,
            post.at,
            turn,
        ),
        (KickAt::Telling { job, kind, rest, kicked }, Event::Lobby(lobby)) => kick_told(
            command,
            job,
            kind,
            rest@,
            kicked@,
            lobby,
            post.at,
            turn,
        ),
        (KickAt::Labelling { job, kicked }, Event::Text(labels)) => kick_labelled(
            command,
            job,
            kicked,
            labels@,
            post.at,
            turn,
        ),
        (KickAt::Answering { job, kicked }, Event::Done(result)) => kick_answered(
            command,
            job,
            kicked@,
            result,
            post.at,
            turn,
        ),
        (KickAt::Closing, Event::Done(result)) => post.at is Over && crate::answers::concludes(
            turn,
            None,
            result,
        ),
        _ => post.at == pre.at && turn.waits(),
    }
}

fn on_deferred(command: &CommandContext, config: &LobbyRuntimeConfig) -> (r: (
    KickAt,
    Turn<Handled>,
))
    ensures
        kick_deferred(*command, *config, r.0, r.1),
{
    let guild_id = match command.guild_channel() {
        None => {
            return (KickAt::Closing, answer(SERVER_ONLY.to_owned()));
        },
        Some((guild_id, _)) => guild_id,
    };
    let selected = selected_user(&command.options, "player");
    let ghost found = selected;
    assert(crate::commands::user_selection(command.options@, "player"@, found));
    match selected {
        Err(error) => (KickAt::Over, err(None, error)),
        Ok(None) => (
            KickAt::Over,
            Turn::end(Err(HandlerError::Transformer { value: "missing player".to_owned() })),
        ),
        Ok(Some(target)) => {
            let player_id = target.id;
            let by_admin = command.is_admin(config);
            (
                KickAt::Looking { job: KickJob { guild_id, target, by_admin } },
                Turn::ask(Action::ReadMemberships { guild_id, player_id }),
            )
        },
    }
}

fn scope_in(job: &KickJob, kind: LobbyKind) -> (r: LobbyScope)
    ensures
        r == job_scope(*job, kind),
{
    LobbyScope { guild_id: job.guild_id, kind }
}

fn go_on(job: KickJob, kinds: Vec<LobbyKind>, kicked: Vec<LobbyKind>, done: Vec<Action>) -> (r: (
    KickAt,
    Turn<Handled>,
))
    ensures
        kick_goes_on(job, kinds@, kicked@, done@, r.0, r.1),
{
    let (first, rest) = first_kind(kinds);
    if let Some(kind) = first {
        let scope = scope_in(&job, kind);
        let player_id = job.target.id;
        let mut before = done;
        before.push(Action::Lock { scope });
        return (
            KickAt::Removing { job, kind, rest, kicked },
            Turn::ask_after(before, Action::Leave { player_id, scope }),
        );
    }
    if kicked.len() == 0 {
        let text = text3("❌ Failed to kick ", tag_i64(job.target.id).as_str(), ".");
        return (KickAt::Closing, Turn::ask_after(done, whisper_back(text)));
    }
    let shown = copy_kinds(&kicked);
    (
        KickAt::Labelling { job, kicked },
        Turn::ask_after(done, Action::JoinLabels { kinds: shown }),
    )
}

fn decide(command: &CommandContext, job: KickJob, kickable: Vec<LobbyKind>) -> (r: (
    KickAt,
    Turn<Handled>,
))
    ensures
        kick_decides(*command, job, kickable@, r.0, r.1),
{
    if kickable.len() == 0 {
        return (KickAt::Closing, answer(KICK_DENIED.to_owned()));
    }
    if job.target.id == command.user_id {
        return (KickAt::Closing, answer(KICK_SELF.to_owned()));
    }
    go_on(job, kickable, Vec::new(), Vec::new())
}

fn screen(
    command: &CommandContext,
    job: KickJob,
    kinds: Vec<LobbyKind>,
    kickable: Vec<LobbyKind>,
) -> (r: (KickAt, Turn<Handled>))
    ensures
        kick_screens(*command, job, kinds@, kickable@, r.0, r.1),
{
    let (first, rest) = first_kind(kinds);
    match first {
        None => decide(command, job, kickable),
        Some(kind) => {
            let scope = scope_in(&job, kind);
            (
                KickAt::Screening { job, kind, rest, kickable },
                Turn::ask(Action::ReadLobby { scope }),
            )
        },
    }
}

fn on_looked(command: &CommandContext, job: KickJob, kinds: Vec<LobbyKind>) -> (r: (
    KickAt,
    Turn<Handled>,
))
    ensures
        kick_looked(*command, job, kinds@, r.0, r.1),
{
    if kinds.len() == 0 {
        let text = text3("⚠️ ", tag_i64(job.target.id).as_str(), " is not in a lobby.");
        return (KickAt::Closing, answer(text));
    }
    if job.by_admin {
        return decide(command, job, kinds);
    }
    screen(command, job, kinds, Vec::new())
}

fn led_by(lobby: &Option<LobbySnapshot>, user_id: i64) -> (r: bool)
    ensures
        r == leads(*lobby, user_id),
{
    match lobby {
        Some(lobby) => match lobby.created_by {
            Some(creator) => creator == user_id && lobby.players.contains(&user_id),
            None => false,
        },
        None => false,
    }
}

fn on_screened(
    command: &CommandContext,
    job: KickJob,
    kind: LobbyKind,
    rest: Vec<LobbyKind>,
    kickable: Vec<LobbyKind>,
    lobby: Option<LobbySnapshot>,
) -> (r: (KickAt, Turn<Handled>))
    ensures
        kick_screens(
            *command,
            job,
            rest@,
            if leads(lobby, command.user_id) {
                kickable@.push(kind)
            } else {
                kickable@
            },
            r.0,
            r.1,
        ),
{
    let mut kickable = kickable;
    if led_by(&lobby, command.user_id) {
        kickable.push(kind);
    }
    screen(command, job, rest, kickable)
}

fn on_removed(
    job: KickJob,
    kind: LobbyKind,
    rest: Vec<LobbyKind>,
    kicked: Vec<LobbyKind>,
    removed: Result<bool, WorkFailure>,
) -> (r: (KickAt, Turn<Handled>))
    ensures
        kick_removed(job, kind, rest@, kicked@, removed, r.0, r.1),
{
    let scope = scope_in(&job, kind);
    match removed {
        Err(error) => (KickAt::Over, give_up(Some(scope), error.report)),
        Ok(false) => {
            let done = vec![Action::Unlock { scope }];
            assert(done@ =~= seq![Action::Unlock { scope }]);
            go_on(job, rest, kicked, done)
        },
        Ok(true) => {
            let mut kicked = kicked;
            kicked.push(kind);
            let before = vec![
                Action::SyncReadycheck { scope },
                Action::SyncDisplay { scope },
                Action::RemoveReaction { scope, player_id: job.target.id },
            ];
            (
                KickAt::Telling { job, kind, rest, kicked },
                Turn::ask_after(before, Action::ReadLobby { scope }),
            )
        },
    }
}

fn thread(lobby: &Option<LobbySnapshot>) -> (r: Option<u64>)
    ensures
        r == thread_of(*lobby),
{
    match lobby {
        Some(lobby) => to_unsigned_option(lobby.message_ids.thread_id),
        None => None,
    }
}

fn on_told(
    command: &CommandContext,
    job: KickJob,
    kind: LobbyKind,
    rest: Vec<LobbyKind>,
    kicked: Vec<LobbyKind>,
    lobby: Option<LobbySnapshot>,
) -> (r: (KickAt, Turn<Handled>))
    ensures
        kick_told(*command, job, kind, rest@, kicked@, lobby, r.0, r.1),
{
    let scope = scope_in(&job, kind);
    match thread(&lobby) {
        Some(thread) => {
            let text = text5(
                "👢 **",
                job.target.name.as_str(),
                "** was kicked by ",
                command.user_display_name.as_str(),
                ".",
            );
            let tell = post_silently(thread, text);
            let ghost told = tell;
            let done = vec![tell, Action::Unlock { scope }];
            assert(done@ =~= seq![told, Action::Unlock { scope }]);
            let r = go_on(job, rest, kicked, done);
            assert(r.1.before@[0] == told);
            r
        },
        None => {
            let done = vec![Action::Unlock { scope }];
            assert(done@ =~= seq![Action::Unlock { scope }]);
            go_on(job, rest, kicked, done)
        },
    }
}

fn on_labelled(
    command: &CommandContext,
    job: KickJob,
    kicked: Vec<LobbyKind>,
    labels: &str,
) -> (r: (KickAt, Turn<Handled>))
    ensures
        kick_labelled(*command, job, kicked, labels@, r.0, r.1),
{
    let user_id = match to_u64(job.target.id) {
        Err(text) => {
            return (KickAt::Over, give_up(None, text));
        },
        Ok(user_id) => user_id,
    };
    let mut notice = text5(
        "You were kicked from ",
        labels,
        " by ",
        tag_i64(command.user_id).as_str(),
        ".",
    );
    if let Some(reason) = selected_string(&command.options, "reason") {
        notice.append("\nReason: ");
        notice.append(reason);
    }
    let text = text5("✅ Kicked ", tag_i64(job.target.id).as_str(), " from ", labels, ".");
    let tell = Action::DirectMessage { user_id, message: DiscordMessage::silent(notice) };
    (
        KickAt::Answering { job, kicked },
        Turn::ask_after(vec![tell], whisper_back(text)),
    )
}

fn record(command: &CommandContext, job: &KickJob, kind: LobbyKind) -> (r: Action)
    ensures
        records(r, *command, *job, kind),
{
    let reason = match selected_string(&command.options, "reason") {
        Some(reason) => Some(reason.to_owned()),
        None => None,
    };
    let source = if job.by_admin {
        ModerationSource::Admin
    } else {
        ModerationSource::Creator
    };
    Action::RecordKick {
        record: KickRecord {
            discord_id: job.target.id,
            guild_id: job.guild_id,
            actor_id: command.user_id,
            lobby_kind: suspension_scope(kind),
            reason,
            source,
        },
    }
}

fn on_answered(
    command: &CommandContext,
    job: KickJob,
    kicked: Vec<LobbyKind>,
    result: Result<(), String>,
) -> (r: (KickAt, Turn<Handled>))
    ensures
        kick_answered(*command, job, kicked@, result, r.0, r.1),
{
    let mut before: Vec<Action> = Vec::new();
    let mut i: usize = 0;
    while i < kicked.len()
        invariant
            i <= kicked.len(),
            before@.len() == i,
            forall|k: int|
                0 <= k < i ==> records(#[trigger] before@[k], *command, job, kicked@[k]),
        decreases kicked.len() - i,
    {
        before.push(record(command, &job, kicked[i]));
        i = i + 1;
    }
    let handled = match result {
        Ok(_) => Ok(()),
        Err(text) => Err(HandlerError::Message(text)),
    };
    (KickAt::Over, Turn::end_after(before, handled))
}

impl KickFlow {
    /// Begins the command.
    pub fn start(command: CommandContext) -> (r: (KickFlow, Turn<Handled>))
        ensures
            kick_starts(command, r.0, r.1),
            r.1.goes_on(|action: Action| r.0.awaits(action)),
    {
        (
            KickFlow { command, at: KickAt::Deferring },
            Turn::ask(Action::Defer { ephemeral: true }),
        )
    }

    /// Goes on with what came of the last question.
    pub fn resume(self, event: Event, config: &LobbyRuntimeConfig) -> (r: (KickFlow, Turn<Handled>))
        ensures
            kick_step(self, event, r.0, r.1, *config),
    {
        let KickFlow { command, at } = self;
        let (at, turn) = match (at, event) {
            (KickAt::Deferring, Event::Done(Err(error))) => (KickAt::Over, give_up(None, error)),
            (KickAt::Deferring, Event::Done(Ok(_))) => on_deferred(&command, config),
            (KickAt::Looking { job }, Event::Kinds(kinds)) => on_looked(&command, job, kinds),
            (KickAt::Screening { job, kind, rest, kickable }, Event::Lobby(lobby)) => on_screened(
                &command,
                job,
                kind,
                rest,
                kickable,
                lobby,
            ),
            (KickAt::Removing { job, kind, rest, kicked }, Event::Outcome(removed)) => on_removed(
                job,
                kind,
                rest,
                kicked,
                removed,
            ),
            (KickAt::Telling { job, kind, rest, kicked }, Event::Lobby(lobby)) => on_told(
                &command,
                job,
                kind,
                rest,
                kicked,
                lobby,
            ),
            (KickAt::Labelling { job, kicked }, Event::Text(labels)) => on_labelled(
                &command,
                job,
                kicked,
                labels.as_str(),
            ),
            (KickAt::Answering { job, kicked }, Event::Done(result)) => on_answered(
                &command,
                job,
                kicked,
                result,
            ),
            (KickAt::Closing, Event::Done(result)) => (KickAt::Over, conclude(None, result)),
            (at, _) => (at, Turn::wait()),
        };
        (KickFlow { command, at }, turn)
    }
}

/// The scope that the command holds.
pub open spec fn kick_holds(at: KickAt) -> Option<LobbyScope> {
    match at {
        KickAt::Removing { job, kind, .. } => Some(job_scope(job, kind)),
        KickAt::Telling { job, kind, .. } => Some(job_scope(job, kind)),
        _ => None,
    }
}

/// `/kick` changes a lobby only while it holds its scope, holds one scope at a time, and gives
/// it free however it ends.
pub proof fn kicks_keep_order(
    pre: KickFlow,
    event: Event,
    post: KickFlow,
    turn: Turn<Handled>,
    config: LobbyRuntimeConfig,
)
    requires
        kick_step(pre, event, post, turn, config),
    ensures
        crate::locking::keeps_order(kick_holds(pre.at), turn, kick_holds(post.at)),
{
    reveal_with_fuel(crate::locking::orderly, 5);
    reveal_with_fuel(crate::locking::held_at_end, 5);
    if let KickAt::Answering { job, kicked } = pre.at {
        if event is Done {
            records_are_orderly(turn.before@, pre.command, job, kicked@);
        }
    }
}

proof fn records_are_orderly(
    actions: Seq<Action>,
    command: CommandContext,
    job: KickJob,
    kicked: Seq<LobbyKind>,
)
    requires
        records_all(actions, command, job, kicked),
    ensures
        crate::locking::orderly(None, actions),
        crate::locking::held_at_end(None, actions) is None,
    decreases actions.len(),
{
    if actions.len() > 0 {
        assert(records(actions[0], command, job, kicked[0]));
        assert(records_all(actions.drop_first(), command, job, kicked.drop_first())) by {
            assert forall|i: int| 0 <= i < kicked.drop_first().len() implies records(
                #[trigger] actions.drop_first()[i],
                command,
                job,
                kicked.drop_first()[i],
            ) by {
                assert(records(actions[i + 1], command, job, kicked[i + 1]));
            }
        }
        records_are_orderly(actions.drop_first(), command, job, kicked.drop_first());
    }
}

/// A run of `/kick`: it starts, and every turn follows from what came of the one before.
pub open spec fn kick_run(
    command: CommandContext,
    config: LobbyRuntimeConfig,
    states: Seq<KickFlow>,
    events: Seq<Event>,
    turns: Seq<Turn<Handled>>,
) -> bool {
    &&& states.len() == events.len() + 1
    &&& turns.len() == events.len()
    &&& states[0] == (KickFlow { command, at: KickAt::Deferring })
    &&& forall|n: int|
        0 <= n < events.len() ==> kick_step(
            states[n],
            #[trigger] events[n],
            states[n + 1],
            turns[n],
            config,
        )
}

/// Before turn `n` of the run, the invoker was seen to lead the lobby of this kind.
pub open spec fn seen_to_lead(
    command: CommandContext,
    states: Seq<KickFlow>,
    events: Seq<Event>,
    n: int,
    wanted: LobbyKind,
) -> bool {
    exists|m: int|
        0 <= m < n && m < events.len() && (#[trigger] states[m].at matches KickAt::Screening {
            kind,
            ..
        } && kind == wanted) && (events[m] matches Event::Lobby(lobby) && leads(
            lobby,
            command.user_id,
        ))
}

/// The lobbies that a state of the run still has to kick from.
pub open spec fn due(at: KickAt) -> Seq<LobbyKind> {
    match at {
        KickAt::Screening { kickable, .. } => kickable@,
        KickAt::Removing { kind, rest, .. } => seq![kind] + rest@,
        KickAt::Telling { kind, rest, .. } => rest@,
        _ => Seq::empty(),
    }
}

spec fn authorized(
    command: CommandContext,
    config: LobbyRuntimeConfig,
    states: Seq<KickFlow>,
    events: Seq<Event>,
    n: int,
) -> bool {
    &&& states[n].command == command
    &&& match states[n].at {
        KickAt::Looking { job } => job.by_admin == command.administers(config),
        KickAt::Screening { job, .. } => job.by_admin == command.administers(config),
        KickAt::Removing { job, .. } => job.target.id != command.user_id,
        KickAt::Telling { job, .. } => job.target.id != command.user_id,
        _ => true,
    }
    &&& forall|i: int|
        0 <= i < due(states[n].at).len() ==> command.administers(config) || seen_to_lead(
            command,
            states,
            events,
            n,
            #[trigger] due(states[n].at)[i],
        )
}

proof fn runs_are_authorized(
    command: CommandContext,
    config: LobbyRuntimeConfig,
    states: Seq<KickFlow>,
    events: Seq<Event>,
    turns: Seq<Turn<Handled>>,
    n: int,
)
    requires
        kick_run(command, config, states, events, turns),
        0 <= n < states.len(),
    ensures
        authorized(command, config, states, events, n),
    decreases n,
{
    if n > 0 {
        runs_are_authorized(command, config, states, events, turns, n - 1);
        let pre = states[n - 1];
        let post = states[n];
        let event = events[n - 1];
        assert(kick_step(pre, event, post, turns[n - 1], config));
        let before = due(pre.at);
        let after = due(post.at);
        assert forall|i: int| 0 <= i < after.len() implies command.administers(config)
            || seen_to_lead(command, states, events, n, #[trigger] after[i]) by {
            if !command.administers(config) {
                let wanted = after[i];
                if exists|k: int| 0 <= k < before.len() && #[trigger] before[k] == wanted {
                    let k = choose|k: int| 0 <= k < before.len() && #[trigger] before[k] == wanted;
                    assert(seen_to_lead(command, states, events, n - 1, before[k]));
                    let m = choose|m: int|
                        0 <= m < n - 1 && m < events.len() && (#[trigger] states[m].at matches
                            KickAt::Screening { kind, .. } && kind == wanted) && (
                        events[m] matches Event::Lobby(lobby) && leads(lobby, command.user_id));
                    assert(states[m].at is Screening);
                    assert(seen_to_lead(command, states, events, n, wanted));
                } else {
                    match pre.at {
                        KickAt::Screening { kind, rest, kickable, .. } => {
                            if event matches Event::Lobby(lobby) && leads(lobby, command.user_id) {
                                let all = kickable@.push(kind);
                                assert(all[i] == after[i]) by {
                                    if post.at is Removing {
                                        assert(all =~= after);
                                    }
                                }
                                assert(i < kickable@.len() ==> before[i] == wanted);
                                assert(states[n - 1].at is Screening);
                                assert(seen_to_lead(command, states, events, n, wanted));
                            } else {
                                assert(kickable@ =~= after);
                                assert(before[i] == wanted);
                            }
                        },
                        KickAt::Removing { kind, rest, .. } => {
                            if post.at is Removing {
                                if event is Outcome {
                                    assert(rest@ =~= after);
                                    assert(before[i + 1] == wanted);
                                } else {
                                    assert(before[i] == wanted);
                                }
                            } else {
                                assert(before[i + 1] == wanted);
                            }
                        },
                        KickAt::Telling { kind, rest, .. } => {
                            if post.at is Removing {
                                assert(rest@ =~= after);
                            }
                            assert(before[i] == wanted);
                        },
                        _ => {},
                    }
                }
            }
        }
    }
}

/// Nobody is kicked without the right to it. Whenever a run of `/kick` takes a player out of a
/// lobby, the invoker has administrator rights, or was seen earlier in the run to have created
/// that lobby and to be in it; and it is never the invoker who is taken out.
pub proof fn kicks_are_authorized(
    command: CommandContext,
    config: LobbyRuntimeConfig,
    states: Seq<KickFlow>,
    events: Seq<Event>,
    turns: Seq<Turn<Handled>>,
    n: int,
    player: i64,
    scope: LobbyScope,
)
    requires
        kick_run(command, config, states, events, turns),
        0 <= n < turns.len(),
        turns[n].next == Next::<Handled>::Ask(Action::Leave { player_id: player, scope }),
    ensures
        command.administers(config) || seen_to_lead(command, states, events, n + 1, scope.kind),
        player != command.user_id,
{
    assert(kick_step(states[n], events[n], states[n + 1], turns[n], config));
    runs_are_authorized(command, config, states, events, turns, n + 1);
    let after = states[n + 1].at;
    assert(after is Removing);
    assert(due(after)[0] == scope.kind);
}

/// The reason of a kick stays between the moderators and the player: whatever `/kick` posts to a
/// channel says only who was kicked by whom and notifies nobody.
pub proof fn kick_reason_stays_private(
    pre: KickFlow,
    event: Event,
    post: KickFlow,
    turn: Turn<Handled>,
    config: LobbyRuntimeConfig,
    i: int,
    channel: u64,
    message: DiscordMessage,
)
    requires
        kick_step(pre, event, post, turn, config),
        0 <= i < turn.before@.len(),
        turn.before@[i] == (Action::Send { channel_id: channel, message }),
    ensures
        pre.at matches KickAt::Telling { job, kind, rest, kicked } && crate::message::silent_text(
            message,
            kick_thread_text(job, pre.command),
        ),
{
    if let KickAt::Answering { job, kicked } = pre.at {
        if event is Done {
            assert(records(turn.before@[i], pre.command, job, kicked@[i]));
        }
    }
}

/// The turn writes to somebody in private.
pub open spec fn writes_in_private(turn: Turn<Handled>) -> bool {
    ||| exists|i: int| 0 <= i < turn.before@.len() && #[trigger] turn.before@[i] is DirectMessage
    ||| (turn.next matches Next::Ask(action) && action is DirectMessage)
}

proof fn only_labelled_kicks_write(
    pre: KickFlow,
    event: Event,
    post: KickFlow,
    turn: Turn<Handled>,
    config: LobbyRuntimeConfig,
)
    requires
        kick_step(pre, event, post, turn, config),
    ensures
        writes_in_private(turn) ==> pre.at is Labelling && post.at is Answering,
        pre.at is Answering || pre.at is Over ==> post.at is Answering || post.at is Over,
{
    if let KickAt::Answering { job, kicked } = pre.at {
        if event is Done {
            assert forall|i: int| 0 <= i < turn.before@.len() implies !(
            #[trigger] turn.before@[i] is DirectMessage) by {
                assert(records(turn.before@[i], pre.command, job, kicked@[i]));
            }
        }
    }
}

proof fn answered_kicks_stay_answered(
    command: CommandContext,
    config: LobbyRuntimeConfig,
    states: Seq<KickFlow>,
    events: Seq<Event>,
    turns: Seq<Turn<Handled>>,
    from: int,
    to: int,
)
    requires
        kick_run(command, config, states, events, turns),
        0 <= from <= to < states.len(),
        states[from].at is Answering || states[from].at is Over,
    ensures
        states[to].at is Answering || states[to].at is Over,
    decreases to - from,
{
    if from < to {
        answered_kicks_stay_answered(command, config, states, events, turns, from, to - 1);
        assert(kick_step(states[to - 1], events[to - 1], states[to], turns[to - 1], config));
        only_labelled_kicks_write(
            states[to - 1],
            events[to - 1],
            states[to],
            turns[to - 1],
            config,
        );
    }
}

/// The player is written to at most once in a kick, however many lobbies they are put out of: of
/// two turns of a run, at most one writes in private.
pub proof fn kicked_player_is_written_to_once(
    command: CommandContext,
    config: LobbyRuntimeConfig,
    states: Seq<KickFlow>,
    events: Seq<Event>,
    turns: Seq<Turn<Handled>>,
    n: int,
    m: int,
)
    requires
        kick_run(command, config, states, events, turns),
        0 <= n < m < turns.len(),
        writes_in_private(turns[n]),
    ensures
        !writes_in_private(turns[m]),
{
    assert(kick_step(states[n], events[n], states[n + 1], turns[n], config));
    only_labelled_kicks_write(states[n], events[n], states[n + 1], turns[n], config);
    answered_kicks_stay_answered(command, config, states, events, turns, n + 1, m);
    assert(kick_step(states[m], events[m], states[m + 1], turns[m], config));
    only_labelled_kicks_write(states[m], events[m], states[m + 1], turns[m], config);
}

impl KickFlow {
    /// What is waited for: the answer to this question.
    pub open spec fn awaits(self, action: Action) -> bool {
        match self.at {
            KickAt::Deferring => action is Defer,
            KickAt::Looking { .. } => action is ReadMemberships,
            KickAt::Screening { .. } => action is ReadLobby,
            KickAt::Removing { .. } => action is Leave,
            KickAt::Telling { .. } => action is ReadLobby,
            KickAt::Labelling { .. } => action is JoinLabels,
            KickAt::Answering { .. } => action is Reply,
            KickAt::Closing => action is Reply,
            KickAt::Over => false,
        }
    }
}

/// `/kick` is never left waiting by the answer to what it asked for: it goes on to its end or to
/// its next question, and waits for the answer to that.
pub proof fn kicks_go_on_when_answered(
    pre: KickFlow,
    asked: Action,
    event: Event,
    post: KickFlow,
    turn: Turn<Handled>,
    config: LobbyRuntimeConfig,
)
    requires
        kick_step(pre, event, post, turn, config),
        pre.awaits(asked),
        asked.answered_by(event),
    ensures
        turn.goes_on(|action: Action| post.awaits(action)),
{
}

/// The lobbies that the player was taken out of before turn `n` of the run, in order.
pub open spec fn taken_out(states: Seq<KickFlow>, events: Seq<Event>, n: int) -> Seq<LobbyKind>
    decreases n,
{
    if n <= 0 {
        Seq::empty()
    } else {
        let earlier = taken_out(states, events, n - 1);
        match (states[n - 1].at, events[n - 1]) {
            (KickAt::Removing { kind, .. }, Event::Outcome(Ok(true))) => earlier.push(kind),
            _ => earlier,
        }
    }
}

proof fn runs_know_their_kicks(
    command: CommandContext,
    config: LobbyRuntimeConfig,
    states: Seq<KickFlow>,
    events: Seq<Event>,
    turns: Seq<Turn<Handled>>,
    n: int,
)
    requires
        kick_run(command, config, states, events, turns),
        0 <= n < states.len(),
    ensures
        states[n].command == command,
        match states[n].at {
            KickAt::Removing { kicked, .. } => kicked@ == taken_out(states, events, n),
            KickAt::Telling { kicked, .. } => kicked@ == taken_out(states, events, n),
            KickAt::Labelling { kicked, .. } => kicked@ == taken_out(states, events, n),
            KickAt::Answering { kicked, .. } => kicked@ == taken_out(states, events, n),
            KickAt::Closing => true,
            KickAt::Over => true,
            _ => taken_out(states, events, n).len() == 0,
        },
    decreases n,
{
    if n > 0 {
        runs_know_their_kicks(command, config, states, events, turns, n - 1);
        assert(kick_step(states[n - 1], events[n - 1], states[n], turns[n - 1], config));
        let earlier = taken_out(states, events, n - 1);
        if earlier.len() == 0 {
            assert(earlier =~= Seq::empty());
        }
    }
}

/// What a kick says and records is what happened: the labels it answers with are those of the
/// lobbies that the player was taken out of in this run, and it is these kicks that are recorded,
/// one record each.
pub proof fn kicks_are_recorded_where_they_happened(
    command: CommandContext,
    config: LobbyRuntimeConfig,
    states: Seq<KickFlow>,
    events: Seq<Event>,
    turns: Seq<Turn<Handled>>,
    n: int,
)
    requires
        kick_run(command, config, states, events, turns),
        0 <= n < turns.len(),
    ensures
        turns[n].next matches Next::Ask(Action::JoinLabels { kinds }) ==> kinds@ == taken_out(
            states,
            events,
            n + 1,
        ),
        states[n].at matches KickAt::Answering { job, .. } ==> (events[n] is Done ==> records_all(
            turns[n].before@,
            command,
            job,
            taken_out(states, events, n),
        )),
{
    runs_know_their_kicks(command, config, states, events, turns, n);
    runs_know_their_kicks(command, config, states, events, turns, n + 1);
    assert(kick_step(states[n], events[n], states[n + 1], turns[n], config));
}

/// The player whom a kick is about, where it is known.
pub open spec fn kick_job(at: KickAt) -> Option<KickJob> {
    match at {
        KickAt::Looking { job } => Some(job),
        KickAt::Screening { job, .. } => Some(job),
        KickAt::Removing { job, .. } => Some(job),
        KickAt::Telling { job, .. } => Some(job),
        KickAt::Labelling { job, .. } => Some(job),
        KickAt::Answering { job, .. } => Some(job),
        _ => None,
    }
}

proof fn runs_keep_their_job(
    command: CommandContext,
    config: LobbyRuntimeConfig,
    states: Seq<KickFlow>,
    events: Seq<Event>,
    turns: Seq<Turn<Handled>>,
    n: int,
)
    requires
        kick_run(command, config, states, events, turns),
        0 <= n < states.len(),
    ensures
        states[n].command == command,
        kick_job(states[n].at) matches Some(job) ==> {
            &&& command.guild_id == Some(job.guild_id)
            &&& job.by_admin == command.administers(config)
            &&& crate::commands::user_selection(
                command.options@,
                "player"@,
                Ok::<Option<SelectedUser>, HandlerError>(Some(job.target)),
            )
        },
    decreases n,
{
    if n > 0 {
        runs_keep_their_job(command, config, states, events, turns, n - 1);
        assert(kick_step(states[n - 1], events[n - 1], states[n], turns[n - 1], config));
    }
}

/// Whatever a kick does, it does to the player whom the command names, and in the lobbies of the
/// guild it was used in: nobody else is looked up, taken out, written to or put on record.
pub proof fn kicks_reach_the_named_player(
    command: CommandContext,
    config: LobbyRuntimeConfig,
    states: Seq<KickFlow>,
    events: Seq<Event>,
    turns: Seq<Turn<Handled>>,
    i: int,
    n: int,
    action: Action,
)
    requires
        kick_run(command, config, states, events, turns),
        0 <= i < command.options@.len(),
        command.options@[i].name@ == "player"@,
        forall|j: int| 0 <= j < i ==> (#[trigger] command.options@[j]).name@ != "player"@,
        0 <= n < turns.len(),
        turns[n].does(action),
    ensures
        action.player() matches Some(player) ==> (
        command.options@[i].value matches crate::commands::InteractionValue::User { id, .. }
            && player == id),
        action matches Action::DirectMessage { user_id, .. } ==> (
        command.options@[i].value matches crate::commands::InteractionValue::User { id, .. }
            && user_id == id),
        action.lobby() matches Some(scope) ==> command.guild_id == Some(scope.guild_id),
        action.guild() matches Some(guild) ==> command.guild_id == Some(guild),
{
    runs_keep_their_job(command, config, states, events, turns, n);
    runs_keep_their_job(command, config, states, events, turns, n + 1);
    let (pre, event, post, turn) = (states[n], events[n], states[n + 1], turns[n]);
    assert(kick_step(pre, event, post, turn, config));
    if let Some(job) = kick_job(pre.at) {
        crate::commands::the_named_user_is_chosen(
            command.options@,
            "player"@,
            i,
            Ok(Some(job.target)),
        );
    }
    if let Some(job) = kick_job(post.at) {
        crate::commands::the_named_user_is_chosen(
            command.options@,
            "player"@,
            i,
            Ok(Some(job.target)),
        );
    }
    if let KickAt::Answering { job, kicked } = pre.at {
        if event is Done && turn.before@.contains(action) {
            let k = choose|k: int| 0 <= k < turn.before@.len() && turn.before@[k] == action;
            assert(records(turn.before@[k], command, job, kicked@[k]));
        }
    }
}

/// A kick takes in every lobby it may: all that the player is in if the invoker has the rights of
/// an administrator, and otherwise those that were created by the invoker and that the invoker is
/// in. It tries each of them in turn, and none that it may not.
pub proof fn kicks_take_in_every_lobby_they_may(
    pre: KickFlow,
    event: Event,
    post: KickFlow,
    turn: Turn<Handled>,
    config: LobbyRuntimeConfig,
)
    requires
        kick_step(pre, event, post, turn, config),
        kick_job(pre.at) matches Some(job) ==> job.target.id != pre.command.user_id,
    ensures
        pre.at matches KickAt::Looking { job } ==> (event matches Event::Kinds(kinds) ==> (kinds@.len()
            > 0 ==> (if job.by_admin {
            due(post.at) == kinds@ && post.at is Removing
        } else {
            &&& post.at matches KickAt::Screening { kind, rest, kickable, .. } && seq![kind] + rest@
                == kinds@ && kickable@.len() == 0
            &&& turn.next == Next::<Handled>::Ask(
                Action::ReadLobby { scope: LobbyScope { guild_id: job.guild_id, kind: kinds@[0] } },
            )
        }))),
        pre.at matches KickAt::Screening { job, kind, rest, kickable } ==> (event matches Event::Lobby(
            lobby,
        ) ==> {
            let led = lobby matches Some(lobby) && lobby.created_by == Some(pre.command.user_id)
                && lobby.players@.contains(pre.command.user_id);
            let now = if led {
                kickable@ + seq![kind]
            } else {
                kickable@
            };
            &&& rest@.len() > 0 ==> (post.at matches KickAt::Screening {
                kind: k,
                rest: r,
                kickable: sofar,
                ..
            } && seq![k] + r@ == rest@ && sofar@ == now) && turn.next == Next::<Handled>::Ask(
                Action::ReadLobby { scope: LobbyScope { guild_id: job.guild_id, kind: rest@[0] } },
            )
            &&& rest@.len() == 0 && now.len() > 0 ==> post.at is Removing && due(post.at) == now
            &&& rest@.len() == 0 && now.len() == 0 ==> (turn.next matches Next::Ask(action)
                && crate::protocol::tells_invoker(action, KICK_DENIED@))
        }),
        pre.at matches KickAt::Removing { job, rest, .. } ==> (event == Event::Outcome(Ok(false))
            && rest@.len() > 0 ==> post.at is Removing && due(post.at) == rest@),
        pre.at matches KickAt::Telling { job, rest, .. } ==> (event is Lobby && rest@.len() > 0
            ==> post.at is Removing && due(post.at) == rest@),
        post.at matches KickAt::Removing { job, kind, .. } ==> (!(pre.at is Removing && turn.waits())
            ==> turn.next == Next::<Handled>::Ask(
            Action::Leave {
                player_id: job.target.id,
                scope: LobbyScope { guild_id: job.guild_id, kind },
            },
        )),
{
    crate::text::texts_contain_themselves(KICK_DENIED@);
    if let (KickAt::Looking { job }, Event::Kinds(kinds)) = (pre.at, event) {
        if kinds@.len() > 0 {
            assert(seq![kinds@[0]] + kinds@.drop_first() =~= kinds@);
        }
    }
    if let (KickAt::Screening { kind, rest, kickable, .. }, Event::Lobby(lobby)) = (pre.at, event) {
        let led = lobby matches Some(lobby) && lobby.created_by == Some(pre.command.user_id)
            && lobby.players@.contains(pre.command.user_id);
        let now = if led {
            kickable@ + seq![kind]
        } else {
            kickable@
        };
        assert(kickable@ + seq![kind] =~= kickable@.push(kind));
        if rest@.len() > 0 {
            assert(seq![rest@[0]] + rest@.drop_first() =~= rest@);
        }
        if now.len() > 0 {
            assert(seq![now[0]] + now.drop_first() =~= now);
        }
    }
    if let KickAt::Removing { rest, .. } = pre.at {
        if rest@.len() > 0 {
            assert(seq![rest@[0]] + rest@.drop_first() =~= rest@);
        }
    }
    if let KickAt::Telling { rest, .. } = pre.at {
        if rest@.len() > 0 {
            assert(seq![rest@[0]] + rest@.drop_first() =~= rest@);
        }
    }
}

/// A player who was taken out leaves nothing behind: the ready check and the message of that lobby
/// follow, their reaction goes, and its thread is told who was kicked by whom.
pub proof fn kicked_players_are_cleared_away(
    pre: KickFlow,
    event: Event,
    post: KickFlow,
    turn: Turn<Handled>,
    config: LobbyRuntimeConfig,
)
    requires
        kick_step(pre, event, post, turn, config),
    ensures
        pre.at matches KickAt::Removing { job, kind, .. } ==> (event == Event::Outcome(Ok(true)) ==> {
            let scope = LobbyScope { guild_id: job.guild_id, kind };
            &&& turn.does(Action::SyncReadycheck { scope })
            &&& turn.does(Action::SyncDisplay { scope })
            &&& turn.does(Action::RemoveReaction { scope, player_id: job.target.id })
            &&& turn.does(Action::ReadLobby { scope })
        }),
        pre.at matches KickAt::Telling { job, kind, .. } ==> (event matches Event::Lobby(Some(lobby))
            ==> (lobby.message_ids.thread_id matches Some(thread) ==> (thread >= 0
            ==> turn.before@.len() > 0 && (turn.before@[0] matches Action::Send { channel_id, message }
            && channel_id == thread && crate::text::contains_text(
            message.response.content@,
            job.target.name@,
        ) && crate::text::contains_text(
            message.response.content@,
            pre.command.user_display_name@,
        ))))),
{
    if pre.at is Removing && event == Event::Outcome(Ok(true)) {
        assert(turn.before@.contains(turn.before@[0]));
        assert(turn.before@.contains(turn.before@[1]));
        assert(turn.before@.contains(turn.before@[2]));
    }
    if let KickAt::Telling { job, .. } = pre.at {
        let by = pre.command.user_display_name@;
        crate::text::middles_stand(
            "👢 **"@ + job.target.name@ + "** was kicked by "@,
            by,
            "."@,
        );
        crate::text::middles_stand("👢 **"@, job.target.name@, "** was kicked by "@ + by + "."@);
        assert("👢 **"@ + job.target.name@ + "** was kicked by "@ + by + "."@ =~= "👢 **"@
            + job.target.name@ + ("** was kicked by "@ + by + "."@));
    }
}

/// What is said of a kick: the player learns in private from which lobbies they were kicked, by
/// whom and for the reason that was given; the invoker learns who was kicked from where, or why
/// nobody was.
pub proof fn kicks_are_made_known(
    pre: KickFlow,
    event: Event,
    post: KickFlow,
    turn: Turn<Handled>,
    config: LobbyRuntimeConfig,
    reason: Option<Seq<char>>,
)
    requires
        kick_step(pre, event, post, turn, config),
        crate::commands::given_text(pre.command.options@, "reason"@, reason),
    ensures
        pre.at matches KickAt::Labelling { job, .. } ==> (event matches Event::Text(labels) ==> (
        job.target.id >= 0 ==> {
            &&& turn.before@.len() == 1
            &&& turn.before@[0] matches Action::DirectMessage { user_id, message } && user_id
                == job.target.id && crate::text::contains_text(
                message.response.content@,
                labels@,
            ) && crate::text::contains_text(
                message.response.content@,
                crate::text::tag(pre.command.user_id as int),
            ) && (reason matches Some(reason) ==> crate::text::contains_text(
                message.response.content@,
                reason,
            ))
            &&& turn.next matches Next::Ask(action) && crate::protocol::tells_invoker(
                action,
                labels@,
            ) && crate::protocol::tells_invoker(
                action,
                crate::text::tag(job.target.id as int),
            )
        })),
        pre.at matches KickAt::Looking { job } ==> (event matches Event::Kinds(kinds) ==> (kinds@.len()
            == 0 ==> (turn.next matches Next::Ask(action) && crate::protocol::tells_invoker(
            action,
            crate::text::tag(job.target.id as int),
        )))),
        pre.at matches KickAt::Looking { job } ==> (event matches Event::Kinds(kinds) ==> (kinds@.len()
            > 0 && job.by_admin && job.target.id == pre.command.user_id ==> (
        turn.next matches Next::Ask(action) && crate::protocol::tells_invoker(action, KICK_SELF@)))),
        pre.at matches KickAt::Removing { job, rest, kicked, .. } ==> (event == Event::Outcome(
            Ok(false),
        ) && rest@.len() == 0 && kicked@.len() == 0 ==> (turn.next matches Next::Ask(action)
            && crate::protocol::tells_invoker(action, crate::text::tag(job.target.id as int)))),
{
    crate::commands::the_given_text_is_read(pre.command.options@, "reason"@, reason);
    crate::text::texts_contain_themselves(KICK_SELF@);
    match pre.at {
        KickAt::Labelling { job, .. } => {
            if let Event::Text(labels) = event {
                let tag = crate::text::tag(job.target.id as int);
                crate::text::middles_stand("✅ Kicked "@ + tag + " from "@, labels@, "."@);
                crate::text::middles_stand("✅ Kicked "@, tag, " from "@ + labels@ + "."@);
                assert("✅ Kicked "@ + tag + " from "@ + labels@ + "."@ =~= "✅ Kicked "@ + tag + (
                " from "@ + labels@ + "."@));
                notices_hold_their_parts(pre.command, labels@, reason);
            }
        },
        KickAt::Looking { job } => {
            crate::text::middles_stand(
                "⚠️ "@,
                crate::text::tag(job.target.id as int),
                " is not in a lobby."@,
            );
        },
        KickAt::Removing { job, .. } => {
            crate::text::middles_stand(
                "❌ Failed to kick "@,
                crate::text::tag(job.target.id as int),
                "."@,
            );
        },
        _ => {},
    }
}

proof fn notices_hold_their_parts(
    command: CommandContext,
    labels: Seq<char>,
    reason: Option<Seq<char>>,
)
    requires
        crate::commands::first_text(command.options@, "reason"@) == reason,
    ensures
        crate::text::contains_text(kick_notice(command, labels), labels),
        crate::text::contains_text(
            kick_notice(command, labels),
            crate::text::tag(command.user_id as int),
        ),
        reason matches Some(reason) ==> crate::text::contains_text(
            kick_notice(command, labels),
            reason,
        ),
{
    let tag = crate::text::tag(command.user_id as int);
    let head = "You were kicked from "@;
    let notice = head + labels + " by "@ + tag + "."@;
    crate::text::middles_stand(head, labels, " by "@ + tag + "."@);
    assert(notice =~= head + labels + (" by "@ + tag + "."@));
    crate::text::middles_stand(head + labels + " by "@, tag, "."@);
    if let Some(reason) = reason {
        let tail = "\nReason: "@ + reason;
        assert(kick_notice(command, labels) =~= notice + tail);
        crate::text::parts_stay(Seq::empty(), notice, tail, labels);
        crate::text::parts_stay(Seq::empty(), notice, tail, tag);
        crate::text::middles_stand(notice + "\nReason: "@, reason, Seq::empty());
    }
}

/// A kick that was answered is put on record once for each lobby that the player was taken out of,
/// under that lobby, with the invoker as its author, the given reason, and by which right it was
/// done.
pub proof fn kicks_are_put_on_record(
    command: CommandContext,
    config: LobbyRuntimeConfig,
    states: Seq<KickFlow>,
    events: Seq<Event>,
    turns: Seq<Turn<Handled>>,
    n: int,
    i: int,
    reason: Option<Seq<char>>,
)
    requires
        kick_run(command, config, states, events, turns),
        crate::commands::given_text(command.options@, "reason"@, reason),
        0 <= n < turns.len(),
        states[n].at is Answering,
        events[n] is Done,
    ensures
        turns[n].before@.len() == taken_out(states, events, n).len(),
        0 <= i < turns[n].before@.len() ==> (turns[n].before@[i] matches Action::RecordKick { record }
            && {
            &&& kick_job(states[n].at) matches Some(job) && record.discord_id == job.target.id
            &&& command.guild_id == Some(record.guild_id)
            &&& record.actor_id == command.user_id
            &&& match taken_out(states, events, n)[i] {
                LobbyKind::Open => record.lobby_kind is Open,
                LobbyKind::LowSkill => record.lobby_kind is Lowskill,
            }
            &&& record.reason is Some <==> reason is Some
            &&& reason matches Some(text) ==> record.reason matches Some(kept) && kept@ == text
            &&& record.source is Admin <==> command.administers(config)
        }),
{
    crate::commands::the_given_text_is_read(command.options@, "reason"@, reason);
    runs_keep_their_job(command, config, states, events, turns, n);
    kicks_are_recorded_where_they_happened(command, config, states, events, turns, n);
    if 0 <= i < turns[n].before@.len() {
        let job = kick_job(states[n].at)->0;
        assert(records(turns[n].before@[i], command, job, taken_out(states, events, n)[i]));
    }
}

/// `/kick` is acknowledged in private and then looks up the lobbies of the named player; one that
/// names nobody, or is used outside a server, goes no further.
pub proof fn kicks_start_with_their_player(
    command: CommandContext,
    start: KickFlow,
    first: Turn<Handled>,
    event: Event,
    post: KickFlow,
    turn: Turn<Handled>,
    config: LobbyRuntimeConfig,
    i: int,
)
    requires
        kick_starts(command, start, first),
        kick_step(start, event, post, turn, config),
        event matches Event::Done(Ok(_)),
    ensures
        start.command == command,
        first.only_asks(Action::Defer { ephemeral: true }),
        command.guild_id is None || command.channel_id is None ==> (
        turn.next matches Next::Ask(action) && crate::protocol::tells_invoker(action, SERVER_ONLY@)),
        command.guild_id is Some && command.channel_id is Some && 0 <= i < command.options@.len()
            && command.options@[i].name@ == "player"@ && (forall|j: int|
            0 <= j < i ==> (#[trigger] command.options@[j]).name@ != "player"@) ==> (
        command.options@[i].value matches crate::commands::InteractionValue::User { id, .. } ==> (id
            <= i64::MAX ==> turn.next == Next::<Handled>::Ask(
            Action::ReadMemberships { guild_id: command.guild_id->0, player_id: id as i64 },
        ) && post.at is Looking)),
{
    crate::text::texts_contain_themselves(SERVER_ONLY@);
    if command.place() is Some && 0 <= i < command.options@.len() && command.options@[i].name@
        == "player"@ && (forall|j: int|
        0 <= j < i ==> (#[trigger] command.options@[j]).name@ != "player"@) {
        let selected = choose|selected: Result<Option<SelectedUser>, HandlerError>|
            {
                &&& #[trigger] crate::commands::user_selection(
                    command.options@,
                    "player"@,
                    selected,
                )
                &&& match selected {
                    Err(error) => post.at is Over && crate::answers::errs(turn, None, error),
                    Ok(None) => {
                        &&& post.at is Over
                        &&& turn.before@.len() == 0
                        &&& turn.next matches Next::End(Err(error))
                            && crate::commands::rejects_value(error, "missing player"@)
                    },
                    Ok(Some(target)) => {
                        &&& post.at == (KickAt::Looking {
                            job: KickJob {
                                guild_id: command.guild_id->0,
                                target,
                                by_admin: command.administers(config),
                            },
                        })
                        &&& turn.only_asks(
                            Action::ReadMemberships {
                                guild_id: command.guild_id->0,
                                player_id: target.id,
                            },
                        )
                    },
                }
            };
        crate::commands::the_named_user_is_chosen(command.options@, "player"@, i, selected);
    }
}

} // verus!
