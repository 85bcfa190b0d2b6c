//! How the lobby logic talks to its surroundings. A procedure runs in turns: each turn names
//! what has to be done, and ends by asking for one thing, by finishing, or by waiting on.
use vstd::prelude::*;
use std::collections::BTreeMap;
use std::collections::BTreeSet;
use crate::config::LobbyRuntimeConfig;
use crate::joining::ConfirmedLobbyJoin;
use crate::joining::JoinOutcome;
use crate::joining::JoinPresentation;
use crate::joining::Joiner;
use crate::joining::LobbyGambaSpectator;
use crate::joining::Player;
use crate::kinds::LobbyKind;
use crate::kinds::LobbyScope;
use crate::kinds::Wording;
use crate::lobby::JoinTime;
use crate::lobby::LobbyMessageIds;
use crate::lobby::LobbySnapshot;
use crate::lobby::ReadyLobby;
use crate::message::DiscordEmoji;
use crate::message::DiscordMessage;
use crate::message::DiscordMessageReceipt;
use crate::message::DiscordMessageSnapshot;
use crate::message::EmbedModel;
use crate::message::InteractionResponse;
use crate::moderation::LobbySuspension;
use crate::moderation::ModerationSource;
use crate::moderation::SuspensionScope;
use crate::plan::PlanOrder;
use crate::plan::PublicationPermit;
use crate::plan::ReadycheckCommandPlan;
use crate::plan::ReadycheckCommandRequest;
use crate::plan::ResetLobbyRequest;
use crate::presence::GuildMember;
use crate::readycheck::ReadycheckBoard;
use crate::readycheck::ReadycheckCommandFailure;
use crate::readycheck::ReadycheckGeneration;
use crate::readycheck::ReadycheckPlayerData;
use crate::readycheck::ReadycheckRunError;
use crate::readycheck::ReadycheckRunResult;

verus! {

/// Settings and words that every procedure works with.
#[derive(Clone, Debug, PartialEq, Eq)]
pub struct Settings {
    pub config: LobbyRuntimeConfig,
    pub wording: Wording,
}

/// A made-up player that fills a lobby, but for the figures drawn as floating-point numbers.
#[derive(Clone, Debug, PartialEq, Eq)]
pub struct FakePlayer {
    pub discord_id: i64,
    pub name: String,
    pub guild_id: i64,
    pub rating: u16,
    pub preferred_roles: Vec<String>,
}

/// How storing a made-up player ended.
#[derive(Clone, Debug, PartialEq, Eq)]
pub enum AddOutcome {
    Added,
    Duplicate,
    Failed(String),
}

/// Why a lobby was not created, with the words of the store.
#[derive(Clone, Debug, PartialEq, Eq)]
pub struct CreationFailure {
    pub cause: CreationCause,
    pub report: String,
}

/// Why a lobby was not created.
#[derive(Clone, Debug, PartialEq, Eq)]
pub enum CreationCause {
    RatingTooHigh,
    Suspended(LobbySuspension),
    ModerationGuard(String),
    Persistence(String),
}

/// The record of a player who was put out of a lobby.
#[derive(Clone, Debug, PartialEq, Eq)]
pub struct KickRecord {
    pub discord_id: i64,
    pub guild_id: i64,
    pub actor_id: i64,
    pub lobby_kind: SuspensionScope,
    pub reason: Option<String>,
    pub source: ModerationSource,
}

/// Why work on the lobby store was not done: it was refused, or it was cut short.
#[derive(Clone, Debug, PartialEq, Eq)]
pub struct WorkFailure {
    pub cut_short: bool,
    pub report: String,
}

impl WorkFailure {
    /// The report of the failure; where the work was cut short, these words come first.
    pub open spec fn told(&self, words: Seq<char>) -> Seq<char> {
        if self.cut_short {
            words + self.report@
        } else {
            self.report@
        }
    }

    /// The report of the failure; where the work was cut short, these words come first.
    pub fn tell(self, words: &str) -> (r: String)
        ensures
            r@ == self.told(words@),
    {
        if self.cut_short {
            crate::text::text2(words, self.report.as_str())
        } else {
            self.report
        }
    }
}

/// Something to be done outside the procedure.
#[allow(inconsistent_fields)]
#[derive(Debug, PartialEq, Eq)]
pub enum Action {
    /// Acknowledge the command, for the invoker alone or for the channel.
    Defer { ephemeral: bool },
    /// Answer the command.
    Reply { response: InteractionResponse },
    /// Post a message.
    Send { channel_id: u64, message: DiscordMessage },
    /// Replace a message.
    Edit { channel_id: u64, message_id: u64, message: DiscordMessage },
    /// Delete a message.
    Delete { channel_id: u64, message_id: u64 },
    /// Delete a message after a while, without waiting for it.
    DeleteLater { channel_id: u64, message_id: u64, seconds: u64 },
    /// Look a message up.
    Fetch { channel_id: u64, message_id: u64 },
    /// Open a public thread at a message.
    OpenThread { channel_id: u64, message_id: u64, name: String },
    /// Pin a message.
    Pin { channel_id: u64, message_id: u64 },
    /// Put a reaction on a message.
    React { channel_id: u64, message_id: u64, emoji: DiscordEmoji },
    /// Take the reaction of a user off a message.
    Unreact { channel_id: u64, message_id: u64, emoji: DiscordEmoji, user_id: u64 },
    /// Take a reaction off a message for every user.
    ClearReaction { channel_id: u64, message_id: u64, emoji: DiscordEmoji },
    /// Write to a user in private.
    DirectMessage { user_id: u64, message: DiscordMessage },
    /// Look a member of a server up.
    FindMember { guild_id: u64, user_id: u64 },
    /// Look a user up by name.
    FindUser { user_id: u64 },
    /// Let some time pass.
    Sleep { seconds: u64 },
    /// Begin an operation that no other may overlap in this scope.
    Lock { scope: LobbyScope },
    /// End that operation.
    Unlock { scope: LobbyScope },
    /// Read the lobby of a scope.
    ReadLobby { scope: LobbyScope },
    /// List the open lobbies.
    ListLobbies,
    /// List the lobbies that a player is in.
    ReadMemberships { guild_id: i64, player_id: i64 },
    /// Read the lobby of a scope, or create it.
    CreateLobby { creator: Option<i64>, scope: LobbyScope },
    /// Put a player into a lobby.
    Join { player_id: i64, scope: LobbyScope },
    /// Take a player out of a lobby.
    Leave { player_id: i64, scope: LobbyScope },
    /// Take several players out of a lobby.
    RemovePlayers { players: BTreeSet<i64>, scope: LobbyScope },
    /// Store where a lobby is shown.
    SaveMessageIds { scope: LobbyScope, ids: LobbyMessageIds },
    /// Clear a lobby for good.
    ClearLobby { scope: LobbyScope },
    /// Set the join times of players to this many seconds before a moment.
    Backdate { scope: LobbyScope, now: JoinTime, seconds: BTreeMap<i64, u64> },
    /// For each player, find the lobby whose shuffle or draft holds them.
    ReadHolders { guild_id: i64, players: Vec<i64> },
    /// Render a lobby.
    Render { lobby: LobbySnapshot },
    /// Render a lobby with the pool as it is funded now.
    RenderFunded { lobby: LobbySnapshot },
    /// Look a player up in the database.
    LoadPlayer { player_id: i64, guild_id: i64 },
    /// Store a made-up player.
    AddFakePlayer { player: FakePlayer },
    /// Find a name for a player who cannot be asked.
    NamePlayer { player_id: i64, guild_id: i64 },
    /// Find the curfew window that a player is in.
    FindCurfew { scope: LobbyScope, player_id: i64 },
    /// Find the players who joined within the last ten minutes.
    FindRecent { joined: BTreeMap<i64, JoinTime> },
    /// Read the clock.
    ReadClock,
    /// Keep a record of a kick.
    RecordKick { record: KickRecord },
    /// Read the running ready check of a lobby.
    ReadCheck { scope: LobbyScope },
    /// Read which messages are the running ready checks of a guild.
    ReadCheckMessages { guild_id: i64 },
    /// Plan a ready check.
    PrepareCheck {
        request: ReadycheckCommandRequest,
        players: BTreeMap<i64, ReadycheckPlayerData>,
    },
    /// Give the right to publish back.
    AbortPublication { permit: PublicationPermit },
    /// Make a published check the running one.
    CommitPublication {
        permit: PublicationPermit,
        message_id: i64,
        channel_id: i64,
        players: BTreeMap<i64, ReadycheckPlayerData>,
    },
    /// Give the running check a new roster.
    UpdateCheck {
        scope: LobbyScope,
        lobby_ids: BTreeSet<i64>,
        players: BTreeMap<i64, ReadycheckPlayerData>,
        message_id: i64,
    },
    /// Note that a player is ready.
    Confirm { scope: LobbyScope, player_id: i64, mark: String, message_id: i64 },
    /// Note that a player is no longer ready.
    Withdraw { scope: LobbyScope, player_id: i64, message_id: i64 },
    /// Claim the announcement that enough players are ready, if it is due.
    TakeCompletion { scope: LobbyScope, message_id: i64, threshold: usize },
    /// Give that claim back.
    ReleaseCompletion { scope: LobbyScope, message_id: i64 },
    /// Let the ready checks take over this record of a lobby.
    TakeOver { ready: ReadyLobby },
    /// Put into words what a ready check of so many players waits for.
    DescribeCheck { players: usize, threshold: usize },
    /// Put into words that enough players are ready.
    WordAnnouncement { kind: LobbyKind, threshold: usize },
    /// Drop the running check and the lobby it belongs to.
    ForgetCheck { scope: LobbyScope },
    /// Repaint the message of a ready check.
    PaintCheck { channel_id: u64, message_id: u64, board: ReadycheckBoard },
    /// Post the message of a ready check.
    PostCheck { channel_id: u64, board: ReadycheckBoard },
    /// Announce that enough players are ready.
    Announce { channel_id: u64, kind: LobbyKind, threshold: usize },
    /// Find the lobby that a ready check is meant for.
    SelectCheckLobby { user_id: i64, guild_id: i64, kind: Option<LobbyKind> },
    /// Reset a lobby on behalf of a user.
    ResetLobby { request: ResetLobbyRequest },
    /// Put the labels of lobbies into one phrase.
    JoinLabels { kinds: Vec<LobbyKind> },
    /// Ask whether anybody observes joins; that can fail.
    FindObserver,
    /// Tell the observer of a join.
    TellJoin { event: ConfirmedLobbyJoin },
    /// Tell the observer of a join that was asked for by command.
    TellExplicitJoin { event: ConfirmedLobbyJoin },
    /// Tell the observer of a spectator.
    TellSpectator { spectator: LobbyGambaSpectator },
    /// Tell the observer of a reset.
    TellReset { guild_id: u64, kind: LobbyKind },
    /// Let the ready checks take over the current lobby.
    SyncReadyLobby { scope: LobbyScope },
    /// Repaint the message of a lobby.
    SyncDisplay { scope: LobbyScope },
    /// Repaint the message of a lobby if it has one.
    RefreshDisplay { scope: LobbyScope },
    /// Let the running ready check follow the roster.
    SyncReadycheck { scope: LobbyScope },
    /// Take the reaction of a player off the message of a lobby.
    RemoveReaction { scope: LobbyScope, player_id: i64 },
    /// Find out how ready the players of a lobby look.
    Classify { lobby: LobbySnapshot },
    /// Try to put a registered player into a lobby.
    JoinRegistered { scope: LobbyScope, player_id: i64, has_roles: bool },
    /// Make a join known.
    PublishJoin { scope: LobbyScope, joiner: Joiner, raw_reaction: bool },
    /// Make a departure known.
    PublishLeave { scope: LobbyScope, player_id: i64, display_name: String, raw_reaction: bool },
    /// Run a ready check.
    RunReadycheck {
        scope: LobbyScope,
        invoker_id: i64,
        channel_id: i64,
        confirm_invoker: bool,
        mirror_invocation: bool,
    },
    /// Carry a plan out.
    ExecutePlan { order: PlanOrder },
    /// Announce that enough players are ready, if that is due.
    NotifyCompletion { scope: LobbyScope, message_id: i64 },
    /// Find the name that a user shows in a server.
    ResolveName { guild_id: Option<u64>, user_id: u64, known: Option<String> },
}

impl Action {
    /// The lobby that the action names, if it names one.
    pub open spec fn lobby(self) -> Option<LobbyScope> {
        match self {
            Action::Lock { scope } => Some(scope),
            Action::Unlock { scope } => Some(scope),
            Action::ReadLobby { scope } => Some(scope),
            Action::CreateLobby { scope, .. } => Some(scope),
            Action::Join { scope, .. } => Some(scope),
            Action::Leave { scope, .. } => Some(scope),
            Action::RemovePlayers { scope, .. } => Some(scope),
            Action::SaveMessageIds { scope, .. } => Some(scope),
            Action::ClearLobby { scope } => Some(scope),
            Action::Backdate { scope, .. } => Some(scope),
            Action::FindCurfew { scope, .. } => Some(scope),
            Action::ReadCheck { scope } => Some(scope),
            Action::UpdateCheck { scope, .. } => Some(scope),
            Action::Confirm { scope, .. } => Some(scope),
            Action::Withdraw { scope, .. } => Some(scope),
            Action::TakeCompletion { scope, .. } => Some(scope),
            Action::ReleaseCompletion { scope, .. } => Some(scope),
            Action::ForgetCheck { scope } => Some(scope),
            Action::SyncReadyLobby { scope } => Some(scope),
            Action::SyncDisplay { scope } => Some(scope),
            Action::RefreshDisplay { scope } => Some(scope),
            Action::SyncReadycheck { scope } => Some(scope),
            Action::RemoveReaction { scope, .. } => Some(scope),
            Action::JoinRegistered { scope, .. } => Some(scope),
            Action::PublishJoin { scope, .. } => Some(scope),
            Action::PublishLeave { scope, .. } => Some(scope),
            Action::RunReadycheck { scope, .. } => Some(scope),
            Action::NotifyCompletion { scope, .. } => Some(scope),
            Action::PrepareCheck { request, .. } => Some(request.scope),
            _ => None,
        }
    }

    /// The player whom the action is about, if it is about one.
    pub open spec fn player(self) -> Option<i64> {
        match self {
            Action::ReadMemberships { player_id, .. } => Some(player_id),
            Action::Join { player_id, .. } => Some(player_id),
            Action::Leave { player_id, .. } => Some(player_id),
            Action::LoadPlayer { player_id, .. } => Some(player_id),
            Action::NamePlayer { player_id, .. } => Some(player_id),
            Action::FindCurfew { player_id, .. } => Some(player_id),
            Action::Confirm { player_id, .. } => Some(player_id),
            Action::Withdraw { player_id, .. } => Some(player_id),
            Action::RemoveReaction { player_id, .. } => Some(player_id),
            Action::JoinRegistered { player_id, .. } => Some(player_id),
            Action::PublishJoin { joiner, .. } => Some(joiner.player_id),
            Action::PublishLeave { player_id, .. } => Some(player_id),
            Action::RecordKick { record } => Some(record.discord_id),
            _ => None,
        }
    }

    /// The guild in which the action looks something up, if it names one by itself.
    pub open spec fn guild(self) -> Option<i64> {
        match self {
            Action::ReadMemberships { guild_id, .. } => Some(guild_id),
            Action::ReadHolders { guild_id, .. } => Some(guild_id),
            Action::LoadPlayer { guild_id, .. } => Some(guild_id),
            Action::NamePlayer { guild_id, .. } => Some(guild_id),
            Action::ReadCheckMessages { guild_id } => Some(guild_id),
            Action::SelectCheckLobby { guild_id, .. } => Some(guild_id),
            Action::RecordKick { record } => Some(record.guild_id),
            _ => None,
        }
    }

    /// The event can come of this action. Whoever does the action hands such an event back.
    pub open spec fn answered_by(self, event: Event) -> bool {
        match self {
            Action::Send { .. } => event is Posted,
            Action::Fetch { .. } => event is Fetched,
            Action::OpenThread { .. } => event is ThreadOpened,
            Action::FindMember { .. } => event is Member,
            Action::FindUser { .. } => event is User,
            Action::ReadLobby { .. } => event is Lobby,
            Action::ListLobbies => event is Lobbies,
            Action::ReadMemberships { .. } => event is Kinds,
            Action::CreateLobby { .. } => event is Created,
            Action::Join { .. } => event is Joined,
            Action::Leave { .. } => event is Outcome,
            Action::RemovePlayers { .. } => event is Removed,
            Action::ClearLobby { .. } => event is Outcome,
            Action::Backdate { .. } => event is Backdated,
            Action::ReadHolders { .. } => event is Holders,
            Action::Render { .. } => event is Rendered,
            Action::RenderFunded { .. } => event is Rendered,
            Action::LoadPlayer { .. } => event is PlayerLoaded,
            Action::AddFakePlayer { .. } => event is FakeAdded,
            Action::NamePlayer { .. } => event is Text,
            Action::FindCurfew { .. } => event is Curfew,
            Action::FindRecent { .. } => event is Players,
            Action::ReadClock => event is Clock,
            Action::ReadCheck { .. } => event is Check,
            Action::ReadCheckMessages { .. } => event is CheckMessages,
            Action::PrepareCheck { .. } => event is Prepared,
            Action::CommitPublication { .. } => event is Flag,
            Action::UpdateCheck { .. } => event is Flag,
            Action::Confirm { .. } => event is Flag,
            Action::Withdraw { .. } => event is Flag,
            Action::TakeCompletion { .. } => event is Flag,
            Action::DescribeCheck { .. } => event is Text,
            Action::WordAnnouncement { .. } => event is Text,
            Action::PostCheck { .. } => event is Posted,
            Action::SelectCheckLobby { .. } => event is Selected,
            Action::ResetLobby { .. } => event is Reset,
            Action::JoinLabels { .. } => event is Text,
            Action::FindObserver => event is Flag || event matches Event::Done(Err(_)),
            Action::Classify { .. } => event is Classified,
            Action::JoinRegistered { .. } => event is Presented,
            Action::PublishJoin { .. } => event is JoinPublished,
            Action::RunReadycheck { .. } => event is CheckRan,
            Action::ExecutePlan { .. } => event is CheckRan,
            Action::ResolveName { .. } => event is Name,
            _ => event is Done,
        }
    }
}

/// What came of an action.
#[derive(Debug, PartialEq, Eq)]
pub enum Event {
    /// An action without an answer went well, or failed.
    Done(Result<(), String>),
    /// A yes or no.
    Flag(bool),
    /// A yes or no that could not always be had.
    Outcome(Result<bool, WorkFailure>),
    /// A message was posted.
    Posted(Result<DiscordMessageReceipt, String>),
    /// A message was looked up.
    Fetched(Result<Option<DiscordMessageSnapshot>, String>),
    /// A thread was opened.
    ThreadOpened(Result<u64, String>),
    /// A member was looked up.
    Member(Result<Option<GuildMember>, String>),
    /// A user was looked up by name.
    User(Result<Option<String>, String>),
    /// The lobby of a scope.
    Lobby(Option<LobbySnapshot>),
    /// The open lobbies.
    Lobbies(Vec<LobbySnapshot>),
    /// Lobby kinds.
    Kinds(Vec<LobbyKind>),
    /// A lobby was read or created.
    Created(Result<LobbySnapshot, CreationFailure>),
    /// A player tried to join.
    Joined(Result<JoinOutcome, String>),
    /// Players were taken out of a lobby.
    Removed(Result<BTreeSet<i64>, WorkFailure>),
    /// Join times were set.
    Backdated(Result<usize, String>),
    /// For each player, the lobby that holds them.
    Holders(Vec<Option<LobbyKind>>),
    /// A lobby was rendered.
    Rendered(Result<EmbedModel, WorkFailure>),
    /// A player was looked up.
    PlayerLoaded(Result<Option<Player>, String>),
    /// A made-up player was stored.
    FakeAdded(AddOutcome),
    /// A piece of text.
    Text(String),
    /// A curfew window was looked up.
    Curfew(Result<Option<String>, WorkFailure>),
    /// Some players.
    Players(BTreeSet<i64>),
    /// The clock was read.
    Clock(Result<JoinTime, String>),
    /// The running ready check.
    Check(Option<ReadycheckGeneration>),
    /// The messages of the running ready checks.
    CheckMessages { open: Option<i64>, low_skill: Option<i64> },
    /// A ready check was planned.
    Prepared(Result<ReadycheckCommandPlan, ReadycheckCommandFailure>),
    /// The lobby that a ready check is meant for, or what to tell the invoker.
    Selected(Result<LobbyKind, String>),
    /// The scope that was reset.
    Reset(Option<LobbyScope>),
    /// How ready players look, and which of them can be mentioned.
    Classified { players: BTreeMap<i64, ReadycheckPlayerData>, mentionable: BTreeSet<i64> },
    /// How a join is presented.
    Presented(Result<JoinPresentation, String>),
    /// A join was made known.
    JoinPublished(Option<ConfirmedLobbyJoin>),
    /// A ready check was run.
    CheckRan(Result<ReadycheckRunResult, ReadycheckRunError>),
    /// The name that a user shows.
    Name(Option<String>),
}

impl Event {
    /// What went wrong, in its own words, where something did.
    pub open spec fn failure(self) -> Option<Seq<char>> {
        match self {
            Event::Done(Err(error)) => Some(error@),
            Event::Posted(Err(error)) => Some(error@),
            Event::PlayerLoaded(Err(error)) => Some(error@),
            Event::Presented(Err(error)) => Some(error@),
            Event::Outcome(Err(failure)) => Some(failure.report@),
            Event::Removed(Err(failure)) => Some(failure.report@),
            Event::Rendered(Err(failure)) => Some(failure.report@),
            Event::CheckRan(Err(ReadycheckRunError::Transport(error))) => Some(error@),
            _ => None,
        }
    }
}

/// How a turn ends.
#[derive(Debug, PartialEq, Eq)]
pub enum Next<R> {
    /// This is asked for, and what comes of it is handed back.
    Ask(Action),
    /// The procedure is over.
    End(R),
    /// What was handed back is not what was asked for: the procedure still waits for it.
    Wait,
}

/// One turn of a procedure: first the actions whose outcome does not matter, in order, and then
/// how the turn ends.
#[derive(Debug, PartialEq, Eq)]
pub struct Turn<R> {
    pub before: Vec<Action>,
    pub next: Next<R>,
}

impl<R> Turn<R> {
    /// The turn does nothing but ask for this.
    pub open spec fn only_asks(self, action: Action) -> bool {
        self.before@.len() == 0 && self.next == Next::<R>::Ask(action)
    }

    /// The turn does nothing but end with this.
    pub open spec fn only_ends(self, result: R) -> bool {
        self.before@.len() == 0 && self.next == Next::<R>::End(result)
    }

    /// The turn does not wait on: it ends, or asks for something that is `awaited`.
    pub open spec fn goes_on(self, awaited: spec_fn(Action) -> bool) -> bool {
        match self.next {
            Next::Ask(action) => awaited(action),
            Next::End(_) => true,
            Next::Wait => false,
        }
    }

    /// The turn does this, before it ends or as its question.
    pub open spec fn does(self, action: Action) -> bool {
        self.before@.contains(action) || self.next == Next::<R>::Ask(action)
    }

    /// The turn does nothing.
    pub open spec fn waits(self) -> bool {
        self.before@.len() == 0 && self.next is Wait
    }

    /// Asks for something at once.
    pub fn ask(action: Action) -> (r: Turn<R>)
        ensures
            r.only_asks(action),
    {
        Turn { before: Vec::new(), next: Next::Ask(action) }
    }

    /// Asks for something after other things are done.
    pub fn ask_after(before: Vec<Action>, action: Action) -> (r: Turn<R>)
        ensures
            r.before@ == before@,
            r.next == Next::<R>::Ask(action),
    {
        Turn { before, next: Next::Ask(action) }
    }

    /// Ends at once.
    pub fn end(result: R) -> (r: Turn<R>)
        ensures
            r.only_ends(result),
    {
        Turn { before: Vec::new(), next: Next::End(result) }
    }

    /// Ends after other things are done.
    pub fn end_after(before: Vec<Action>, result: R) -> (r: Turn<R>)
        ensures
            r.before@ == before@,
            r.next == Next::<R>::End(result),
    {
        Turn { before, next: Next::End(result) }
    }

    /// Waits on.
    pub fn wait() -> (r: Turn<R>)
        ensures
            r.waits(),
    {
        Turn { before: Vec::new(), next: Next::Wait }
    }
}

/// The action answers the invoker in private with this text.
pub open spec fn whispers(action: Action, text: Seq<char>) -> bool {
    action matches Action::Reply { response } && crate::message::private_reply(response, text)
}

/// The action posts this text to this channel, notifying nobody.
pub open spec fn posts_silently(action: Action, channel_id: u64, text: Seq<char>) -> bool {
    action matches Action::Send { channel_id: to, message } && to == channel_id
        && crate::message::silent_text(message, text)
}

/// Answers the invoker in private.
pub fn whisper_back(text: String) -> (r: Action)
    ensures
        whispers(r, text@),
{
    Action::Reply { response: crate::message::whisper(text) }
}

/// Posts a text that notifies nobody.
pub fn post_silently(channel_id: u64, text: String) -> (r: Action)
    ensures
        posts_silently(r, channel_id, text@),
{
    Action::Send { channel_id, message: DiscordMessage::silent(text) }
}

/// The reply goes to the invoker alone, and this stands in it.
pub open spec fn tells_invoker(action: Action, part: Seq<char>) -> bool {
    action matches Action::Reply { response } && response.ephemeral && response.allowed_mentions
        == crate::message::InteractionAllowedMentions::Nobody && crate::text::contains_text(
        response.content@,
        part,
    )
}

/// This was handed back before turn `n` of a run.
pub open spec fn happened(events: Seq<Event>, n: int, event: Event) -> bool {
    exists|m: int| 0 <= m < n && m < events.len() && #[trigger] events[m] == event
}

/// What happened has happened for good, and what is handed back now has happened by the next turn.
pub proof fn what_happened_stays(events: Seq<Event>, n: int)
    requires
        0 < n <= events.len(),
    ensures
        forall|event: Event| #[trigger] happened(events, n - 1, event) ==> happened(
            events,
            n,
            event,
        ),
        happened(events, n, events[n - 1]),
{
    assert forall|event: Event| #[trigger] happened(events, n - 1, event) implies happened(
        events,
        n,
        event,
    ) by {
        let m = choose|m: int| 0 <= m < n - 1 && m < events.len() && #[trigger] events[m] == event;
        assert(events[m] == event);
    }
    assert(events[n - 1] == events[n - 1]);
}

} // verus!
