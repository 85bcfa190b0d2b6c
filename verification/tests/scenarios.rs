//! Whole commands and reactions, run against a store and a chat that live in memory.
use std::collections::{BTreeMap, BTreeSet};

use lobby_provider::closing::{
    close_lobby_message, closed_name, private_answer, unpin_lobby_message, AllowedMentions,
};
use lobby_provider::commands::{InteractionOption, InteractionRequest, InteractionValue};
use lobby_provider::config::LobbyRuntimeConfig;
use lobby_provider::flows::command::handle;
use lobby_provider::flows::command::CommandFlow;
use lobby_provider::flows::curfew::CurfewFlow;
use lobby_provider::flows::display::RemovalFlow;
use lobby_provider::flows::fake::{AdminFakeLobbyResult, FakeFlow};
use lobby_provider::flows::lobby::{BELL_EMOJI, SWORD_EMOJI};
use lobby_provider::flows::procedure::Procedure;
use lobby_provider::flows::reaction::{
    RawReactionEvent, RawReactionKind, ReactionFlow, LEGACY_FROGLING_EMOJI_ID, READY_EMOJI,
};
use lobby_provider::flows::recovery::{ReadyRecoveryReport, RecoveryFlow};
use lobby_provider::ids::to_u64;
use lobby_provider::joining::{
    ConfirmedLobbyJoin, JoinContext, JoinFailure, JoinOutcome, LobbyGambaSpectator, Player,
};
use lobby_provider::kinds::{lobby_kind_value, LobbyKind, LobbyScope, Wording};
use lobby_provider::lobby::{JoinTime, LobbyMessageIds, LobbySnapshot, ReadyLobby};
use lobby_provider::message::{
    DiscordAllowedMentions, DiscordEmoji, DiscordMessage, DiscordMessageContentMode,
    DiscordMessageReceipt, DiscordMessageSnapshot, EmbedModel, InteractionAllowedMentions,
    InteractionResponse,
};
use lobby_provider::moderation::{
    LobbySuspension, ModerationSource, SuspensionCompletion, SuspensionScope,
};
use lobby_provider::plan::{
    ExistingMessageState, PublicationMode, PublicationPermit, ReadycheckCommandPlan,
    ReadycheckCommandRequest, ResetLobbyRequest,
};
use lobby_provider::players::fallback_name;
use lobby_provider::presence::{DiscordPresence, GuildMember, ReadinessGroup};
use lobby_provider::protocol::{
    Action, AddOutcome, Event, KickRecord, Next, Settings, Turn,
};
use lobby_provider::readycheck::{
    ReadycheckCommandFailure, ReadycheckGeneration, ReadycheckPlayerData,
};
use lobby_provider::registration::lobby_commands;
use lobby_provider::roster::initial_reacted;

const OPEN_LABEL: &str = "🍽️ All You Can Feed";
const LOW_SKILL_LABEL: &str = "🧀 Whine & Cheese";
const JOPACOIN_EMOJI_ID: u64 = 77;
const JOPACOIN_EMOTE: &str = "<:jopacoin:77>";
const NOW: f64 = 1_700_000_000.0;

fn label(kind: LobbyKind) -> &'static str {
    match kind {
        LobbyKind::Open => OPEN_LABEL,
        LobbyKind::LowSkill => LOW_SKILL_LABEL,
    }
}

fn wording() -> Wording {
    Wording {
        open_label: OPEN_LABEL.to_owned(),
        open_name: "All You Can Feed".to_owned(),
        low_skill_label: LOW_SKILL_LABEL.to_owned(),
        low_skill_name: "Whine & Cheese".to_owned(),
        jopacoin_emoji_id: JOPACOIN_EMOJI_ID,
        jopacoin_emote: JOPACOIN_EMOTE.to_owned(),
    }
}

fn runtime_config() -> LobbyRuntimeConfig {
    LobbyRuntimeConfig {
        lobby_channel_id: Some(700),
        low_skill_lobby_channel_id: Some(701),
        admin_user_ids: BTreeSet::new(),
        ready_threshold: 2,
        max_players: 20,
        first_game_pool_daily_amount: 100,
    }
}

fn ready_announcement(kind: LobbyKind, threshold: usize) -> String {
    format!(
        "{} has {threshold} ready players! You can `/shuffle` now; only ready players will be included.",
        label(kind)
    )
}

fn scope(kind: LobbyKind) -> LobbyScope {
    LobbyScope::new(42, kind)
}

fn key(scope: LobbyScope) -> (i64, bool) {
    (scope.guild_id, scope.kind == LobbyKind::LowSkill)
}

#[derive(Clone)]
struct SentMessage {
    channel_id: u64,
    message: DiscordMessage,
}

#[derive(Default)]
struct Responses {
    deferred: Vec<bool>,
    followups: Vec<InteractionResponse>,
}

struct World {
    settings: Settings,
    players: BTreeMap<i64, Player>,
    suspensions: BTreeMap<i64, LobbySuspension>,
    curfews: BTreeMap<i64, String>,
    lobbies: BTreeMap<(i64, bool), LobbySnapshot>,
    ready_lobbies: BTreeMap<(i64, bool), ReadyLobby>,
    checks: BTreeMap<(i64, bool), ReadycheckGeneration>,
    announced: BTreeSet<i64>,
    permits: u64,
    locks: BTreeSet<(i64, bool)>,
    responses: Responses,
    next_message_id: u64,
    messages: BTreeMap<(u64, u64), DiscordMessageSnapshot>,
    fetches: usize,
    sent: Vec<SentMessage>,
    edits: Vec<(u64, u64, DiscordMessage)>,
    threads: Vec<(u64, u64, String)>,
    archived: Vec<(u64, String)>,
    unpinned: Vec<(u64, u64)>,
    removed_reactions: Vec<(u64, u64, DiscordEmoji, u64)>,
    cleared_reactions: Vec<(u64, u64, DiscordEmoji)>,
    direct_messages: Vec<(u64, DiscordMessage)>,
    members: BTreeMap<u64, GuildMember>,
    users: BTreeMap<u64, String>,
    kicks: Vec<KickRecord>,
    observed: bool,
    confirmed: Vec<ConfirmedLobbyJoin>,
    explicit: Vec<ConfirmedLobbyJoin>,
    gamba: Vec<LobbyGambaSpectator>,
    resets: Vec<(u64, LobbyKind)>,
}

impl World {
    fn with_players(players: &[(i64, &str)]) -> World {
        let players = players
            .iter()
            .map(|(id, name)| {
                let player = Player {
                    name: (*name).to_owned(),
                    preferred_roles: Some(vec!["1".to_owned(), "5".to_owned()]),
                };
                (*id, player)
            })
            .collect();
        World {
            settings: Settings { config: runtime_config(), wording: wording() },
            players,
            suspensions: BTreeMap::new(),
            curfews: BTreeMap::new(),
            lobbies: BTreeMap::new(),
            ready_lobbies: BTreeMap::new(),
            checks: BTreeMap::new(),
            announced: BTreeSet::new(),
            permits: 0,
            locks: BTreeSet::new(),
            responses: Responses::default(),
            next_message_id: 1_000,
            messages: BTreeMap::new(),
            fetches: 0,
            sent: Vec::new(),
            edits: Vec::new(),
            threads: Vec::new(),
            archived: Vec::new(),
            unpinned: Vec::new(),
            removed_reactions: Vec::new(),
            cleared_reactions: Vec::new(),
            direct_messages: Vec::new(),
            members: BTreeMap::new(),
            users: BTreeMap::new(),
            kicks: Vec::new(),
            observed: false,
            confirmed: Vec::new(),
            explicit: Vec::new(),
            gamba: Vec::new(),
            resets: Vec::new(),
        }
    }

    /// The process ends and starts anew: only what is stored is left.
    fn restart(&mut self) {
        self.checks.clear();
        self.announced.clear();
        self.ready_lobbies.clear();
        self.responses = Responses::default();
    }

    fn lobby(&self, kind: LobbyKind) -> LobbySnapshot {
        self.lobbies.get(&key(scope(kind))).cloned().expect("stored lobby")
    }

    fn check(&self, kind: LobbyKind) -> ReadycheckGeneration {
        self.checks.get(&key(scope(kind))).cloned().expect("running ready check")
    }

    fn message_id(&self, kind: LobbyKind) -> u64 {
        to_u64(self.lobby(kind).message_ids.message_id.expect("lobby message"))
            .expect("Discord message id")
    }

    fn kinds_of(&self, player_id: i64) -> Vec<LobbyKind> {
        [LobbyKind::Open, LobbyKind::LowSkill]
            .into_iter()
            .filter(|kind| {
                self.lobbies
                    .get(&key(scope(*kind)))
                    .is_some_and(|lobby| lobby.players.contains(&player_id))
            })
            .collect()
    }

    fn run<F, R>(
        &mut self,
        started: (F, Turn<R>),
        resume: fn(F, Event, &Settings) -> (F, Turn<R>),
    ) -> R {
        let (mut flow, mut turn) = started;
        loop {
            for action in turn.before {
                self.act(action);
            }
            let event = match turn.next {
                Next::Ask(action) => self.act(action),
                Next::End(result) => return result,
                Next::Wait => panic!("the event does not answer what was asked"),
            };
            let settings = self.settings.clone();
            (flow, turn) = resume(flow, event, &settings);
        }
    }

    fn act(&mut self, action: Action) -> Event {
        let settings = self.settings.clone();
        match Procedure::open(action, &settings) {
            Ok(started) => self.run(started, Procedure::resume),
            Err(action) => self.perform(action),
        }
    }

    fn assert_held(&self, scope: LobbyScope) {
        assert!(self.locks.contains(&key(scope)), "a lobby is changed without its scope");
    }

    fn perform(&mut self, action: Action) -> Event {
        match action {
            Action::Defer { ephemeral } => {
                self.responses.deferred.push(ephemeral);
                Event::Done(Ok(()))
            }
            Action::Reply { response } => {
                self.responses.followups.push(response);
                Event::Done(Ok(()))
            }
            Action::Send { channel_id, message } => {
                let message_id = self.next_message_id;
                self.next_message_id += 1;
                let receipt = DiscordMessageReceipt {
                    channel_id,
                    message_id,
                    jump_url: format!("https://discord.com/channels/42/{channel_id}/{message_id}"),
                };
                let snapshot =
                    DiscordMessageSnapshot { receipt: receipt.clone(), reactions: Vec::new() };
                self.messages.insert((channel_id, message_id), snapshot);
                self.sent.push(SentMessage { channel_id, message });
                Event::Posted(Ok(receipt))
            }
            Action::Edit { channel_id, message_id, message } => {
                self.edits.push((channel_id, message_id, message));
                Event::Done(Ok(()))
            }
            Action::Delete { channel_id, message_id } => {
                self.messages.remove(&(channel_id, message_id));
                Event::Done(Ok(()))
            }
            Action::DeleteLater { .. } => Event::Done(Ok(())),
            Action::Fetch { channel_id, message_id } => {
                self.fetches += 1;
                Event::Fetched(Ok(self.messages.get(&(channel_id, message_id)).cloned()))
            }
            Action::OpenThread { channel_id, message_id, name } => {
                self.threads.push((channel_id, message_id, name));
                Event::ThreadOpened(Ok(20_000 + message_id))
            }
            Action::Pin { .. } => Event::Done(Ok(())),
            Action::React { channel_id, message_id, emoji } => {
                if let Some(message) = self.messages.get_mut(&(channel_id, message_id)) {
                    message.reactions.push(emoji);
                }
                Event::Done(Ok(()))
            }
            Action::Unreact { channel_id, message_id, emoji, user_id } => {
                self.removed_reactions.push((channel_id, message_id, emoji, user_id));
                Event::Done(Ok(()))
            }
            Action::ClearReaction { channel_id, message_id, emoji } => {
                self.cleared_reactions.push((channel_id, message_id, emoji));
                Event::Done(Ok(()))
            }
            Action::DirectMessage { user_id, message } => {
                self.direct_messages.push((user_id, message));
                Event::Done(Ok(()))
            }
            Action::FindMember { user_id, .. } => {
                Event::Member(Ok(self.members.get(&user_id).cloned()))
            }
            Action::FindUser { user_id } => Event::User(Ok(self.users.get(&user_id).cloned())),
            Action::Sleep { .. } => Event::Done(Ok(())),
            Action::Lock { scope } => {
                assert!(self.locks.insert(key(scope)), "a scope is taken twice");
                Event::Done(Ok(()))
            }
            Action::Unlock { scope } => {
                assert!(self.locks.remove(&key(scope)), "a scope is freed that is not held");
                Event::Done(Ok(()))
            }
            Action::ReadLobby { scope } => Event::Lobby(self.lobbies.get(&key(scope)).cloned()),
            Action::ListLobbies => Event::Lobbies(self.lobbies.values().cloned().collect()),
            Action::ReadMemberships { player_id, .. } => Event::Kinds(self.kinds_of(player_id)),
            Action::CreateLobby { creator, scope } => {
                self.assert_held(scope);
                let lobby = self.lobbies.entry(key(scope)).or_insert_with(|| LobbySnapshot {
                    scope,
                    created_by: creator,
                    created_at_ns: 1_700_000_000_000_000_000,
                    players: BTreeSet::new(),
                    player_join_times: BTreeMap::new(),
                    message_ids: LobbyMessageIds {
                        message_id: None,
                        channel_id: None,
                        thread_id: None,
                        embed_message_id: None,
                        origin_channel_id: None,
                    },
                });
                Event::Created(Ok(lobby.clone()))
            }
            Action::Join { player_id, scope } => {
                self.assert_held(scope);
                Event::Joined(Ok(self.join(player_id, scope)))
            }
            Action::Leave { player_id, scope } => {
                self.assert_held(scope);
                Event::Outcome(Ok(self.remove(player_id, scope)))
            }
            Action::RemovePlayers { players, scope } => {
                let removed =
                    players.into_iter().filter(|player| self.remove(*player, scope)).collect();
                Event::Removed(Ok(removed))
            }
            Action::SaveMessageIds { scope, ids } => {
                self.assert_held(scope);
                let lobby = self.lobbies.get_mut(&key(scope)).expect("lobby to be stored");
                lobby.message_ids = ids;
                Event::Done(Ok(()))
            }
            Action::ClearLobby { scope } => {
                Event::Outcome(Ok(self.lobbies.remove(&key(scope)).is_some()))
            }
            Action::Backdate { scope, now, seconds } => {
                self.assert_held(scope);
                let lobby = self.lobbies.get_mut(&key(scope)).expect("lobby to be backdated");
                let mut updated = 0;
                for (player, seconds) in seconds {
                    if lobby.players.contains(&player) {
                        let joined = f64::from_bits(now.bits) - seconds as f64;
                        lobby
                            .player_join_times
                            .insert(player, JoinTime { bits: joined.to_bits() });
                        updated += 1;
                    }
                }
                Event::Backdated(Ok(updated))
            }
            Action::ReadHolders { players, .. } => {
                Event::Holders(players.into_iter().map(|_| None).collect())
            }
            Action::Render { lobby } | Action::RenderFunded { lobby } => {
                Event::Rendered(Ok(EmbedModel {
                    title: Some(label(lobby.scope.kind).to_owned()),
                    description: Some(format!("{} players", lobby.players.len())),
                    footer: None,
                    fields: Vec::new(),
                }))
            }
            Action::LoadPlayer { player_id, .. } => {
                Event::PlayerLoaded(Ok(self.players.get(&player_id).cloned()))
            }
            Action::AddFakePlayer { player } => {
                let stored =
                    Player { name: player.name, preferred_roles: Some(player.preferred_roles) };
                self.players.insert(player.discord_id, stored);
                Event::FakeAdded(AddOutcome::Added)
            }
            Action::NamePlayer { player_id, .. } => {
                Event::Text(fallback_name(Ok(self.players.get(&player_id).cloned()), player_id))
            }
            Action::FindCurfew { player_id, .. } => {
                Event::Curfew(Ok(self.curfews.get(&player_id).cloned()))
            }
            Action::FindRecent { joined } => Event::Players(
                joined
                    .into_iter()
                    .filter(|(_, joined)| NOW - f64::from_bits(joined.bits) < 600.0)
                    .map(|(player, _)| player)
                    .collect(),
            ),
            Action::ReadClock => Event::Clock(Ok(JoinTime { bits: NOW.to_bits() })),
            Action::RecordKick { record } => {
                self.kicks.push(record);
                Event::Done(Ok(()))
            }
            other => self.perform_checks(other),
        }
    }

    fn join(&mut self, player_id: i64, scope: LobbyScope) -> JoinOutcome {
        let refused = |failure, context| JoinOutcome {
            joined_at_ns: None,
            failure: Some(failure),
            context,
        };
        if let Some(suspension) = self.suspensions.get(&player_id) {
            let context = JoinContext::Suspension(suspension.clone());
            return refused(JoinFailure::Suspended, Some(context));
        }
        let max_players = self.settings.config.max_players;
        let lobby = self.lobbies.get_mut(&key(scope)).expect("lobby to be joined");
        if lobby.players.len() >= max_players {
            return refused(JoinFailure::LobbyFull, None);
        }
        if !lobby.players.insert(player_id) {
            return refused(JoinFailure::Other, None);
        }
        lobby.player_join_times.insert(player_id, JoinTime { bits: NOW.to_bits() });
        JoinOutcome {
            joined_at_ns: Some(1_700_000_000_000_000_000),
            failure: None,
            context: None,
        }
    }

    fn remove(&mut self, player_id: i64, scope: LobbyScope) -> bool {
        match self.lobbies.get_mut(&key(scope)) {
            Some(lobby) => {
                lobby.player_join_times.remove(&player_id);
                lobby.players.remove(&player_id)
            }
            None => false,
        }
    }

    fn perform_checks(&mut self, action: Action) -> Event {
        match action {
            Action::ReadCheck { scope } => Event::Check(self.checks.get(&key(scope)).cloned()),
            Action::ReadCheckMessages { guild_id } => {
                let message = |low: bool| {
                    self.checks.get(&(guild_id, low)).map(|generation| generation.message_id)
                };
                Event::CheckMessages { open: message(false), low_skill: message(true) }
            }
            Action::PrepareCheck { request, players } => {
                Event::Prepared(self.prepare(request, players))
            }
            Action::AbortPublication { .. } => Event::Done(Ok(())),
            Action::CommitPublication { permit, message_id, channel_id, players } => {
                let (guild_id, low) = *self
                    .ready_lobbies
                    .iter()
                    .find(|(_, ready)| players.keys().all(|id| ready.players.contains(id)))
                    .expect("lobby of the check")
                    .0;
                let generation = ReadycheckGeneration {
                    channel_id,
                    message_id,
                    lobby_ids: players.keys().copied().collect(),
                    reacted: initial_reacted(&players, permit.invoker_id, permit.confirm_invoker),
                    player_data: players,
                    declined: BTreeSet::new(),
                };
                self.checks.insert((guild_id, low), generation);
                Event::Flag(true)
            }
            Action::UpdateCheck { scope, lobby_ids, players, message_id } => {
                match self.checks.get_mut(&key(scope)) {
                    Some(generation) if generation.message_id == message_id => {
                        generation.reacted.retain(|player, _| lobby_ids.contains(player));
                        generation.lobby_ids = lobby_ids;
                        generation.player_data = players;
                        Event::Flag(true)
                    }
                    _ => Event::Flag(false),
                }
            }
            Action::Confirm { scope, player_id, mark, message_id } => {
                match self.checks.get_mut(&key(scope)) {
                    Some(generation)
                        if generation.message_id == message_id
                            && generation.lobby_ids.contains(&player_id) =>
                    {
                        Event::Flag(generation.reacted.insert(player_id, mark).is_none())
                    }
                    _ => Event::Flag(false),
                }
            }
            Action::Withdraw { scope, player_id, message_id } => {
                match self.checks.get_mut(&key(scope)) {
                    Some(generation) if generation.message_id == message_id => {
                        generation.declined.insert(player_id);
                        Event::Flag(generation.reacted.remove(&player_id).is_some())
                    }
                    _ => Event::Flag(false),
                }
            }
            Action::TakeCompletion { scope, message_id, threshold } => {
                let due = self.checks.get(&key(scope)).is_some_and(|generation| {
                    generation.message_id == message_id && generation.reacted.len() >= threshold
                });
                Event::Flag(due && self.announced.insert(message_id))
            }
            Action::ReleaseCompletion { message_id, .. } => {
                self.announced.remove(&message_id);
                Event::Done(Ok(()))
            }
            Action::TakeOver { ready } => {
                self.ready_lobbies.insert(key(ready.scope), ready);
                Event::Done(Ok(()))
            }
            Action::ForgetCheck { scope } => {
                self.ready_lobbies.remove(&key(scope));
                self.checks.remove(&key(scope));
                Event::Done(Ok(()))
            }
            Action::DescribeCheck { players, threshold } => {
                Event::Text(format!("{players} players, {threshold} needed"))
            }
            Action::WordAnnouncement { kind, threshold } => {
                Event::Text(ready_announcement(kind, threshold))
            }
            Action::SelectCheckLobby { kind, .. } => match kind {
                Some(kind) => Event::Selected(Ok(kind)),
                None => Event::Selected(Err("Which lobby?".to_owned())),
            },
            Action::ResetLobby { request } => Event::Reset(self.reset(request)),
            Action::JoinLabels { kinds } => Event::Text(
                kinds.into_iter().map(label).collect::<Vec<_>>().join(" and "),
            ),
            Action::FindObserver => Event::Flag(self.observed),
            Action::TellJoin { event } => {
                self.confirmed.push(event);
                Event::Done(Ok(()))
            }
            Action::TellExplicitJoin { event } => {
                self.explicit.push(event);
                Event::Done(Ok(()))
            }
            Action::TellSpectator { spectator } => {
                self.gamba.push(spectator);
                Event::Done(Ok(()))
            }
            Action::TellReset { guild_id, kind } => {
                self.resets.push((guild_id, kind));
                Event::Done(Ok(()))
            }
            other => panic!("nobody can do this: {other:?}"),
        }
    }

    fn prepare(
        &mut self,
        request: ReadycheckCommandRequest,
        players: BTreeMap<i64, ReadycheckPlayerData>,
    ) -> Result<ReadycheckCommandPlan, ReadycheckCommandFailure> {
        let ready = self
            .ready_lobbies
            .get(&key(request.scope))
            .ok_or(ReadycheckCommandFailure::NoLobby)?;
        if !ready.players.contains(&request.invoker_id) {
            return Err(ReadycheckCommandFailure::NotMember);
        }
        if ready.thread_id.is_none() {
            return Err(ReadycheckCommandFailure::NoThread);
        }
        let mention_ids = players
            .iter()
            .filter(|(player, data)| {
                data.group != ReadinessGroup::Recent
                    && !(request.confirm_invoker && request.invoker_id == **player)
            })
            .map(|(player, _)| *player)
            .collect();
        let refresh = request.existing_message == ExistingMessageState::Available;
        self.permits += 1;
        Ok(ReadycheckCommandPlan {
            scope: request.scope,
            mode: if refresh { PublicationMode::Refresh } else { PublicationMode::New },
            permit: if refresh {
                None
            } else {
                Some(PublicationPermit {
                    id: self.permits,
                    invoker_id: request.invoker_id,
                    confirm_invoker: request.confirm_invoker,
                })
            },
            pruned_players: BTreeSet::new(),
            mention_ids,
            operations: Vec::new(),
        })
    }

    fn reset(&mut self, request: ResetLobbyRequest) -> Option<LobbyScope> {
        let scope = [LobbyKind::Open, LobbyKind::LowSkill]
            .into_iter()
            .map(|kind| LobbyScope::new(request.guild_id, kind))
            .filter(|scope| request.explicit_kind.is_none_or(|kind| kind == scope.kind))
            .find(|scope| {
                self.lobbies.get(&key(*scope)).is_some_and(|lobby| {
                    request.is_admin || lobby.created_by == Some(request.user_id)
                })
            })?;
        let lobby = self.lobbies.remove(&key(scope)).expect("lobby to be reset");
        let closed = close_lobby_message(
            scope.kind,
            &lobby.message_ids,
            "Reset",
            &self.settings.wording,
        )
        .expect("valid Discord ids");
        if let Some(replacement) = closed {
            self.edits.push((
                replacement.channel_id,
                replacement.message_id,
                replacement.message,
            ));
        }
        let unpinned = unpin_lobby_message(
            lobby.message_ids.channel_id,
            lobby.message_ids.message_id,
            request.interaction_channel_id,
        )
        .expect("valid Discord ids");
        self.unpinned.extend(unpinned);
        if let Some(thread_id) = lobby.message_ids.thread_id {
            let name = closed_name(scope.kind, "Reset", &self.settings.wording);
            self.archived.push((to_u64(thread_id).expect("thread id"), name));
        }
        let text = format!("✅ {} has been reset.", label(scope.kind));
        self.responses.followups.push(private_answer(text, AllowedMentions::Default));
        Some(scope)
    }

    fn dispatch(
        &mut self,
        name: &str,
        user_id: u64,
        display_name: &str,
        options: Vec<InteractionOption>,
    ) -> Responses {
        self.responses = Responses::default();
        let started = handle(InteractionRequest::Command {
            name: name.to_owned(),
            user_id,
            user_display_name: display_name.to_owned(),
            guild_id: Some(42),
            channel_id: Some(9),
            member_permissions: None,
            options,
        })
        .expect("registered lobby command");
        self.run(started, CommandFlow::resume).expect("dispatch lobby command");
        assert!(self.locks.is_empty(), "a scope is held after the command");
        std::mem::take(&mut self.responses)
    }

    fn observe(&mut self, event: RawReactionEvent) {
        let started = ReactionFlow::start(event);
        self.run(started, |flow, event, settings| flow.resume(event, &settings.wording))
            .expect("reaction is handled");
        assert!(self.locks.is_empty(), "a scope is held after the reaction");
    }

    fn add_fakes(&mut self, count: Option<usize>) -> AdminFakeLobbyResult {
        let started = FakeFlow::start(42, count);
        let result = self
            .run(started, |flow, event, settings| flow.resume(event, &settings.config))
            .expect("fake users are added");
        assert!(self.locks.is_empty(), "a scope is held after the filling");
        result
    }

    fn recover(&mut self, guilds: Vec<u64>) -> ReadyRecoveryReport {
        let started = RecoveryFlow::start(guilds);
        self.run(started, |flow, event, _| flow.resume(event))
    }

    fn show_curfew(&mut self, kind: LobbyKind) {
        let started = CurfewFlow::start(42, kind);
        self.run(started, |flow, event, _| flow.resume(event))
            .expect("refresh lobby display after curfew kick");
    }

    fn create_and_join(
        &mut self,
        kind: LobbyKind,
        creator: (u64, &str),
        player: (u64, &str),
    ) {
        self.dispatch("lobby", creator.0, creator.1, vec![lobby_option(kind)]);
        let message_id = self.message_id(kind);
        self.observe(raw_sword(RawReactionKind::Add, message_id, player.0, player.1));
    }
}

fn lobby_option(kind: LobbyKind) -> InteractionOption {
    InteractionOption {
        name: "lobby".to_owned(),
        value: InteractionValue::Text(lobby_kind_value(kind).to_owned()),
    }
}

fn player_option(player_id: u64, display_name: &str) -> InteractionOption {
    InteractionOption {
        name: "player".to_owned(),
        value: InteractionValue::User {
            id: player_id,
            display_name: Some(display_name.to_owned()),
            is_bot: Some(false),
        },
    }
}

fn reason_option(reason: &str) -> InteractionOption {
    InteractionOption {
        name: "reason".to_owned(),
        value: InteractionValue::Text(reason.to_owned()),
    }
}

fn raw_sword(
    kind: RawReactionKind,
    message_id: u64,
    user_id: u64,
    display_name: &str,
) -> RawReactionEvent {
    RawReactionEvent {
        kind,
        guild_id: Some(42),
        channel_id: 700,
        message_id,
        user_id,
        emoji: DiscordEmoji::unicode(SWORD_EMOJI),
        actor_display_name: Some(display_name.to_owned()),
    }
}

fn online(display_name: &str) -> GuildMember {
    GuildMember {
        display_name: display_name.to_owned(),
        activities: Vec::new(),
        in_voice: false,
        presence: DiscordPresence::Online,
    }
}

fn asleep(world: &mut World, player_id: i64) {
    world.curfews.insert(player_id, "sleep (23:00-07:00 UTC)".to_owned());
}

#[test]
fn test_addfake_adds_users_to_lobby() {
    let mut world = World::with_players(&[]);
    let result = world.add_fakes(Some(5));
    assert_eq!(result.users_added, 5);
    assert_eq!(world.lobby(LobbyKind::Open).players, (-5..=-1).collect());
}

#[test]
fn test_addfake_continues_numbering() {
    let mut world = World::with_players(&[]);
    let first = world.add_fakes(Some(3));
    let second = world.add_fakes(Some(3));
    assert_eq!(first.user_names, ["FakeUser1", "FakeUser2", "FakeUser3"]);
    assert_eq!(second.user_names, ["FakeUser4", "FakeUser5", "FakeUser6"]);
    assert_eq!(world.lobby(LobbyKind::Open).players, (-6..=-1).collect());
}

#[test]
fn test_addfake_refreshes_partial_lobby_message_without_fetch() {
    let mut world = World::with_players(&[(10, "Creator")]);
    world.dispatch("lobby", 10, "Creator", Vec::new());
    let fetches_before = world.fetches;
    let edits_before = world.edits.len();
    world.add_fakes(Some(1));
    assert_eq!(world.fetches, fetches_before);
    assert_eq!(world.edits.len(), edits_before + 1);
}

#[test]
fn test_filllobby_refreshes_partial_lobby_message_without_fetch() {
    let mut world = World::with_players(&[(10, "Creator")]);
    world.dispatch("lobby", 10, "Creator", Vec::new());
    let fetches_before = world.fetches;
    let edits_before = world.edits.len();
    world.add_fakes(None);
    assert_eq!(world.lobby(LobbyKind::Open).players.len(), runtime_config().ready_threshold);
    assert_eq!(world.fetches, fetches_before);
    assert_eq!(world.edits.len(), edits_before + 1);
    let joined = world.lobby(LobbyKind::Open).player_join_times[&-1];
    assert_eq!(f64::from_bits(joined.bits), NOW - 60.0);
}

#[test]
fn registration_exposes_the_complete_lobby_command_surface() {
    let registered = lobby_commands();
    let commands =
        registered.iter().map(|command| command.name.as_str()).collect::<BTreeSet<_>>();
    assert_eq!(
        commands,
        BTreeSet::from(["join", "kick", "leave", "lobby", "readycheck", "resetlobby"])
    );
}

#[test]
fn live_slash_creation_persists_and_restart_reuses_the_existing_discord_message() {
    let mut world = World::with_players(&[(10, "Creator")]);
    let captured = world.dispatch("lobby", 10, "Creator", vec![lobby_option(LobbyKind::Open)]);
    let first = world.lobby(LobbyKind::Open);
    assert_eq!(first.players, BTreeSet::from([10]));
    assert_eq!(first.message_ids.channel_id, Some(700));
    assert!(first.message_ids.message_id.is_some());
    assert!(first.message_ids.thread_id.is_some());
    assert_eq!(world.threads.len(), 1);
    assert_eq!(captured.deferred, [false]);
    assert!(captured.followups.iter().all(|response| {
        response.ephemeral && response.allowed_mentions == InteractionAllowedMentions::Nobody
    }));

    world.restart();
    assert_eq!(world.lobby(LobbyKind::Open).message_ids, first.message_ids);
    world.dispatch("lobby", 10, "Creator", vec![lobby_option(LobbyKind::Open)]);
    assert_eq!(
        world.threads.len(),
        1,
        "restart must reuse the persisted message/thread instead of duplicating the lobby"
    );
}

#[test]
fn test_lobby_state_restored_after_restart() {
    let mut world = World::with_players(&[
        (10, "Creator"),
        (20, "Second"),
        (30, "Third"),
        (40, "Fourth"),
    ]);
    world.dispatch("lobby", 10, "Creator", vec![lobby_option(LobbyKind::Open)]);
    let message_id = world.message_id(LobbyKind::Open);
    for (player_id, player_name) in [(20, "Second"), (30, "Third"), (40, "Fourth")] {
        world.observe(raw_sword(RawReactionKind::Add, message_id, player_id, player_name));
    }
    let before = world.lobby(LobbyKind::Open);
    assert_eq!(before.created_by, Some(10));
    assert_eq!(before.players, BTreeSet::from([10, 20, 30, 40]));

    world.restart();
    let after = world.lobby(LobbyKind::Open);
    assert_eq!(after.created_by, before.created_by);
    assert_eq!(after.players, before.players);
    assert_eq!(after.message_ids, before.message_ids);
    assert_eq!(after.player_join_times, before.player_join_times);
}

#[test]
fn raw_sword_routes_are_kind_scoped_dual_seat_persistent_and_mention_safe() {
    let mut world = World::with_players(&[(10, "Creator"), (20, "Dual Queue")]);
    for kind in [LobbyKind::Open, LobbyKind::LowSkill] {
        world.dispatch("lobby", 10, "Creator", vec![lobby_option(kind)]);
        let message_id = world.message_id(kind);
        world.observe(raw_sword(RawReactionKind::Add, message_id, 20, "Dual Queue"));
    }
    assert_eq!(world.kinds_of(20), vec![LobbyKind::Open, LobbyKind::LowSkill]);
    let open_message_id = world.message_id(LobbyKind::Open);
    world.observe(raw_sword(RawReactionKind::Remove, open_message_id, 20, "Dual Queue"));
    assert_eq!(world.kinds_of(20), vec![LobbyKind::LowSkill]);

    world.restart();
    assert_eq!(
        world.kinds_of(20),
        vec![LobbyKind::LowSkill],
        "raw add/remove mutations must survive process restart"
    );
    for sent in &world.sent {
        if sent.message.response.content.contains("<@") {
            let DiscordAllowedMentions::Users(users) = &sent.message.allowed_mentions else {
                panic!("message containing a user tag must carry an explicit user allowlist");
            };
            assert!(!users.is_empty());
            assert!(users.iter().all(|user_id| [10, 20].contains(user_id)));
        }
    }
}

#[test]
fn raw_jopacoin_subscribes_the_thread_then_invokes_the_shared_neon_observer() {
    let mut world = World::with_players(&[(10, "Creator"), (20, "Spectator")]);
    world.observed = true;
    world.dispatch("lobby", 10, "Creator", vec![lobby_option(LobbyKind::Open)]);
    let message_id = world.message_id(LobbyKind::Open);
    world.users.insert(20, "Fetched Spectator".to_owned());
    let reaction = |user_id, name: Option<&str>| RawReactionEvent {
        kind: RawReactionKind::Add,
        guild_id: Some(42),
        channel_id: 700,
        message_id,
        user_id,
        emoji: DiscordEmoji::custom("jopacoin", JOPACOIN_EMOJI_ID),
        actor_display_name: name.map(str::to_owned),
    };

    world.observe(reaction(20, None));
    assert_eq!(
        world.gamba,
        vec![LobbyGambaSpectator {
            guild_id: 42,
            player_id: 20,
            player_display_name: "Fetched Spectator".to_owned(),
            channel_id: 700,
        }]
    );
    assert!(world.sent.iter().any(|sent| {
        sent.message.response.content == format!("{JOPACOIN_EMOTE} <@20> is here for the gamba!")
            && sent.message.allowed_mentions == DiscordAllowedMentions::Users(BTreeSet::from([20]))
    }));

    world.observe(reaction(10, Some("Creator")));
    assert_eq!(world.gamba.len(), 1);
}

#[test]
fn suspension_rejects_slash_and_raw_with_private_context_while_low_priority_still_joins() {
    let mut world =
        World::with_players(&[(10, "Creator"), (20, "Suspended"), (30, "Low Priority")]);
    world.dispatch("lobby", 10, "Creator", vec![lobby_option(LobbyKind::Open)]);
    let lobby_message_id = world.message_id(LobbyKind::Open);
    world.suspensions.insert(
        20,
        LobbySuspension {
            scope: SuspensionScope::Open,
            expires_at: Some(1_700_003_600),
            matches_remaining: None,
            completion: SuspensionCompletion::Time,
            reason: "Take a matchmaking break".to_owned(),
        },
    );

    world.observe(raw_sword(RawReactionKind::Add, lobby_message_id, 20, "Suspended"));
    assert!(!world.lobby(LobbyKind::Open).players.contains(&20));
    assert!(world.removed_reactions.iter().any(|(_, message_id, emoji, user_id)| {
        *message_id == lobby_message_id && emoji.name == SWORD_EMOJI && *user_id == 20
    }));
    let (recipient, direct) = world.direct_messages.last().expect("suspension DM");
    assert_eq!(*recipient, 20);
    assert_eq!(
        direct.response.content,
        "You are temporarily suspended from this matchmaking lobby.\nReason: Take a matchmaking break\nUse `/player lobby status` in the server for the exact remaining term."
    );
    let public = world.sent.last().expect("public suspension rejection");
    assert_eq!(
        public.message.response.content,
        "<@20> ❌ You are temporarily restricted from this matchmaking lobby. Check your DMs or use `/player lobby status`."
    );
    assert_eq!(
        public.message.allowed_mentions,
        DiscordAllowedMentions::Users(BTreeSet::from([20]))
    );

    let captured = world.dispatch("join", 20, "Suspended", vec![lobby_option(LobbyKind::Open)]);
    assert_eq!(captured.deferred, [true]);
    let response = captured.followups.last().expect("slash rejection");
    assert!(response.ephemeral);
    assert!(response.content.contains("suspended from 🍽️ All You Can Feed"));
    assert!(response.content.contains("Reason: Take a matchmaking break"));

    world.observe(raw_sword(RawReactionKind::Add, lobby_message_id, 30, "Low Priority"));
    assert!(world.lobby(LobbyKind::Open).players.contains(&30));
}

#[test]
fn ready_recovery_repaints_persisted_lobbies_and_removes_the_legacy_reaction() {
    let mut world = World::with_players(&[(10, "Creator")]);
    world.dispatch("lobby", 10, "Creator", vec![lobby_option(LobbyKind::Open)]);
    let channel_id = to_u64(world.lobby(LobbyKind::Open).message_ids.channel_id.expect("channel"))
        .expect("channel id");
    let message_id = world.message_id(LobbyKind::Open);
    world
        .messages
        .get_mut(&(channel_id, message_id))
        .expect("seeded message")
        .reactions
        .push(DiscordEmoji::custom("frogling", LEGACY_FROGLING_EMOJI_ID));
    let edits_before = world.edits.len();

    let report = world.recover(vec![42]);
    assert_eq!(report.observer, "lobby-message-reconciliation");
    assert_eq!(report.guilds_attempted, 1);
    assert_eq!(report.guilds_refreshed, 1);
    assert!(report.failures.is_empty());
    assert!(world.edits.len() > edits_before);
    assert!(world
        .cleared_reactions
        .iter()
        .any(|(_, _, emoji)| emoji.id == Some(LEGACY_FROGLING_EMOJI_ID)));
}

#[test]
fn inferred_creator_reset_runs_cleanup_and_clears_the_existing_schema_row() {
    let mut world = World::with_players(&[(10, "Creator")]);
    world.observed = true;
    world.dispatch("lobby", 10, "Creator", vec![lobby_option(LobbyKind::Open)]);

    let captured = world.dispatch("resetlobby", 10, "Creator", Vec::new());
    assert!(!world.lobbies.contains_key(&key(scope(LobbyKind::Open))));
    assert_eq!(world.archived.len(), 1);
    assert_eq!(world.archived[0].1, "🍽️ All You Can Feed — Reset");
    assert_eq!(world.unpinned.len(), 1);
    assert_eq!(world.resets, vec![(42, LobbyKind::Open)]);
    assert_eq!(captured.deferred, [true]);
    assert!(captured.followups.iter().any(|response| {
        response.ephemeral
            && response.allowed_mentions == InteractionAllowedMentions::Default
            && response.content.to_lowercase().contains("reset")
    }));
}

#[test]
fn test_kick_reason_is_optional_and_privately_bounded() {
    let registered = lobby_commands();
    let kick = registered
        .iter()
        .find(|command| command.name == "kick")
        .expect("registered kick command");
    let reason = kick
        .options
        .iter()
        .find(|option| option.name == "reason")
        .expect("optional kick reason");
    assert!(!reason.required);
    assert_eq!(reason.min_length, Some(3));
    assert_eq!(reason.max_length, Some(300));
}

#[test]
fn test_kick_removes_reaction_and_updates_message() {
    let mut world = World::with_players(&[(1, "Admin"), (42, "Target")]);
    world.settings.config.admin_user_ids.insert(1);
    world.create_and_join(LobbyKind::Open, (1, "Admin"), (42, "Target"));
    let (edits_before, removals_before) = (world.edits.len(), world.removed_reactions.len());

    let captured = world.dispatch("kick", 1, "Admin", vec![player_option(42, "Target")]);
    assert!(world.edits.len() > edits_before);
    assert!(world.removed_reactions.len() > removals_before);
    assert_eq!(captured.deferred, [true]);
    assert!(captured.followups.iter().any(|response| {
        response.ephemeral
            && response.content == format!("✅ Kicked <@42> from {}.", label(LobbyKind::Open))
    }));
}

#[test]
fn test_creator_who_left_lobby_can_no_longer_kick() {
    let mut world = World::with_players(&[(7, "Creator"), (42, "Target")]);
    world.create_and_join(LobbyKind::Open, (7, "Creator"), (42, "Target"));
    assert!(world.remove(7, scope(LobbyKind::Open)));

    let captured = world.dispatch("kick", 7, "Creator", vec![player_option(42, "Target")]);
    assert!(world.lobby(LobbyKind::Open).players.contains(&42));
    assert!(captured
        .followups
        .iter()
        .any(|response| response.ephemeral && response.content.contains("Permission denied")));
}

#[test]
fn test_creator_kick_audits_optional_reason_without_posting_it_publicly() {
    let mut world = World::with_players(&[(10, "Creator"), (20, "Target")]);
    world.create_and_join(LobbyKind::Open, (10, "Creator"), (20, "Target"));
    world.dispatch(
        "kick",
        10,
        "Creator",
        vec![
            player_option(20, "Target"),
            reason_option("repeated ready-check griefing"),
        ],
    );
    assert_eq!(world.kicks.len(), 1);
    assert_eq!(world.kicks[0].lobby_kind, SuspensionScope::Open);
    assert_eq!(world.kicks[0].source, ModerationSource::Creator);
    assert_eq!(world.kicks[0].actor_id, 10);
    assert_eq!(world.kicks[0].reason.as_deref(), Some("repeated ready-check griefing"));
    assert_eq!(world.direct_messages.len(), 1);
    assert!(world.direct_messages[0]
        .1
        .response
        .content
        .contains("repeated ready-check griefing"));
    assert!(world
        .sent
        .iter()
        .all(|sent| !sent.message.response.content.contains("repeated ready-check griefing")));
}

#[test]
fn test_admin_kick_clears_both_lobbies_with_a_single_dm() {
    let mut world = World::with_players(&[(1, "Admin"), (42, "Target"), (99, "Owner")]);
    world.settings.config.admin_user_ids.insert(1);
    for kind in [LobbyKind::Open, LobbyKind::LowSkill] {
        world.create_and_join(kind, (99, "Owner"), (42, "Target"));
    }
    let captured = world.dispatch(
        "kick",
        1,
        "Admin",
        vec![player_option(42, "Target"), reason_option("queue griefing")],
    );
    for kind in [LobbyKind::Open, LobbyKind::LowSkill] {
        assert!(!world.lobby(kind).players.contains(&42));
    }
    assert_eq!(world.kicks.len(), 2);
    assert_eq!(
        world.kicks.iter().rev().map(|record| record.lobby_kind).collect::<Vec<_>>(),
        vec![SuspensionScope::Lowskill, SuspensionScope::Open]
    );
    assert!(world.kicks.iter().all(|record| record.source == ModerationSource::Admin));
    assert_eq!(world.direct_messages.len(), 1);
    let dm = &world.direct_messages[0].1.response.content;
    assert!(dm.contains("queue griefing"));
    assert!(dm.contains(OPEN_LABEL));
    assert!(dm.contains(LOW_SKILL_LABEL));
    assert!(captured.followups.iter().any(|response| {
        response.content.contains(OPEN_LABEL) && response.content.contains(LOW_SKILL_LABEL)
    }));
}

#[test]
fn test_creator_kick_reaches_only_the_lobby_they_opened() {
    let mut world = World::with_players(&[(7, "Creator"), (42, "Target"), (99, "Owner")]);
    world.create_and_join(LobbyKind::Open, (7, "Creator"), (42, "Target"));
    world.create_and_join(LobbyKind::LowSkill, (99, "Owner"), (42, "Target"));
    let captured = world.dispatch("kick", 7, "Creator", vec![player_option(42, "Target")]);
    assert!(!world.lobby(LobbyKind::Open).players.contains(&42));
    assert!(world.lobby(LobbyKind::LowSkill).players.contains(&42));
    let response = captured.followups.last().expect("kick response");
    assert!(response.content.contains(OPEN_LABEL));
    assert!(!response.content.contains(LOW_SKILL_LABEL));
}

#[test]
fn test_non_creator_cannot_kick_from_either_lobby() {
    let mut world = World::with_players(&[(7, "Member"), (42, "Target"), (99, "Owner")]);
    for kind in [LobbyKind::Open, LobbyKind::LowSkill] {
        world.create_and_join(kind, (99, "Owner"), (7, "Member"));
        let message_id = world.message_id(kind);
        world.observe(raw_sword(RawReactionKind::Add, message_id, 42, "Target"));
    }
    let captured = world.dispatch("kick", 7, "Member", vec![player_option(42, "Target")]);
    for kind in [LobbyKind::Open, LobbyKind::LowSkill] {
        assert!(world.lobby(kind).players.contains(&42));
    }
    assert!(captured
        .followups
        .iter()
        .any(|response| response.ephemeral && response.content.contains("Permission denied")));
}

#[test]
fn live_readycheck_reaches_quorum_once_with_explicit_user_allowlists() {
    let mut world = World::with_players(&[(10, "Creator"), (20, "Second")]);
    world.create_and_join(LobbyKind::Open, (10, "Creator"), (20, "Second"));
    for (user_id, display_name) in [(10, "Creator"), (20, "Second")] {
        world.members.insert(user_id, online(display_name));
    }
    world.dispatch("readycheck", 10, "Creator", vec![lobby_option(LobbyKind::Open)]);
    let announcement = ready_announcement(LobbyKind::Open, 2);
    assert_eq!(
        world
            .sent
            .iter()
            .filter(|sent| sent.message.response.content == announcement)
            .count(),
        1,
        "one readycheck generation emits the quorum announcement exactly once"
    );
    assert!(world.sent.iter().any(|sent| {
        sent.channel_id == 9
            && sent.message.response.content == announcement
            && sent
                .message
                .response
                .content
                .ends_with("You can `/shuffle` now; only ready players will be included.")
    }));
    assert!(world
        .sent
        .iter()
        .filter(|sent| sent.message.response.content.contains("<@"))
        .all(|sent| match &sent.message.allowed_mentions {
            DiscordAllowedMentions::Users(users) => !users.is_empty(),
            DiscordAllowedMentions::Nobody => false,
        }));
}

#[test]
fn successful_bell_shortcut_advertises_in_the_persisted_origin_channel() {
    let mut world = World::with_players(&[(10, "Creator")]);
    world.dispatch("lobby", 10, "Creator", vec![lobby_option(LobbyKind::Open)]);
    let aged = NOW - 11.0 * 60.0;
    world
        .lobbies
        .get_mut(&key(scope(LobbyKind::Open)))
        .expect("persisted lobby")
        .player_join_times
        .insert(10, JoinTime { bits: aged.to_bits() });
    world.restart();
    world.members.insert(10, online("Creator"));
    let message_id = world.message_id(LobbyKind::Open);
    let sent_before = world.sent.len();
    world.observe(RawReactionEvent {
        kind: RawReactionKind::Add,
        guild_id: Some(42),
        channel_id: 700,
        message_id,
        user_id: 10,
        emoji: DiscordEmoji::unicode(BELL_EMOJI),
        actor_display_name: Some("Creator".to_owned()),
    });
    assert!(world.sent[sent_before..].iter().any(|sent| {
        sent.channel_id == 9
            && sent.message.response.content.contains("[React in the lobby thread]")
            && sent.message.allowed_mentions == DiscordAllowedMentions::Users(BTreeSet::from([10]))
    }));
}

#[test]
fn live_readycheck_reconciles_raw_join_and_leave_against_the_active_generation() {
    let mut world = World::with_players(&[(10, "Creator"), (20, "Recent Join")]);
    world.dispatch("lobby", 10, "Creator", vec![lobby_option(LobbyKind::Open)]);
    let lobby_message_id = world.message_id(LobbyKind::Open);
    world.dispatch("readycheck", 10, "Creator", vec![lobby_option(LobbyKind::Open)]);
    let before = world.check(LobbyKind::Open);
    assert_eq!(before.lobby_ids, BTreeSet::from([10]));

    world.observe(raw_sword(RawReactionKind::Add, lobby_message_id, 20, "Recent Join"));
    let joined = world.check(LobbyKind::Open);
    assert_eq!(joined.lobby_ids, BTreeSet::from([10, 20]));
    assert!(joined.reacted.contains_key(&20));
    let check_message_id = to_u64(joined.message_id).expect("readycheck message");
    assert!(world.edits.iter().any(|(_, message_id, message)| {
        *message_id == check_message_id
            && message.content_mode == DiscordMessageContentMode::Preserve
    }));
    let announcement = ready_announcement(LobbyKind::Open, 2);
    assert_eq!(
        world
            .sent
            .iter()
            .filter(|sent| sent.message.response.content == announcement)
            .count(),
        1
    );

    world.observe(raw_sword(RawReactionKind::Remove, lobby_message_id, 20, "Recent Join"));
    let left = world.check(LobbyKind::Open);
    assert_eq!(left.lobby_ids, BTreeSet::from([10]));
    assert!(!left.reacted.contains_key(&20));
    assert!(world.sent.iter().any(|sent| {
        sent.message.response.content == "🚪 Recent Join left 🍽️ All You Can Feed."
    }));
    assert!(world.removed_reactions.iter().any(|(_, message_id, emoji, user_id)| {
        *message_id == to_u64(left.message_id).expect("readycheck message")
            && emoji.name == READY_EMOJI
            && *user_id == 20
    }));
}

#[test]
fn test_join_blocked_during_active_curfew_window() {
    let mut world = World::with_players(&[(99, "Creator"), (1, "Sleepy")]);
    world.dispatch("lobby", 99, "Creator", vec![lobby_option(LobbyKind::Open)]);
    asleep(&mut world, 1);
    let captured = world.dispatch("join", 1, "Sleepy", vec![lobby_option(LobbyKind::Open)]);
    let response = captured.followups.last().expect("curfew rejection");
    assert!(response.ephemeral);
    assert!(response.content.to_lowercase().contains("sleep"));
    assert!(!world.lobby(LobbyKind::Open).players.contains(&1));
}

#[test]
fn test_join_allowed_outside_curfew_window() {
    let mut world = World::with_players(&[(99, "Creator"), (1, "Player")]);
    world.dispatch("lobby", 99, "Creator", vec![lobby_option(LobbyKind::Open)]);
    world.dispatch("join", 1, "Player", vec![lobby_option(LobbyKind::Open)]);
    assert!(world.lobby(LobbyKind::Open).players.contains(&1));
}

#[test]
fn test_join_allowed_when_curfew_service_unwired() {
    let mut world = World::with_players(&[(99, "Creator"), (1, "Player")]);
    world.curfews.clear();
    world.dispatch("lobby", 99, "Creator", vec![lobby_option(LobbyKind::Open)]);
    world.dispatch("join", 1, "Player", vec![lobby_option(LobbyKind::Open)]);
    assert!(world.lobby(LobbyKind::Open).players.contains(&1));
}

#[test]
fn test_curfew_sweep_refreshes_the_lobby_display_after_removing_a_player() {
    let mut world = World::with_players(&[(99, "Creator"), (1, "Sleepy")]);
    world.dispatch("lobby", 99, "Creator", vec![lobby_option(LobbyKind::Open)]);
    world.dispatch("join", 1, "Sleepy", vec![lobby_option(LobbyKind::Open)]);
    assert!(world.lobby(LobbyKind::Open).players.contains(&1));
    asleep(&mut world, 1);
    let edits_before = world.edits.len();
    assert!(world.remove(1, scope(LobbyKind::Open)));
    world.show_curfew(LobbyKind::Open);
    assert!(!world.lobby(LobbyKind::Open).players.contains(&1));
    assert!(
        world.edits.len() > edits_before,
        "the lobby's Discord message must be edited after a curfew kick, not just mutated in memory"
    );
}

#[test]
fn test_curfew_sweep_removes_the_kicked_players_sword_reaction() {
    let mut world = World::with_players(&[(99, "Creator"), (1, "Sleepy")]);
    world.create_and_join(LobbyKind::Open, (99, "Creator"), (1, "Sleepy"));
    assert!(world.lobby(LobbyKind::Open).players.contains(&1));
    let lobby_message_id = world.message_id(LobbyKind::Open);
    asleep(&mut world, 1);
    assert!(world.remove(1, scope(LobbyKind::Open)));
    let started = RemovalFlow::start(scope(LobbyKind::Open), 1);
    world
        .run(started, |flow, event, _| flow.resume(event))
        .expect("remove sword reaction after curfew kick");
    assert!(
        world.removed_reactions.iter().any(|(_, message_id, emoji, user_id)| {
            *message_id == lobby_message_id && emoji.name == SWORD_EMOJI && *user_id == 1
        }),
        "curfew kick must remove the kicked player's own sword reaction"
    );
}

#[test]
fn test_curfew_sweep_removes_the_kicked_player_from_the_active_readycheck() {
    let mut world = World::with_players(&[(99, "Creator"), (1, "Sleepy")]);
    world.dispatch("lobby", 99, "Creator", vec![lobby_option(LobbyKind::Open)]);
    world.dispatch("join", 1, "Sleepy", vec![lobby_option(LobbyKind::Open)]);
    world.dispatch("readycheck", 99, "Creator", vec![lobby_option(LobbyKind::Open)]);
    let before = world.check(LobbyKind::Open);
    assert!(before.lobby_ids.contains(&1));
    assert!(
        before.reacted.contains_key(&1),
        "a just-joined player auto-confirms as a recent signup"
    );
    let readycheck_message_id = to_u64(before.message_id).expect("readycheck Discord message");
    asleep(&mut world, 1);
    let edits_before = world.edits.len();
    assert!(world.remove(1, scope(LobbyKind::Open)));
    world.show_curfew(LobbyKind::Open);
    let after = world.check(LobbyKind::Open);
    assert!(
        !after.lobby_ids.contains(&1),
        "curfew kick must remove the player from the readycheck roster"
    );
    assert!(
        !after.reacted.contains_key(&1),
        "curfew kick must drop the player's readycheck confirmation"
    );
    assert!(
        world.removed_reactions.iter().any(|(_, message_id, emoji, user_id)| {
            *message_id == readycheck_message_id && emoji.name == READY_EMOJI && *user_id == 1
        }),
        "curfew kick must remove the player's physical readycheck reaction"
    );
    assert!(
        world.edits.len() > edits_before,
        "the readycheck message must be repainted after a curfew kick"
    );
}

#[test]
fn test_auto_join_blocked_during_active_curfew_window() {
    let mut world = World::with_players(&[(99, "Creator"), (1, "Sleepy")]);
    world.dispatch("lobby", 99, "Creator", vec![lobby_option(LobbyKind::Open)]);
    asleep(&mut world, 1);
    let captured = world.dispatch("lobby", 1, "Sleepy", vec![lobby_option(LobbyKind::Open)]);
    let response = captured.followups.last().expect("curfew rejection");
    assert!(response.content.to_lowercase().contains("sleep"));
    assert!(!world.lobby(LobbyKind::Open).players.contains(&1));
}

#[test]
fn test_sword_reaction_join_blocked_during_active_curfew_window() {
    let mut world = World::with_players(&[(99, "Creator"), (1, "Sleepy")]);
    world.dispatch("lobby", 99, "Creator", vec![lobby_option(LobbyKind::Open)]);
    let lobby_message_id = world.message_id(LobbyKind::Open);
    asleep(&mut world, 1);
    world.observe(raw_sword(RawReactionKind::Add, lobby_message_id, 1, "Sleepy"));
    assert!(!world.lobby(LobbyKind::Open).players.contains(&1));
    assert!(world.removed_reactions.iter().any(|(_, message_id, emoji, user_id)| {
        *message_id == lobby_message_id && emoji.name == SWORD_EMOJI && *user_id == 1
    }));
    let public = world.sent.last().expect("public curfew rejection");
    assert!(public.message.response.content.to_lowercase().contains("sleep"));
}

#[test]
fn explicit_joins_are_told_apart_from_other_joins() {
    let mut world = World::with_players(&[(10, "Creator"), (20, "Second"), (30, "Third")]);
    world.observed = true;
    world.create_and_join(LobbyKind::Open, (10, "Creator"), (20, "Second"));
    assert!(world.explicit.is_empty());
    let captured = world.dispatch("join", 30, "Third", vec![lobby_option(LobbyKind::Open)]);
    assert_eq!(captured.followups.len(), 1);
    assert_eq!(captured.followups[0].content, "✅ Joined 🍽️ All You Can Feed!");
    assert_eq!(world.confirmed.len(), 3);
    assert_eq!(world.explicit.len(), 1);
    assert_eq!(world.explicit[0], world.confirmed[2]);
    assert_eq!(world.explicit[0].player_id, 30);
    assert_eq!(world.explicit[0].player_ids, BTreeSet::from([10, 20, 30]));
    assert_eq!(world.explicit[0].origin_channel_id, Some(9));
}

#[test]
fn leaving_takes_a_player_out_of_every_lobby() {
    let mut world = World::with_players(&[(10, "Creator"), (20, "Second")]);
    for kind in [LobbyKind::Open, LobbyKind::LowSkill] {
        world.create_and_join(kind, (10, "Creator"), (20, "Second"));
    }
    let captured = world.dispatch("leave", 20, "Second", Vec::new());
    assert_eq!(captured.deferred, [true]);
    assert_eq!(
        captured.followups[0].content,
        "✅ Left 🍽️ All You Can Feed and 🧀 Whine & Cheese."
    );
    assert!(world.kinds_of(20).is_empty());
    assert_eq!(world.kinds_of(10), vec![LobbyKind::Open, LobbyKind::LowSkill]);
    let again = world.dispatch("leave", 20, "Second", Vec::new());
    assert_eq!(again.followups[0].content, "⚠️ You're not in a lobby.");
}
