//! Procedures turn by turn, where something is refused or goes wrong.
use std::collections::{BTreeMap, BTreeSet};

use lobby_provider::answers::Handled;
use lobby_provider::commands::{
    CommandContext, HandlerError, InteractionOption, InteractionRequest, InteractionValue,
};
use lobby_provider::config::LobbyRuntimeConfig;
use lobby_provider::flows::board::{AnnounceFlow, BoardFlow, BoardTask};
use lobby_provider::flows::check::{CheckFlow, CheckRequest};
use lobby_provider::flows::classify::ClassifyFlow;
use lobby_provider::flows::command::{handle, CommandFlow};
use lobby_provider::flows::completion::CompletionFlow;
use lobby_provider::flows::curfew::CurfewFlow;
use lobby_provider::flows::display::{DisplayFlow, RemovalFlow};
use lobby_provider::flows::eject::{
    AdminLobbyEjectionRequest, AdminLobbyEjectionResult, EjectFlow,
};
use lobby_provider::flows::fake::{AdminFakeLobbyResult, FakeFlow};
use lobby_provider::flows::lobby::{RATED_TOO_HIGH, THREADS_NEEDED};
use lobby_provider::flows::naming::NamingFlow;
use lobby_provider::flows::notices::{JoinNotice, LeaveNotice};
use lobby_provider::flows::procedure::Procedure;
use lobby_provider::flows::publication::PublicationFlow;
use lobby_provider::flows::reaction::{
    RawReactionEvent, RawReactionKind, ReactionFlow, LEGACY_FROGLING_EMOJI_ID,
};
use lobby_provider::flows::reconcile::ReconcileFlow;
use lobby_provider::flows::recovery::{ReadyRecoveryFailure, RecoveryFlow};
use lobby_provider::flows::seat::SeatFlow;
use lobby_provider::joining::{
    JoinFailure, JoinOutcome, JoinPresentation, JoinRejection, Joiner, PendingMatchState, Player,
};
use lobby_provider::kinds::{LobbyKind, LobbyScope, Wording};
use lobby_provider::lobby::{to_ready_lobby, JoinTime, LobbyMessageIds, LobbySnapshot};
use lobby_provider::matching::MatchLobbyPort;
use lobby_provider::message::{
    DiscordAllowedMentions, DiscordEmoji, DiscordMessage, DiscordMessageContentMode,
    DiscordMessageReceipt, DiscordMessageSnapshot, EmbedModel,
};
use lobby_provider::moderation::{LobbySuspension, SuspensionCompletion, SuspensionScope};
use lobby_provider::plan::{
    ExistingMessageState, PlanOperation, PlanOrder, PublicationMode, PublicationPermit,
    ReadycheckCommandPlan,
};
use lobby_provider::presence::{DiscordPresence, GuildMember, ReadinessGroup};
use lobby_provider::protocol::{
    whisper_back, Action, AddOutcome, CreationCause, CreationFailure, Event, Next, Settings, Turn,
    WorkFailure,
};
use lobby_provider::readycheck::{
    ReadycheckBoard, ReadycheckCommandFailure, ReadycheckGeneration, ReadycheckPlayerData,
    ReadycheckRunError, ReadycheckRunResult,
};

fn settings() -> Settings {
    Settings {
        config: LobbyRuntimeConfig {
            lobby_channel_id: Some(700),
            low_skill_lobby_channel_id: None,
            admin_user_ids: BTreeSet::from([1]),
            ready_threshold: 2,
            max_players: 20,
            first_game_pool_daily_amount: 100,
        },
        wording: Wording {
            open_label: "OPEN".to_owned(),
            open_name: "Open".to_owned(),
            low_skill_label: "LOW".to_owned(),
            low_skill_name: "Low".to_owned(),
            jopacoin_emoji_id: 77,
            jopacoin_emote: "<:jopacoin:77>".to_owned(),
        },
    }
}

fn open() -> LobbyScope {
    LobbyScope::new(42, LobbyKind::Open)
}

fn low() -> LobbyScope {
    LobbyScope::new(42, LobbyKind::LowSkill)
}

fn lobby() -> LobbySnapshot {
    LobbySnapshot {
        scope: open(),
        created_by: Some(10),
        created_at_ns: 0,
        players: BTreeSet::from([10, 20]),
        player_join_times: BTreeMap::new(),
        message_ids: LobbyMessageIds {
            message_id: Some(1_000),
            channel_id: Some(700),
            thread_id: Some(21_000),
            embed_message_id: Some(1_000),
            origin_channel_id: Some(9),
        },
    }
}

fn bare_lobby() -> LobbySnapshot {
    let mut lobby = lobby();
    lobby.message_ids = LobbyMessageIds {
        message_id: None,
        channel_id: None,
        thread_id: None,
        embed_message_id: None,
        origin_channel_id: None,
    };
    lobby
}

fn player() -> Player {
    Player { name: "creator".to_owned(), preferred_roles: Some(vec!["1".to_owned()]) }
}

fn receipt(channel_id: u64, message_id: u64) -> DiscordMessageReceipt {
    DiscordMessageReceipt { channel_id, message_id, jump_url: "https://x".to_owned() }
}

fn model() -> EmbedModel {
    EmbedModel { title: None, description: None, footer: None, fields: Vec::new() }
}

fn generation() -> ReadycheckGeneration {
    ReadycheckGeneration {
        channel_id: 21_000,
        message_id: 1_500,
        lobby_ids: BTreeSet::from([10, 20]),
        player_data: BTreeMap::new(),
        reacted: BTreeMap::new(),
        declined: BTreeSet::new(),
    }
}

fn refused_work() -> WorkFailure {
    WorkFailure { cut_short: false, report: "locked".to_owned() }
}

fn crashed_work() -> WorkFailure {
    WorkFailure { cut_short: true, report: "panicked".to_owned() }
}

fn done() -> Event {
    Event::Done(Ok(()))
}

fn failed(text: &str) -> Event {
    Event::Done(Err(text.to_owned()))
}

fn lock(scope: LobbyScope) -> Action {
    Action::Lock { scope }
}

fn unlock(scope: LobbyScope) -> Action {
    Action::Unlock { scope }
}

fn whisper(text: &str) -> Action {
    whisper_back(text.to_owned())
}

fn option(name: &str, value: InteractionValue) -> InteractionOption {
    InteractionOption { name: name.to_owned(), value }
}

fn target(id: u64) -> InteractionOption {
    option(
        "player",
        InteractionValue::User { id, display_name: Some("Target".to_owned()), is_bot: None },
    )
}

fn context(name: &str, options: Vec<InteractionOption>) -> CommandContext {
    CommandContext {
        name: name.to_owned(),
        user_id: 10,
        user_display_name: "Creator".to_owned(),
        guild_id: Some(42),
        channel_id: Some(9),
        member_permissions: None,
        options,
    }
}

/// Runs a command on these events and gives its last turn.
fn command(context: CommandContext, events: Vec<Event>) -> Turn<Handled> {
    let settings = settings();
    let (mut flow, mut turn) = CommandFlow::start(context).expect("a registered command");
    for event in events {
        (flow, turn) = flow.resume(event, &settings);
    }
    turn
}

fn reaction(emoji: DiscordEmoji, kind: RawReactionKind) -> RawReactionEvent {
    RawReactionEvent {
        kind,
        guild_id: Some(42),
        channel_id: 700,
        message_id: 1_000,
        user_id: 20,
        emoji,
        actor_display_name: Some("Second".to_owned()),
    }
}

/// Runs a reaction on these events and gives its last turn.
fn react(event: RawReactionEvent, events: Vec<Event>) -> Turn<Result<(), String>> {
    let settings = settings();
    let (mut flow, mut turn) = ReactionFlow::start(event);
    for event in events {
        (flow, turn) = flow.resume(event, &settings.wording);
    }
    turn
}

#[test]
fn commands_outside_a_server_are_refused() {
    for name in ["lobby", "kick", "join", "leave", "resetlobby", "readycheck"] {
        let mut context = context(name, Vec::new());
        context.guild_id = None;
        let turn = command(context, vec![done()]);
        assert_eq!(turn, Turn::ask(whisper("This command can only be used in a server.")));
    }
}

#[test]
fn commands_that_cannot_be_acknowledged_fail() {
    for name in ["lobby", "kick", "join", "leave", "resetlobby", "readycheck"] {
        let turn = command(context(name, Vec::new()), vec![failed("gone")]);
        assert_eq!(turn, Turn::end(Err(HandlerError::Message("gone".to_owned()))));
    }
}

#[test]
fn only_two_commands_are_acknowledged_for_all() {
    for (name, ephemeral) in [
        ("lobby", false),
        ("kick", true),
        ("join", true),
        ("leave", true),
        ("resetlobby", true),
        ("readycheck", false),
    ] {
        let turn = command(context(name, Vec::new()), Vec::new());
        assert_eq!(turn, Turn::ask(Action::Defer { ephemeral }));
    }
}

#[test]
fn unknown_requests_are_refused() {
    assert!(handle(InteractionRequest::Component).is_err());
    let request = InteractionRequest::Command {
        name: "shuffle".to_owned(),
        user_id: 10,
        user_display_name: "Creator".to_owned(),
        guild_id: None,
        channel_id: None,
        member_permissions: None,
        options: Vec::new(),
    };
    assert_eq!(
        handle(request),
        Err(HandlerError::Message("unexpected lobby command shuffle".to_owned()))
    );
}

#[test]
fn events_that_answer_nothing_are_waited_out() {
    let turn = command(context("lobby", Vec::new()), vec![Event::Flag(true)]);
    assert_eq!(turn, Turn::wait());
    let turn = command(context("join", Vec::new()), vec![done(), done()]);
    assert_eq!(turn, Turn::wait());
}

#[test]
fn unregistered_players_are_sent_to_register() {
    for name in ["lobby", "join"] {
        let turn =
            command(context(name, Vec::new()), vec![done(), Event::PlayerLoaded(Ok(None))]);
        assert_eq!(
            turn,
            Turn::ask(whisper("❌ You're not registered! Use `/player register` first."))
        );
    }
}

fn creation(cause: CreationCause) -> Turn<Handled> {
    let failure = CreationFailure { cause, report: "not created".to_owned() };
    command(
        context("lobby", Vec::new()),
        vec![done(), Event::PlayerLoaded(Ok(Some(player()))), Event::Created(Err(failure))],
    )
}

#[test]
fn lobbies_that_are_not_created_are_explained() {
    assert_eq!(creation(CreationCause::RatingTooHigh), Turn::ask(whisper(RATED_TOO_HIGH)));
    let suspension = LobbySuspension {
        scope: SuspensionScope::All,
        expires_at: None,
        matches_remaining: None,
        completion: SuspensionCompletion::Matches,
        reason: "calm down".to_owned(),
    };
    assert_eq!(
        creation(CreationCause::Suspended(suspension)),
        Turn::ask(whisper(
            "❌ You are suspended from all matchmaking lobbies temporarily. Reason: calm down"
        ))
    );
    for cause in [
        CreationCause::ModerationGuard("guarded".to_owned()),
        CreationCause::Persistence("guarded".to_owned()),
    ] {
        assert_eq!(
            creation(cause),
            Turn::end_after(
                vec![unlock(open())],
                Err(HandlerError::Message("guarded".to_owned()))
            )
        );
    }
}

#[test]
fn lobbies_fall_back_to_the_channel_of_the_command() {
    let events = || {
        vec![
            done(),
            Event::PlayerLoaded(Ok(Some(player()))),
            Event::Created(Ok(bare_lobby())),
            Event::Rendered(Ok(model())),
        ]
    };
    let posted_to = |turn: Turn<Handled>| match turn.next {
        Next::Ask(Action::Send { channel_id, .. }) => channel_id,
        other => panic!("unexpected {other:?}"),
    };
    assert_eq!(posted_to(command(context("lobby", Vec::new()), events())), 700);
    let mut once = events();
    once.push(Event::Posted(Err("forbidden".to_owned())));
    assert_eq!(posted_to(command(context("lobby", Vec::new()), once)), 9);
    let mut twice = events();
    twice.push(Event::Posted(Err("forbidden".to_owned())));
    twice.push(Event::Posted(Err("also forbidden".to_owned())));
    assert_eq!(
        command(context("lobby", Vec::new()), twice),
        Turn::end_after(
            vec![unlock(open())],
            Err(HandlerError::Message("also forbidden".to_owned()))
        )
    );
}

#[test]
fn lobbies_without_a_thread_are_taken_back() {
    let turn = command(
        context("lobby", Vec::new()),
        vec![
            done(),
            Event::PlayerLoaded(Ok(Some(player()))),
            Event::Created(Ok(bare_lobby())),
            Event::Rendered(Ok(model())),
            Event::Posted(Ok(receipt(700, 1_000))),
            Event::ThreadOpened(Err("forbidden".to_owned())),
        ],
    );
    assert_eq!(
        turn,
        Turn::ask_after(
            vec![Action::Delete { channel_id: 700, message_id: 1_000 }],
            whisper(THREADS_NEEDED)
        )
    );
}

#[test]
fn lobbies_with_ids_that_cannot_be_stored_fail() {
    let turn = command(
        context("lobby", Vec::new()),
        vec![
            done(),
            Event::PlayerLoaded(Ok(Some(player()))),
            Event::Created(Ok(bare_lobby())),
            Event::Rendered(Ok(model())),
            Event::Posted(Ok(receipt(700, 1_000))),
            Event::ThreadOpened(Ok(u64::MAX)),
        ],
    );
    assert_eq!(
        turn,
        Turn::end_after(
            vec![unlock(open())],
            Err(HandlerError::Transformer { value: "18446744073709551615".to_owned() })
        )
    );
}

fn visit_answer(presentation: JoinPresentation) -> Turn<Handled> {
    let message = DiscordMessageSnapshot { receipt: receipt(700, 1_000), reactions: Vec::new() };
    command(
        context("lobby", Vec::new()),
        vec![
            done(),
            Event::PlayerLoaded(Ok(Some(player()))),
            Event::Created(Ok(lobby())),
            Event::Fetched(Ok(Some(message))),
            Event::Presented(Ok(presentation)),
        ],
    )
}

#[test]
fn visits_to_a_lobby_are_answered() {
    let joined = JoinPresentation { warning: None, rejection: None, joined_at_ns: Some(5) };
    let joiner = Joiner {
        player_id: 10,
        name: "creator".to_owned(),
        display_name: "Creator".to_owned(),
        joined_at_ns: 5,
    };
    assert_eq!(
        visit_answer(joined),
        Turn::ask_after(
            vec![Action::PublishJoin { scope: open(), joiner, raw_reaction: false }],
            whisper("✅ Joined OPEN! [View Open](https://x)")
        )
    );
    let full = JoinPresentation {
        warning: Some("❌ OPEN is full.".to_owned()),
        rejection: Some(JoinRejection::LobbyFull),
        joined_at_ns: None,
    };
    assert_eq!(
        visit_answer(full),
        Turn::ask_after(
            vec![Action::SyncDisplay { scope: open() }],
            whisper("[View OPEN](https://x)")
        )
    );
    let warned = JoinPresentation {
        warning: Some("careful".to_owned()),
        rejection: None,
        joined_at_ns: None,
    };
    assert_eq!(
        visit_answer(warned),
        Turn::ask_after(
            vec![Action::SyncDisplay { scope: open() }],
            whisper("careful [View OPEN](https://x)")
        )
    );
}

#[test]
fn a_new_lobby_is_stored_and_decorated() {
    let events = vec![
        done(),
        Event::PlayerLoaded(Ok(Some(player()))),
        Event::Created(Ok(bare_lobby())),
        Event::Rendered(Ok(model())),
        Event::Posted(Ok(receipt(700, 1_000))),
        Event::ThreadOpened(Ok(21_000)),
    ];
    assert_eq!(
        command(context("lobby", Vec::new()), events),
        Turn::ask(Action::SaveMessageIds { scope: open(), ids: lobby().message_ids })
    );
    let events = vec![
        done(),
        Event::PlayerLoaded(Ok(Some(player()))),
        Event::Created(Ok(bare_lobby())),
        Event::Rendered(Ok(model())),
        Event::Posted(Ok(receipt(700, 1_000))),
        Event::ThreadOpened(Ok(21_000)),
        done(),
    ];
    let react = |emoji| Action::React { channel_id: 700, message_id: 1_000, emoji };
    assert_eq!(
        command(context("lobby", Vec::new()), events),
        Turn::ask_after(
            vec![
                Action::SyncReadyLobby { scope: open() },
                Action::Pin { channel_id: 700, message_id: 1_000 },
                react(DiscordEmoji::unicode("⚔️")),
                react(DiscordEmoji::custom("jopacoin", 77)),
                react(DiscordEmoji::unicode("📋")),
                react(DiscordEmoji::unicode("🔔")),
            ],
            Action::JoinRegistered { scope: open(), player_id: 10, has_roles: true }
        )
    );
}

#[test]
fn kicks_need_a_player() {
    let turn = command(context("kick", Vec::new()), vec![done()]);
    assert_eq!(
        turn,
        Turn::end(Err(HandlerError::Transformer { value: "missing player".to_owned() }))
    );
    let wrong = vec![option("player", InteractionValue::Text("x".to_owned()))];
    let turn = command(context("kick", wrong), vec![done()]);
    assert_eq!(turn, Turn::end(Err(HandlerError::OptionType { position: 0 })));
}

#[test]
fn kicks_that_cannot_be_are_explained() {
    let turn = command(context("kick", vec![target(20)]), vec![done(), Event::Kinds(Vec::new())]);
    assert_eq!(turn, Turn::ask(whisper("⚠️ <@20> is not in a lobby.")));
    let turn = command(
        context("kick", vec![target(10)]),
        vec![done(), Event::Kinds(vec![LobbyKind::Open]), Event::Lobby(Some(lobby()))],
    );
    assert_eq!(
        turn,
        Turn::ask(whisper("❌ You can't kick yourself. Use the Leave button in the lobby thread."))
    );
    let mut foreign = lobby();
    foreign.created_by = Some(99);
    let turn = command(
        context("kick", vec![target(20)]),
        vec![done(), Event::Kinds(vec![LobbyKind::Open]), Event::Lobby(Some(foreign))],
    );
    assert_eq!(turn, Turn::ask(whisper("❌ Permission denied. Admin or lobby creator only.")));
}

#[test]
fn kicks_free_their_scope_however_they_end() {
    let until_removal = || {
        vec![done(), Event::Kinds(vec![LobbyKind::Open]), Event::Lobby(Some(lobby()))]
    };
    assert_eq!(
        command(context("kick", vec![target(20)]), until_removal()),
        Turn::ask_after(vec![lock(open())], Action::Leave { player_id: 20, scope: open() })
    );
    let mut broken = until_removal();
    broken.push(Event::Outcome(Err(refused_work())));
    assert_eq!(
        command(context("kick", vec![target(20)]), broken),
        Turn::end_after(
            vec![unlock(open())],
            Err(HandlerError::Message("locked".to_owned()))
        )
    );
    let mut gone = until_removal();
    gone.push(Event::Outcome(Ok(false)));
    assert_eq!(
        command(context("kick", vec![target(20)]), gone),
        Turn::ask_after(vec![unlock(open())], whisper("❌ Failed to kick <@20>."))
    );
}

#[test]
fn joins_need_roles_and_a_lobby() {
    let mut idle = player();
    idle.preferred_roles = None;
    let turn =
        command(context("join", Vec::new()), vec![done(), Event::PlayerLoaded(Ok(Some(idle)))]);
    assert_eq!(
        turn,
        Turn::ask(whisper("❌ Set your preferred roles first! Use `/player roles`."))
    );
    let turn = command(
        context("join", Vec::new()),
        vec![done(), Event::PlayerLoaded(Ok(Some(player()))), Event::Lobby(None)],
    );
    assert_eq!(
        turn,
        Turn::ask(whisper("⚠️ No active OPEN lobby. Use `/lobby` to create one."))
    );
}

#[test]
fn refused_joins_are_explained() {
    let answer = |presentation| {
        command(
            context("join", Vec::new()),
            vec![
                done(),
                Event::PlayerLoaded(Ok(Some(player()))),
                Event::Lobby(Some(lobby())),
                Event::Presented(presentation),
            ],
        )
    };
    let full = JoinPresentation {
        warning: Some("❌ OPEN is full.".to_owned()),
        rejection: Some(JoinRejection::LobbyFull),
        joined_at_ns: None,
    };
    assert_eq!(answer(Ok(full)), Turn::ask(whisper("❌ OPEN is full.")));
    let silent = JoinPresentation { warning: None, rejection: None, joined_at_ns: None };
    assert_eq!(answer(Ok(silent)), Turn::ask(whisper("❌ Could not join lobby.")));
    assert_eq!(
        answer(Err("curfew lookup task failed: panicked".to_owned())),
        Turn::end_after(
            vec![unlock(open())],
            Err(HandlerError::Message("curfew lookup task failed: panicked".to_owned()))
        )
    );
}

#[test]
fn seats_are_refused_before_the_lobby_is_asked() {
    let settings = settings();
    let (_, turn) = SeatFlow::start(open(), 20, false);
    assert_eq!(
        turn,
        Turn::end(Ok(JoinPresentation {
            warning: Some(
                "⚠️ Set your preferred roles with `/player roles` to auto-join.".to_owned()
            ),
            rejection: None,
            joined_at_ns: None,
        }))
    );
    let seat = |events: Vec<Event>| {
        let (mut flow, mut turn) = SeatFlow::start(open(), 20, true);
        for event in events {
            (flow, turn) = flow.resume(event, &settings.wording);
        }
        turn
    };
    assert_eq!(
        seat(Vec::new()),
        Turn::ask(Action::FindCurfew { scope: open(), player_id: 20 })
    );
    assert_eq!(
        seat(vec![Event::Curfew(Err(crashed_work()))]),
        Turn::end(Err("curfew lookup task failed: panicked".to_owned()))
    );
    assert_eq!(
        seat(vec![Event::Curfew(Err(refused_work()))]),
        Turn::end(Err("locked".to_owned()))
    );
    match seat(vec![Event::Curfew(Ok(Some("sleep".to_owned())))]).next {
        Next::End(Ok(presentation)) => {
            assert_eq!(presentation.rejection, Some(JoinRejection::Curfew("sleep".to_owned())));
            assert_eq!(presentation.joined_at_ns, None);
        }
        other => panic!("unexpected {other:?}"),
    }
    match seat(vec![Event::Curfew(Ok(None)), Event::Lobby(None)]).next {
        Next::End(Ok(presentation)) => {
            assert_eq!(presentation.warning.as_deref(), Some("⚠️ No active OPEN lobby."));
        }
        other => panic!("unexpected {other:?}"),
    }
    assert_eq!(
        seat(vec![Event::Curfew(Ok(None)), Event::Lobby(Some(lobby()))]),
        Turn::ask(Action::Join { player_id: 20, scope: open() })
    );
    let full =
        JoinOutcome { joined_at_ns: None, failure: Some(JoinFailure::LobbyFull), context: None };
    match seat(vec![
        Event::Curfew(Ok(None)),
        Event::Lobby(Some(lobby())),
        Event::Joined(Ok(full)),
    ])
    .next
    {
        Next::End(Ok(presentation)) => {
            assert_eq!(presentation.rejection, Some(JoinRejection::LobbyFull));
        }
        other => panic!("unexpected {other:?}"),
    }
}

#[test]
fn leavers_are_told_where_they_are_pinned() {
    let both = vec![LobbyKind::Open, LobbyKind::LowSkill];
    let turn = command(
        context("leave", Vec::new()),
        vec![
            done(),
            Event::Kinds(both),
            Event::Outcome(Ok(true)),
            Event::Outcome(Ok(false)),
            Event::Holders(vec![Some(LobbyKind::LowSkill)]),
            Event::Text("OPEN".to_owned()),
            Event::Text("LOW".to_owned()),
        ],
    );
    assert_eq!(
        turn,
        Turn::ask(whisper("✅ Left OPEN.\n⚠️ Still in LOW — its shuffle or draft is in progress."))
    );
    let turn = command(
        context("leave", Vec::new()),
        vec![
            done(),
            Event::Kinds(vec![LobbyKind::Open]),
            Event::Outcome(Ok(false)),
            Event::Holders(vec![Some(LobbyKind::Open)]),
            Event::Text("OPEN".to_owned()),
        ],
    );
    assert_eq!(
        turn,
        Turn::ask(whisper("❌ You can’t leave OPEN while its shuffle or draft is in progress."))
    );
    let turn = command(
        context("leave", Vec::new()),
        vec![
            done(),
            Event::Kinds(vec![LobbyKind::Open]),
            Event::Outcome(Ok(false)),
            Event::Holders(vec![None]),
        ],
    );
    assert_eq!(
        turn,
        Turn::ask_after(vec![unlock(open())], whisper("⚠️ You’re no longer in the lobby."))
    );
}

#[test]
fn ready_checks_that_fail_are_answered() {
    let answer = |selected, ran: Option<_>| {
        let mut events = vec![done(), Event::Selected(selected)];
        events.extend(ran.map(Event::CheckRan));
        command(context("readycheck", Vec::new()), events)
    };
    assert_eq!(answer(Err("Which lobby?".to_owned()), None), Turn::ask(whisper("Which lobby?")));
    assert_eq!(
        answer(Ok(LobbyKind::LowSkill), None),
        Turn::ask(Action::RunReadycheck {
            scope: low(),
            invoker_id: 10,
            channel_id: 9,
            confirm_invoker: true,
            mirror_invocation: false,
        })
    );
    let refused = ReadycheckRunError::Policy(ReadycheckCommandFailure::NotMember);
    assert_eq!(
        answer(Ok(LobbyKind::Open), Some(Err(refused))),
        Turn::ask(whisper("❌ Join that lobby before running a ready check."))
    );
    let broken = ReadycheckRunError::Transport("gone".to_owned());
    assert_eq!(
        answer(Ok(LobbyKind::Open), Some(Err(broken))),
        Turn::end(Err(HandlerError::Message("gone".to_owned())))
    );
    let result = ReadycheckRunResult {
        jump_url: "https://x".to_owned(),
        is_refresh: false,
        pruned_count: 0,
        mention_ids: BTreeSet::new(),
        readycheck_channel_id: 9,
    };
    assert_eq!(
        answer(Ok(LobbyKind::Open), Some(Ok(result))),
        Turn::ask(whisper("✅ OPEN ready check posted! [View](https://x)"))
    );
}

fn check(events: Vec<Event>) -> Turn<Result<ReadycheckRunResult, ReadycheckRunError>> {
    let request = CheckRequest {
        scope: open(),
        invoker_id: 10,
        channel_id: 9,
        confirm_invoker: true,
        mirror_invocation: false,
    };
    let (mut flow, mut turn) = CheckFlow::start(request);
    for event in events {
        (flow, turn) = flow.resume(event);
    }
    turn
}

fn classified() -> Event {
    Event::Classified { players: BTreeMap::new(), mentionable: BTreeSet::new() }
}

fn plan(mode: PublicationMode, permit: bool, pruned: BTreeSet<i64>) -> ReadycheckCommandPlan {
    ReadycheckCommandPlan {
        scope: open(),
        mode,
        permit: if permit { Some(permit_of_ten()) } else { None },
        pruned_players: pruned,
        mention_ids: BTreeSet::from([20]),
        operations: Vec::new(),
    }
}

fn permit_of_ten() -> PublicationPermit {
    PublicationPermit { id: 1, invoker_id: 10, confirm_invoker: true }
}

#[test]
fn checks_hold_their_scope_throughout() {
    assert_eq!(
        check(Vec::new()),
        Turn::ask_after(
            vec![lock(open()), Action::SyncReadyLobby { scope: open() }],
            Action::ReadLobby { scope: open() }
        )
    );
    assert_eq!(
        check(vec![Event::Lobby(None)]),
        Turn::end_after(
            vec![unlock(open())],
            Err(ReadycheckRunError::Policy(ReadycheckCommandFailure::NoLobby))
        )
    );
}

#[test]
fn checks_know_whether_their_predecessor_stands() {
    let asked = |events: Vec<Event>| match check(events).next {
        Next::Ask(Action::PrepareCheck { request, .. }) => {
            (request.existing_message, request.reserved_players)
        }
        other => panic!("unexpected {other:?}"),
    };
    let holders = || Event::Holders(vec![Some(LobbyKind::Open), Some(LobbyKind::LowSkill)]);
    let fetched = |fetched| {
        asked(vec![
            Event::Lobby(Some(lobby())),
            classified(),
            Event::Check(Some(generation())),
            Event::Fetched(fetched),
            holders(),
        ])
    };
    let message = DiscordMessageSnapshot { receipt: receipt(1, 2), reactions: Vec::new() };
    let reserved = BTreeSet::from([10]);
    assert_eq!(fetched(Ok(Some(message))), (ExistingMessageState::Available, reserved.clone()));
    assert_eq!(fetched(Ok(None)), (ExistingMessageState::Missing, reserved.clone()));
    assert_eq!(
        fetched(Err("timeout".to_owned())),
        (ExistingMessageState::Unknown, reserved.clone())
    );
    assert_eq!(
        asked(vec![Event::Lobby(Some(lobby())), classified(), Event::Check(None), holders()]),
        (ExistingMessageState::Missing, reserved)
    );
}

#[test]
fn checks_are_called_off_when_the_roster_moves() {
    let pruned = |removed| {
        check(vec![
            Event::Lobby(Some(lobby())),
            classified(),
            Event::Check(None),
            Event::Holders(vec![None, None]),
            Event::Prepared(Ok(plan(PublicationMode::New, true, BTreeSet::from([20])))),
            Event::Removed(removed),
        ])
    };
    assert_eq!(
        pruned(Ok(BTreeSet::new())),
        Turn::end_after(
            vec![
                Action::AbortPublication { permit: permit_of_ten() },
                Action::SyncReadyLobby { scope: open() },
                unlock(open()),
            ],
            Err(ReadycheckRunError::Transport(
                "readycheck stale-prune persistence raced with lobby membership".to_owned()
            ))
        )
    );
    let carried_on = pruned(Ok(BTreeSet::from([20])));
    assert_eq!(carried_on.before, vec![Action::SyncReadyLobby { scope: open() }]);
    assert!(matches!(carried_on.next, Next::Ask(Action::ExecutePlan { .. })));
}

fn publish(
    plan: ReadycheckCommandPlan,
    mirror_invocation: bool,
    events: Vec<Event>,
) -> Turn<Result<ReadycheckRunResult, ReadycheckRunError>> {
    let order = PlanOrder {
        plan,
        players: BTreeMap::from([(
            20,
            ReadycheckPlayerData { name: "Second".to_owned(), group: ReadinessGroup::Afk },
        )]),
        mentionable: BTreeSet::from([20]),
        invocation_channel_id: 9,
        mirror_invocation,
    };
    let (mut flow, mut turn) = PublicationFlow::start(order);
    for event in events {
        (flow, turn) = flow.resume(event, &settings().wording);
    }
    turn
}

fn transport(text: &str) -> Result<ReadycheckRunResult, ReadycheckRunError> {
    Err(ReadycheckRunError::Transport(text.to_owned()))
}

#[test]
fn plans_are_tidied_in_order() {
    let mut busy = plan(PublicationMode::New, true, BTreeSet::new());
    busy.operations = vec![
        PlanOperation::DeleteReadycheck { channel_id: 1, message_id: 2 },
        PlanOperation::Other,
        PlanOperation::RemoveDepartedReaction {
            channel_id: 1,
            message_id: 3,
            player_id: 4,
            emoji: "✅".to_owned(),
        },
        PlanOperation::SyncLobbyDisplays { scope: open() },
        PlanOperation::DeleteReadycheck { channel_id: -1, message_id: 2 },
    ];
    assert_eq!(
        publish(busy.clone(), false, Vec::new()),
        Turn::ask_after(
            vec![
                Action::Delete { channel_id: 1, message_id: 2 },
                Action::Unreact {
                    channel_id: 1,
                    message_id: 3,
                    emoji: DiscordEmoji::unicode("✅"),
                    user_id: 4,
                },
            ],
            Action::SyncDisplay { scope: open() }
        )
    );
    assert_eq!(
        publish(busy.clone(), false, vec![done()]),
        Turn::end(transport("invalid persisted Discord snowflake -1"))
    );
    assert_eq!(publish(busy, false, vec![failed("gone")]), Turn::end(transport("gone")));
}

#[test]
fn new_checks_that_fail_are_called_off() {
    let new = || plan(PublicationMode::New, true, BTreeSet::new());
    assert_eq!(
        publish(plan(PublicationMode::New, false, BTreeSet::new()), false, Vec::new()),
        Turn::end(transport("new readycheck plan has no permit"))
    );
    assert_eq!(
        publish(new(), false, vec![Event::Lobby(None)]),
        Turn::end(transport("lobby disappeared during readycheck"))
    );
    assert_eq!(
        publish(new(), false, vec![Event::Lobby(Some(bare_lobby()))]),
        Turn::end(Err(ReadycheckRunError::Policy(ReadycheckCommandFailure::NoThread)))
    );
    assert_eq!(
        publish(
            new(),
            false,
            vec![Event::Lobby(Some(lobby())), Event::Posted(Err("gone".to_owned()))]
        ),
        Turn::end_after(
            vec![Action::AbortPublication { permit: permit_of_ten() }],
            transport("gone")
        )
    );
    assert_eq!(
        publish(
            new(),
            false,
            vec![Event::Lobby(Some(lobby())), Event::Posted(Ok(receipt(21_000, u64::MAX)))]
        ),
        Turn::end(transport("readycheck message id overflow"))
    );
    assert_eq!(
        publish(
            new(),
            false,
            vec![Event::Lobby(Some(lobby())), Event::Posted(Ok(receipt(u64::MAX, 5)))]
        ),
        Turn::end(transport("readycheck channel id overflow"))
    );
    assert_eq!(
        publish(
            new(),
            false,
            vec![
                Event::Lobby(Some(lobby())),
                Event::Posted(Ok(receipt(21_000, 5))),
                Event::Flag(false),
            ]
        ),
        Turn::end_after(
            vec![Action::Delete { channel_id: 21_000, message_id: 5 }],
            transport("readycheck publication was superseded")
        )
    );
}

#[test]
fn new_checks_call_the_players() {
    let new = || plan(PublicationMode::New, true, BTreeSet::from([30]));
    let until_call = || {
        vec![
            Event::Lobby(Some(lobby())),
            Event::Posted(Ok(receipt(21_000, 5))),
            Event::Flag(true),
        ]
    };
    let call = |channel_id, text: &str| Action::Send {
        channel_id,
        message: DiscordMessage::calling(text.to_owned(), vec![20]),
    };
    assert_eq!(
        publish(new(), true, until_call()),
        Turn::ask_after(
            vec![Action::React {
                channel_id: 21_000,
                message_id: 5,
                emoji: DiscordEmoji::unicode("✅"),
            }],
            call(21_000, "⚔️ **OPEN ready check!** <@20>")
        )
    );
    let mut called = until_call();
    called.push(Event::Posted(Ok(receipt(21_000, 6))));
    assert_eq!(
        publish(new(), true, called),
        Turn::ask(call(
            9,
            "⚔️ **OPEN ready check!** <@20>\n[React in the lobby thread](https://x)"
        ))
    );
    let mut both = until_call();
    both.push(Event::Posted(Ok(receipt(21_000, 6))));
    both.push(Event::Posted(Ok(receipt(9, 7))));
    let result = ReadycheckRunResult {
        jump_url: "https://x".to_owned(),
        is_refresh: false,
        pruned_count: 1,
        mention_ids: BTreeSet::from([20]),
        readycheck_channel_id: 21_000,
    };
    assert_eq!(
        publish(new(), true, both),
        Turn::end_after(
            vec![Action::NotifyCompletion { scope: open(), message_id: 5 }],
            Ok(result)
        )
    );
    let mut unheard = until_call();
    unheard.push(Event::Posted(Err("gone".to_owned())));
    assert_eq!(publish(new(), true, unheard), Turn::end(transport("gone")));
}

#[test]
fn running_checks_are_refreshed() {
    let refresh = || plan(PublicationMode::Refresh, false, BTreeSet::new());
    assert_eq!(
        publish(refresh(), false, vec![Event::Check(None)]),
        Turn::end(transport("readycheck generation disappeared"))
    );
    let board = ReadycheckBoard {
        kind: LobbyKind::Open,
        players: BTreeMap::new(),
        reacted: BTreeMap::new(),
    };
    assert_eq!(
        publish(refresh(), false, vec![Event::Check(Some(generation()))]),
        Turn::ask(Action::PaintCheck { channel_id: 21_000, message_id: 1_500, board })
    );
    let finished = publish(
        refresh(),
        false,
        vec![
            Event::Check(Some(generation())),
            done(),
            Event::Posted(Ok(receipt(21_000, 6))),
        ],
    );
    let result = ReadycheckRunResult {
        jump_url: "https://discord.com/channels/42/21000/1500".to_owned(),
        is_refresh: true,
        pruned_count: 0,
        mention_ids: BTreeSet::from([20]),
        readycheck_channel_id: 21_000,
    };
    assert_eq!(
        finished,
        Turn::end_after(
            vec![Action::NotifyCompletion { scope: open(), message_id: 1_500 }],
            Ok(result)
        )
    );
}

fn complete(events: Vec<Event>) -> Turn<()> {
    let (mut flow, mut turn) = CompletionFlow::start(open(), 1_500, 2);
    for event in events {
        (flow, turn) = flow.resume(event);
    }
    turn
}

#[test]
fn completion_is_announced_where_the_lobby_began() {
    let claimed = |lobby| {
        vec![Event::Flag(true), Event::Check(Some(generation())), Event::Lobby(lobby)]
    };
    assert_eq!(complete(vec![Event::Flag(false)]), Turn::end(()));
    let announce = |channel_id| Action::Announce {
        channel_id,
        kind: LobbyKind::Open,
        threshold: 2,
    };
    assert_eq!(complete(claimed(Some(lobby()))), Turn::ask(announce(9)));
    assert_eq!(complete(claimed(None)), Turn::ask(announce(21_000)));
    let release = || vec![Action::ReleaseCompletion { scope: open(), message_id: 1_500 }];
    let mut astray = lobby();
    astray.message_ids.origin_channel_id = Some(-9);
    assert_eq!(complete(claimed(Some(astray))), Turn::end_after(release(), ()));
    let mut unheard = claimed(None);
    unheard.push(failed("gone"));
    assert_eq!(complete(unheard), Turn::end_after(release(), ()));
    let mut heard = claimed(None);
    heard.push(done());
    assert_eq!(complete(heard), Turn::end(()));
}

#[test]
fn reconciliation_needs_a_running_check() {
    let (flow, turn) = ReconcileFlow::start(open());
    assert_eq!(
        turn,
        Turn::ask_after(
            vec![Action::SyncReadyLobby { scope: open() }],
            Action::ReadCheck { scope: open() }
        )
    );
    let (_, turn) = flow.resume(Event::Check(None));
    assert_eq!(turn, Turn::end(()));
}

#[test]
fn reactions_elsewhere_are_ignored() {
    let ready = || DiscordEmoji::unicode("✅");
    let mut nowhere = reaction(ready(), RawReactionKind::Add);
    nowhere.guild_id = None;
    assert_eq!(react(nowhere, Vec::new()), Turn::end(Ok(())));
    let no_check = Event::CheckMessages { open: Some(5), low_skill: None };
    assert_eq!(
        react(reaction(ready(), RawReactionKind::Add), vec![no_check]),
        Turn::end(Ok(()))
    );
    let sword = || DiscordEmoji::unicode("⚔️");
    assert_eq!(
        react(reaction(sword(), RawReactionKind::Add), vec![Event::Lobbies(Vec::new())]),
        Turn::end(Ok(()))
    );
    let smile = DiscordEmoji::unicode("🙂");
    assert_eq!(
        react(reaction(smile, RawReactionKind::Add), vec![Event::Lobbies(vec![lobby()])]),
        Turn::end(Ok(()))
    );
    for emoji in [DiscordEmoji::unicode("🔔"), DiscordEmoji::custom("jopacoin", 77)] {
        assert_eq!(
            react(reaction(emoji, RawReactionKind::Remove), vec![Event::Lobbies(vec![lobby()])]),
            Turn::end(Ok(()))
        );
    }
}

#[test]
fn reactions_of_users_that_cannot_be_stored_fail() {
    let overflow = "raw reaction user id overflow";
    let found = || Event::CheckMessages { open: Some(1_000), low_skill: None };
    let mut ready = reaction(DiscordEmoji::unicode("✅"), RawReactionKind::Add);
    ready.user_id = u64::MAX;
    assert_eq!(react(ready, vec![found()]), Turn::end(Err(overflow.to_owned())));
    for emoji in [
        DiscordEmoji::unicode("🔔"),
        DiscordEmoji::custom("jopacoin", 77),
        DiscordEmoji::unicode("⚔️"),
    ] {
        let mut event = reaction(emoji, RawReactionKind::Add);
        event.user_id = u64::MAX;
        assert_eq!(
            react(event, vec![Event::Lobbies(vec![lobby()])]),
            Turn::end(Err(overflow.to_owned()))
        );
    }
    let mut bell = reaction(DiscordEmoji::unicode("🔔"), RawReactionKind::Add);
    bell.channel_id = u64::MAX;
    assert_eq!(
        react(bell, vec![Event::Lobbies(vec![lobby()])]),
        Turn::end(Err("raw reaction channel id overflow".to_owned()))
    );
}

#[test]
fn confirmations_are_noted_and_repainted() {
    let found = || Event::CheckMessages { open: None, low_skill: Some(1_000) };
    let ready = |kind| reaction(DiscordEmoji::unicode("✅"), kind);
    assert_eq!(
        react(ready(RawReactionKind::Add), vec![found()]),
        Turn::ask(Action::Confirm {
            scope: low(),
            player_id: 20,
            mark: "<@20>".to_owned(),
            message_id: 1_000,
        })
    );
    assert_eq!(
        react(ready(RawReactionKind::Remove), vec![found()]),
        Turn::ask(Action::Withdraw { scope: low(), player_id: 20, message_id: 1_000 })
    );
    assert_eq!(
        react(ready(RawReactionKind::Add), vec![found(), Event::Flag(false)]),
        Turn::end(Ok(()))
    );
    let board = ReadycheckBoard {
        kind: LobbyKind::LowSkill,
        players: BTreeMap::new(),
        reacted: BTreeMap::new(),
    };
    assert_eq!(
        react(
            ready(RawReactionKind::Add),
            vec![found(), Event::Flag(true), Event::Check(Some(generation()))]
        ),
        Turn::end_after(
            vec![
                Action::PaintCheck { channel_id: 700, message_id: 1_000, board },
                Action::NotifyCompletion { scope: low(), message_id: 1_000 },
            ],
            Ok(())
        )
    );
}

#[test]
fn the_legacy_reaction_is_cleaned_up() {
    let emoji = || DiscordEmoji::custom("frogling", LEGACY_FROGLING_EMOJI_ID);
    let unreact = Action::Unreact {
        channel_id: 700,
        message_id: 1_000,
        emoji: emoji(),
        user_id: 20,
    };
    assert_eq!(
        react(reaction(emoji(), RawReactionKind::Add), vec![Event::Lobbies(vec![lobby()])]),
        Turn::end_after(vec![unreact], Ok(()))
    );
    assert_eq!(
        react(reaction(emoji(), RawReactionKind::Remove), vec![Event::Lobbies(vec![lobby()])]),
        Turn::end(Ok(()))
    );
}

#[test]
fn failed_bells_are_taken_off() {
    let bell = || reaction(DiscordEmoji::unicode("🔔"), RawReactionKind::Add);
    let run = |channel_id| Action::RunReadycheck {
        scope: open(),
        invoker_id: 20,
        channel_id,
        confirm_invoker: false,
        mirror_invocation: true,
    };
    let lobbies = || Event::Lobbies(vec![lobby()]);
    assert_eq!(
        react(bell(), vec![lobbies(), Event::Lobby(Some(lobby()))]),
        Turn::ask(run(9))
    );
    assert_eq!(react(bell(), vec![lobbies(), Event::Lobby(None)]), Turn::ask(run(700)));
    let unreact = Action::Unreact {
        channel_id: 700,
        message_id: 1_000,
        emoji: DiscordEmoji::unicode("🔔"),
        user_id: 20,
    };
    let refused = ReadycheckRunError::Policy(ReadycheckCommandFailure::Cooldown);
    assert_eq!(
        react(bell(), vec![lobbies(), Event::Lobby(None), Event::CheckRan(Err(refused))]),
        Turn::end_after(vec![unreact], Ok(()))
    );
}

fn rejection(text: &str) -> Turn<Result<(), String>> {
    Turn::ask_after(
        vec![Action::Unreact {
            channel_id: 700,
            message_id: 1_000,
            emoji: DiscordEmoji::unicode("⚔️"),
            user_id: 20,
        }],
        Action::Send {
            channel_id: 700,
            message: DiscordMessage::mentioning(format!("<@20> ❌ {text}"), 20),
        },
    )
}

#[test]
fn refused_swords_are_taken_off_and_explained() {
    let sword = || reaction(DiscordEmoji::unicode("⚔️"), RawReactionKind::Add);
    let named = || vec![Event::Lobbies(vec![lobby()]), Event::Name(None)];
    assert_eq!(
        react(sword(), named()),
        Turn::ask_after(
            vec![lock(open())],
            Action::LoadPlayer { player_id: 20, guild_id: 42 }
        )
    );
    let mut unknown = named();
    unknown.push(Event::PlayerLoaded(Ok(None)));
    assert_eq!(
        react(sword(), unknown),
        rejection("You're not registered! Use `/player register` first to join the lobby.")
    );
    let mut idle = named();
    let mut without_roles = player();
    without_roles.preferred_roles = Some(Vec::new());
    idle.push(Event::PlayerLoaded(Ok(Some(without_roles))));
    assert_eq!(
        react(sword(), idle),
        rejection(
            "Set your preferred roles first! Use `/player roles` (e.g., `/player roles 123`)."
        )
    );
    let presented = |rejection| {
        let presentation =
            JoinPresentation { warning: None, rejection, joined_at_ns: None };
        let mut events = named();
        events.push(Event::PlayerLoaded(Ok(Some(player()))));
        events.push(Event::Presented(Ok(presentation)));
        events
    };
    assert_eq!(react(sword(), presented(None)), rejection("Could not join lobby."));
    assert_eq!(
        react(sword(), presented(Some(JoinRejection::LobbyFull))),
        rejection("Lobby is full.")
    );
    let taken_down = |events: Vec<Event>| {
        let mut events = events;
        events.push(Event::Posted(Ok(receipt(700, 5))));
        react(sword(), events)
    };
    let later = |seconds| {
        Turn::end_after(
            vec![
                Action::DeleteLater { channel_id: 700, message_id: 5, seconds },
                unlock(open()),
            ],
            Ok(()),
        )
    };
    assert_eq!(taken_down(presented(Some(JoinRejection::LobbyFull))), later(10));
    let pending = PendingMatchState { pending_match_id: 8, shuffle_message_jump_url: None };
    assert_eq!(taken_down(presented(Some(JoinRejection::PendingMatch(pending)))), later(15));
    let mut unposted = presented(None);
    unposted.push(Event::Posted(Err("gone".to_owned())));
    assert_eq!(
        react(sword(), unposted),
        Turn::end_after(vec![unlock(open())], Ok(()))
    );
    let mut broken = named();
    broken.push(Event::PlayerLoaded(Err("locked".to_owned())));
    assert_eq!(
        react(sword(), broken),
        Turn::end_after(vec![unlock(open())], Err("locked".to_owned()))
    );
}

#[test]
fn suspended_swords_learn_the_reason_in_private() {
    let suspension = |reason: &str| LobbySuspension {
        scope: SuspensionScope::All,
        expires_at: None,
        matches_remaining: None,
        completion: SuspensionCompletion::Time,
        reason: reason.to_owned(),
    };
    let events = |reason: &str| {
        let presentation = JoinPresentation {
            warning: Some(reason.to_owned()),
            rejection: Some(JoinRejection::Suspended(suspension(reason))),
            joined_at_ns: None,
        };
        vec![
            Event::Lobbies(vec![lobby()]),
            Event::Name(None),
            Event::PlayerLoaded(Ok(Some(player()))),
            Event::Presented(Ok(presentation)),
        ]
    };
    let sword = || reaction(DiscordEmoji::unicode("⚔️"), RawReactionKind::Add);
    assert_eq!(react(sword(), events("one")), react(sword(), events("two")));
    let mut told = events("one");
    told.push(Event::Posted(Ok(receipt(700, 5))));
    assert_eq!(
        react(sword(), told),
        Turn::end_after(
            vec![
                Action::DeleteLater { channel_id: 700, message_id: 5, seconds: 15 },
                Action::DirectMessage {
                    user_id: 20,
                    message: DiscordMessage::secret(
                        "You are temporarily suspended from this matchmaking lobby.\nReason: one\nUse `/player lobby status` in the server for the exact remaining term.".to_owned()
                    ),
                },
                unlock(open()),
            ],
            Ok(())
        )
    );
}

#[test]
fn swords_that_are_taken_off_let_out() {
    let sword = || reaction(DiscordEmoji::unicode("⚔️"), RawReactionKind::Remove);
    let left = |name: Option<&str>, outcome| {
        vec![
            Event::Lobbies(vec![lobby()]),
            Event::Name(name.map(str::to_owned)),
            Event::Outcome(outcome),
        ]
    };
    assert_eq!(
        react(sword(), left(None, Ok(false))),
        Turn::end_after(vec![unlock(open())], Ok(()))
    );
    assert_eq!(
        react(sword(), left(None, Err(crashed_work()))),
        Turn::end_after(vec![unlock(open())], Err("panicked".to_owned()))
    );
    let publish = |name: &str| {
        Turn::end_after(
            vec![
                Action::PublishLeave {
                    scope: open(),
                    player_id: 20,
                    display_name: name.to_owned(),
                    raw_reaction: true,
                },
                unlock(open()),
            ],
            Ok(()),
        )
    };
    assert_eq!(react(sword(), left(Some("Second"), Ok(true))), publish("Second"));
    assert_eq!(
        react(sword(), left(None, Ok(true))),
        Turn::ask(Action::NamePlayer { player_id: 20, guild_id: 42 })
    );
    let mut named = left(None, Ok(true));
    named.push(Event::Text("User 20".to_owned()));
    assert_eq!(react(sword(), named), publish("User 20"));
}

#[test]
fn spectators_without_an_observer_are_only_welcomed() {
    let coin = || reaction(DiscordEmoji::custom("jopacoin", 5), RawReactionKind::Add);
    let mut away = lobby();
    away.players = BTreeSet::from([10]);
    let events = || vec![Event::Lobbies(vec![lobby()]), Event::Lobby(Some(away.clone()))];
    let welcome = Action::Send {
        channel_id: 21_000,
        message: DiscordMessage::mentioning(
            "<:jopacoin:77> <@20> is here for the gamba!".to_owned(),
            20,
        ),
    };
    assert_eq!(
        react(coin(), events()),
        Turn::ask_after(vec![welcome], Action::FindObserver)
    );
    for nobody in [Event::Flag(false), failed("lobby join observer lock was poisoned")] {
        let mut events = events();
        events.push(nobody);
        assert_eq!(react(coin(), events), Turn::end(Ok(())));
    }
}

#[test]
fn names_are_looked_up_in_turn() {
    let (_, turn) = NamingFlow::start(None, 20, Some("Known".to_owned()));
    assert_eq!(turn, Turn::end(Some("Known".to_owned())));
    let (_, turn) = NamingFlow::start(None, 20, None);
    assert_eq!(turn, Turn::end(None));
    let (flow, turn) = NamingFlow::start(Some(42), 20, None);
    assert_eq!(turn, Turn::ask(Action::FindMember { guild_id: 42, user_id: 20 }));
    let (flow, turn) = flow.resume(Event::Member(Err("gone".to_owned())));
    assert_eq!(turn, Turn::ask(Action::FindUser { user_id: 20 }));
    let (_, turn) = flow.resume(Event::User(Ok(Some("Fetched".to_owned()))));
    assert_eq!(turn, Turn::end(Some("Fetched".to_owned())));
}

#[test]
fn displays_that_fail_say_why() {
    let show = |events: Vec<Event>| {
        let (mut flow, mut turn) = DisplayFlow::start(open());
        for event in events {
            (flow, turn) = flow.resume(event);
        }
        turn
    };
    assert_eq!(
        show(vec![Event::Lobby(None)]),
        Turn::end(Err("lobby no longer exists".to_owned()))
    );
    assert_eq!(
        show(vec![Event::Lobby(Some(bare_lobby()))]),
        Turn::end(Err("lobby has no channel id".to_owned()))
    );
    assert_eq!(
        show(vec![Event::Lobby(Some(lobby())), Event::Rendered(Err(crashed_work()))]),
        Turn::end(Err("lobby display render task failed: panicked".to_owned()))
    );
    let edit = show(vec![Event::Lobby(Some(lobby())), Event::Rendered(Ok(model()))]);
    match edit.next {
        Next::Ask(Action::Edit { channel_id, message_id, message }) => {
            assert_eq!((channel_id, message_id), (700, 1_000));
            assert_eq!(message.content_mode, DiscordMessageContentMode::Preserve);
        }
        other => panic!("unexpected {other:?}"),
    }
    let (flow, _) = RemovalFlow::start(open(), -3);
    let (_, turn) = flow.resume(Event::Lobby(Some(lobby())));
    assert_eq!(turn, Turn::end(Err("invalid persisted Discord snowflake -3".to_owned())));
}

#[test]
fn checks_are_posted_painted_and_announced() {
    let board = || ReadycheckBoard {
        kind: LobbyKind::Open,
        players: BTreeMap::new(),
        reacted: BTreeMap::new(),
    };
    let wording = settings().wording;
    let (flow, turn) = BoardFlow::start(BoardTask::Post { channel_id: 7 }, board(), 2);
    assert_eq!(turn, Turn::ask(Action::DescribeCheck { players: 0, threshold: 2 }));
    let (flow, turn) = flow.resume(Event::Text("none of two".to_owned()), &wording);
    match turn.next {
        Next::Ask(Action::Send { channel_id, message }) => {
            assert_eq!(channel_id, 7);
            assert_eq!(message.content_mode, DiscordMessageContentMode::Replace);
            let embed = message.response.embed.expect("a card");
            assert_eq!(embed.description.as_deref(), Some("none of two"));
        }
        other => panic!("unexpected {other:?}"),
    }
    let (flow, turn) = flow.resume(done(), &wording);
    assert_eq!(turn, Turn::wait());
    let (_, turn) = flow.resume(Event::Posted(Ok(receipt(7, 8))), &wording);
    assert_eq!(turn, Turn::end(Event::Posted(Ok(receipt(7, 8)))));
    let task = BoardTask::Paint { channel_id: 7, message_id: 8 };
    let (flow, _) = BoardFlow::start(task, board(), 2);
    let (flow, turn) = flow.resume(Event::Text("none of two".to_owned()), &wording);
    assert!(matches!(turn.next, Next::Ask(Action::Edit { channel_id: 7, message_id: 8, .. })));
    let (flow, turn) = flow.resume(Event::Posted(Ok(receipt(7, 8))), &wording);
    assert_eq!(turn, Turn::wait());
    let (_, turn) = flow.resume(done(), &wording);
    assert_eq!(turn, Turn::end(done()));
    let (flow, turn) = AnnounceFlow::start(9, LobbyKind::Open, 2);
    assert_eq!(turn, Turn::ask(Action::WordAnnouncement { kind: LobbyKind::Open, threshold: 2 }));
    let (flow, turn) = flow.resume(Event::Text("ready!".to_owned()));
    assert_eq!(
        turn,
        Turn::ask(Action::Send {
            channel_id: 9,
            message: DiscordMessage::silent("ready!".to_owned()),
        })
    );
    let (_, turn) = flow.resume(Event::Posted(Err("gone".to_owned())));
    assert_eq!(turn, Turn::end(failed("gone")));
}

#[test]
fn procedures_open_what_was_asked_for() {
    let settings = settings();
    let plain = Action::ReadClock;
    assert_eq!(Procedure::open(plain, &settings), Err(Action::ReadClock));
    let (flow, turn) = Procedure::open(Action::SyncReadyLobby { scope: open() }, &settings)
        .expect("a procedure");
    assert_eq!(turn, Turn::ask(Action::ReadLobby { scope: open() }));
    let (_, turn) = flow.resume(Event::Lobby(Some(lobby())), &settings);
    let ready = to_ready_lobby(&lobby());
    assert_eq!(ready.created_at, "1970-01-01T00:00:00+00:00");
    assert_eq!(turn, Turn::end_after(vec![Action::TakeOver { ready }], done()));
    let (flow, _) = Procedure::open(Action::SyncReadyLobby { scope: open() }, &settings)
        .expect("a procedure");
    let (_, turn) = flow.resume(Event::Lobby(None), &settings);
    assert_eq!(turn, Turn::end_after(vec![Action::ForgetCheck { scope: open() }], done()));
    let (flow, _) = Procedure::open(Action::RefreshDisplay { scope: open() }, &settings)
        .expect("a procedure");
    let (_, turn) = flow.resume(Event::Lobby(Some(bare_lobby())), &settings);
    assert_eq!(turn, Turn::end(done()));
    let seat = Action::JoinRegistered { scope: open(), player_id: 20, has_roles: true };
    let (_, turn) = Procedure::open(seat, &settings).expect("a procedure");
    assert_eq!(turn, Turn::ask(Action::FindCurfew { scope: open(), player_id: 20 }));
}

#[test]
fn players_are_looked_at_one_by_one() {
    let mut roster = lobby();
    roster.players = BTreeSet::from([-1, 20]);
    roster.player_join_times = BTreeMap::from([(-1, JoinTime { bits: 0 })]);
    let (flow, turn) = ClassifyFlow::start(roster);
    assert_eq!(
        turn,
        Turn::ask(Action::FindRecent { joined: BTreeMap::from([(-1, JoinTime { bits: 0 })]) })
    );
    let (flow, turn) = flow.resume(Event::Players(BTreeSet::from([-1])));
    assert_eq!(turn, Turn::ask(Action::NamePlayer { player_id: -1, guild_id: 42 }));
    let (flow, turn) = flow.resume(Event::Text("FakeUser1".to_owned()));
    assert_eq!(turn, Turn::ask(Action::FindMember { guild_id: 42, user_id: 20 }));
    let member = GuildMember {
        display_name: "Second".to_owned(),
        activities: vec!["Dota 2".to_owned()],
        in_voice: false,
        presence: DiscordPresence::Idle,
    };
    let (_, turn) = flow.resume(Event::Member(Ok(Some(member))));
    match turn.next {
        Next::End(seen) => {
            assert_eq!(seen.mentionable, BTreeSet::from([20]));
            assert_eq!(seen.players[&-1].name, "FakeUser1");
            assert_eq!(seen.players[&-1].group, ReadinessGroup::Recent);
            assert_eq!(seen.players[&20].group, ReadinessGroup::PlayingDota);
        }
        other => panic!("unexpected {other:?}"),
    }
}

#[test]
fn notices_say_who_came_and_went() {
    let settings = settings();
    let joiner = || Joiner {
        player_id: 20,
        name: "second".to_owned(),
        display_name: "Second".to_owned(),
        joined_at_ns: 5,
    };
    let said = |raw| {
        let (flow, turn) = JoinNotice::start(open(), joiner(), raw);
        assert_eq!(
            turn,
            Turn::ask_after(
                vec![
                    Action::SyncDisplay { scope: open() },
                    Action::SyncReadycheck { scope: open() },
                ],
                Action::ReadLobby { scope: open() }
            )
        );
        let (_, turn) = flow.resume(Event::Lobby(Some(lobby())), &settings);
        match turn.before.into_iter().next() {
            Some(Action::Send { channel_id: 21_000, message }) => {
                assert_eq!(
                    message.allowed_mentions,
                    DiscordAllowedMentions::Users(BTreeSet::from([20]))
                );
                message.response.content
            }
            other => panic!("unexpected {other:?}"),
        }
    };
    assert_eq!(said(true), "✅ <@20> joined OPEN!");
    assert_eq!(said(false), "✅ <@20> joined the lobby!");
    let (flow, _) = JoinNotice::start(open(), joiner(), false);
    let (_, turn) = flow.resume(Event::Lobby(None), &settings);
    assert_eq!(turn, Turn::end(None));
    let left = |raw| {
        let (flow, _) = LeaveNotice::start(open(), 20, "Second".to_owned(), raw);
        let (_, turn) = flow.resume(Event::Lobby(Some(lobby())), &settings.wording);
        turn
    };
    let silent = |text: &str| {
        let message = DiscordMessage::silent(text.to_owned());
        Turn::end_after(vec![Action::Send { channel_id: 21_000, message }], ())
    };
    assert_eq!(left(true), silent("🚪 Second left OPEN."));
    assert_eq!(left(false), silent("🚪 **Second** left the lobby."));
}

fn fill(requested: Option<usize>, events: Vec<Event>) -> Turn<Result<AdminFakeLobbyResult, String>> {
    let (mut flow, mut turn) = FakeFlow::start(42, requested);
    for event in events {
        (flow, turn) = flow.resume(event, &settings().config);
    }
    turn
}

#[test]
fn fillings_that_fail_free_the_lobby() {
    let free = |text: &str| Turn::end_after(vec![unlock(open())], Err(text.to_owned()));
    let failure = CreationFailure {
        cause: CreationCause::RatingTooHigh,
        report: "not created".to_owned(),
    };
    assert_eq!(fill(Some(1), vec![Event::Created(Err(failure))]), free("not created"));
    let created = || Event::Created(Ok(lobby()));
    assert_eq!(
        fill(Some(19), vec![created()]),
        free("Adding 19 users would exceed 20 players. Currently 2/20.")
    );
    assert_eq!(
        fill(None, vec![created()]),
        Turn::end_after(
            vec![unlock(open())],
            Ok(AdminFakeLobbyResult {
                users_added: 0,
                user_names: Vec::new(),
                already_at_threshold: Some((2, 2)),
            })
        )
    );
    assert_eq!(
        fill(Some(1), vec![created(), Event::Clock(Err("off by a second".to_owned()))]),
        free("system clock is before Unix epoch: off by a second")
    );
    let clock = || Event::Clock(Ok(JoinTime { bits: 0 }));
    assert_eq!(
        fill(Some(1), vec![created(), clock(), Event::PlayerLoaded(Err("locked".to_owned()))]),
        free("locked")
    );
    let unknown = || Event::PlayerLoaded(Ok(None));
    assert_eq!(
        fill(
            Some(1),
            vec![
                created(),
                clock(),
                unknown(),
                Event::FakeAdded(AddOutcome::Failed("full".to_owned())),
            ]
        ),
        free("full")
    );
    assert_eq!(
        fill(
            Some(1),
            vec![created(), clock(), unknown(), Event::FakeAdded(AddOutcome::Duplicate)]
        ),
        Turn::ask(Action::Join { player_id: -1, scope: open() })
    );
    let mut last = lobby();
    last.players = BTreeSet::from([-i64::MAX]);
    assert_eq!(
        fill(
            Some(2),
            vec![
                Event::Created(Ok(last)),
                clock(),
                Event::PlayerLoaded(Ok(Some(player()))),
                Event::Joined(Ok(JoinOutcome {
                    joined_at_ns: None,
                    failure: Some(JoinFailure::Other),
                    context: None,
                })),
            ]
        ),
        free("fake-user index overflow")
    );
}

#[test]
fn fillings_that_race_are_reported() {
    let mut quiet = lobby();
    quiet.players = BTreeSet::from([10]);
    let events = vec![
        Event::Created(Ok(quiet)),
        Event::Clock(Ok(JoinTime { bits: 0 })),
        Event::PlayerLoaded(Ok(Some(player()))),
        Event::Joined(Ok(JoinOutcome { joined_at_ns: Some(1), failure: None, context: None })),
        Event::Backdated(Ok(0)),
    ];
    assert_eq!(
        fill(None, events),
        Turn::end_after(
            vec![unlock(open())],
            Err("lobby membership changed while backdating fake users".to_owned())
        )
    );
}

#[test]
fn fillings_number_their_players_in_order() {
    let mut quiet = lobby();
    quiet.players = BTreeSet::from([-4, -2, 10]);
    let joined = || {
        Event::Joined(Ok(JoinOutcome { joined_at_ns: Some(1), failure: None, context: None }))
    };
    let mut events = vec![Event::Created(Ok(quiet)), Event::Clock(Ok(JoinTime { bits: 0 }))];
    for _ in 0..3 {
        events.push(Event::PlayerLoaded(Ok(Some(player()))));
        events.push(joined());
    }
    assert_eq!(
        fill(Some(3), events),
        Turn::end_after(
            vec![
                Action::SyncReadyLobby { scope: open() },
                Action::RefreshDisplay { scope: open() },
                unlock(open()),
            ],
            Ok(AdminFakeLobbyResult {
                users_added: 3,
                user_names: vec![
                    "FakeUser5".to_owned(),
                    "FakeUser6".to_owned(),
                    "FakeUser7".to_owned(),
                ],
                already_at_threshold: None,
            })
        )
    );
}

fn eject(
    scope: SuspensionScope,
    events: Vec<Event>,
) -> Turn<Result<AdminLobbyEjectionResult, String>> {
    let (mut flow, mut turn) = EjectFlow::start(AdminLobbyEjectionRequest {
        guild_id: 42,
        player_id: 20,
        player_display_name: "Second".to_owned(),
        scope,
    });
    for event in events {
        (flow, turn) = flow.resume(event, &settings().wording);
    }
    turn
}

#[test]
fn suspended_players_are_ejected() {
    let both = || Event::Kinds(vec![LobbyKind::Open, LobbyKind::LowSkill]);
    assert_eq!(
        eject(SuspensionScope::Lowskill, vec![both()]),
        Turn::ask_after(vec![lock(low())], Action::Leave { player_id: 20, scope: low() })
    );
    assert_eq!(
        eject(SuspensionScope::Lowskill, vec![both(), Event::Outcome(Err(crashed_work()))]),
        Turn::end_after(
            vec![unlock(low())],
            Err("suspension lobby task failed: panicked".to_owned())
        )
    );
    assert_eq!(
        eject(
            SuspensionScope::Lowskill,
            vec![both(), Event::Outcome(Ok(true)), Event::Lobby(Some(lobby()))]
        ),
        Turn::end_after(
            vec![
                Action::Send {
                    channel_id: 21_000,
                    message: DiscordMessage::silent(
                        "⛔ **Second** was temporarily suspended from matchmaking by an admin."
                            .to_owned()
                    ),
                },
                unlock(low()),
            ],
            Ok(AdminLobbyEjectionResult {
                applicable_lobbies: vec!["LOW".to_owned()],
                evicted_lobbies: vec!["LOW".to_owned()],
            })
        )
    );
    assert_eq!(
        eject(
            SuspensionScope::Open,
            vec![Event::Kinds(vec![LobbyKind::Open]), Event::Outcome(Ok(false))]
        ),
        Turn::end_after(
            vec![unlock(open())],
            Ok(AdminLobbyEjectionResult {
                applicable_lobbies: vec!["OPEN".to_owned()],
                evicted_lobbies: Vec::new(),
            })
        )
    );
}

#[test]
fn matched_players_leave_the_other_lobby() {
    let port = MatchLobbyPort { ready_threshold: 2 };
    let evict = |event| {
        let (flow, turn) = port.evict_from_other_lobby(42, LobbyKind::Open, BTreeSet::from([20]));
        assert_eq!(
            turn,
            Turn::ask(Action::RemovePlayers { players: BTreeSet::from([20]), scope: low() })
        );
        flow.resume(event).1
    };
    assert_eq!(
        evict(Event::Removed(Ok(BTreeSet::from([20])))),
        Turn::end_after(
            vec![
                Action::SyncReadyLobby { scope: low() },
                Action::SyncDisplay { scope: low() },
            ],
            Ok(BTreeSet::from([20]))
        )
    );
    assert_eq!(evict(Event::Removed(Ok(BTreeSet::new()))), Turn::end(Ok(BTreeSet::new())));
    assert_eq!(
        evict(Event::Removed(Err(crashed_work()))),
        Turn::end(Err("sibling lobby eviction task failed: panicked".to_owned()))
    );
}

#[test]
fn shuffled_lobbies_are_reset() {
    let port = MatchLobbyPort { ready_threshold: 2 };
    let reset = |guild_id, events: Vec<Event>| {
        let (mut flow, mut turn) = port.reset_after_shuffle(guild_id, LobbyKind::Open);
        for event in events {
            (flow, turn) = flow.resume(event);
        }
        turn
    };
    assert_eq!(reset(42, Vec::new()), Turn::ask(Action::ClearLobby { scope: open() }));
    assert_eq!(reset(42, vec![Event::Outcome(Ok(false))]), Turn::end(Ok(false)));
    assert_eq!(
        reset(42, vec![Event::Outcome(Err(crashed_work()))]),
        Turn::end(Err("lobby reset task failed: panicked".to_owned()))
    );
    let cleared = || Event::Outcome(Ok(true));
    assert_eq!(
        reset(42, vec![cleared()]),
        Turn::ask_after(vec![Action::ForgetCheck { scope: open() }], Action::FindObserver)
    );
    assert_eq!(reset(42, vec![cleared(), Event::Flag(false)]), Turn::end(Ok(true)));
    assert_eq!(
        reset(42, vec![cleared(), failed("lobby join observer lock was poisoned")]),
        Turn::end(Err("lobby join observer lock was poisoned".to_owned()))
    );
    assert_eq!(
        reset(42, vec![cleared(), Event::Flag(true)]),
        Turn::ask(Action::TellReset { guild_id: 42, kind: LobbyKind::Open })
    );
    assert_eq!(
        reset(42, vec![cleared(), Event::Flag(true), failed("deaf")]),
        Turn::end(Err("deaf".to_owned()))
    );
    assert_eq!(
        reset(-42, vec![cleared(), Event::Flag(true)]),
        Turn::end(Err("invalid persisted guild snowflake -42".to_owned()))
    );
}

#[test]
fn pools_are_repainted_in_both_lobbies() {
    let port = MatchLobbyPort { ready_threshold: 2 };
    let refresh = |events: Vec<Event>| {
        let (mut flow, mut turn) = port.refresh_first_game_pool_lobbies(42);
        for event in events {
            (flow, turn) = flow.resume(event);
        }
        turn
    };
    assert_eq!(
        refresh(Vec::new()),
        Turn::ask_after(vec![lock(open())], Action::ReadLobby { scope: open() })
    );
    let painted = || {
        vec![
            Event::Lobby(Some(lobby())),
            Event::Rendered(Ok(model())),
            failed("gone"),
        ]
    };
    assert_eq!(
        refresh(painted()),
        Turn::ask_after(
            vec![unlock(open()), lock(low())],
            Action::ReadLobby { scope: low() }
        )
    );
    let mut both = painted();
    both.extend(painted());
    assert_eq!(
        refresh(both),
        Turn::end_after(vec![unlock(low())], Err("open: gone; lowskill: gone".to_owned()))
    );
    assert_eq!(
        refresh(vec![Event::Lobby(None), Event::Lobby(Some(bare_lobby()))]),
        Turn::end_after(vec![unlock(low())], Ok(()))
    );
    assert_eq!(
        refresh(vec![Event::Lobby(Some(lobby())), Event::Rendered(Err(crashed_work()))]),
        Turn::end_after(
            vec![unlock(open())],
            Err("first-game lobby render task failed: panicked".to_owned())
        )
    );
}

#[test]
fn recovery_gives_up_after_three_attempts() {
    let (mut flow, mut turn) = RecoveryFlow::start(vec![42]);
    let mut foreign = lobby();
    foreign.scope.guild_id = 43;
    let lobbies = Event::Lobbies(vec![lobby(), foreign, bare_lobby()]);
    (flow, turn) = flow.resume(lobbies);
    let mut slept = Vec::new();
    for _ in 0..3 {
        assert_eq!(turn, Turn::ask(Action::Fetch { channel_id: 700, message_id: 1_000 }));
        (flow, turn) = flow.resume(Event::Fetched(Ok(None)));
        if let Next::Ask(Action::Sleep { seconds }) = turn.next {
            slept.push(seconds);
            (flow, turn) = flow.resume(done());
        }
    }
    assert_eq!(slept, vec![1, 2]);
    match turn.next {
        Next::End(report) => {
            assert_eq!(report.guilds_attempted, 1);
            assert_eq!(report.guilds_refreshed, 0);
            assert_eq!(
                report.failures,
                vec![ReadyRecoveryFailure {
                    guild_id: 42,
                    message: "open: persisted lobby message was not found".to_owned(),
                }]
            );
        }
        other => panic!("unexpected {other:?}"),
    }
    let (_, turn) = flow.resume(done());
    assert_eq!(turn, Turn::wait());
}

#[test]
fn recovery_forgets_failures_that_were_mended() {
    let (mut flow, mut turn) = RecoveryFlow::start(vec![42]);
    let message = || DiscordMessageSnapshot {
        receipt: receipt(700, 1_000),
        reactions: vec![DiscordEmoji::unicode("⚔️")],
    };
    for event in [
        Event::Lobbies(vec![lobby()]),
        Event::Fetched(Err("timeout".to_owned())),
        done(),
        Event::Fetched(Ok(Some(message()))),
        done(),
    ] {
        (flow, turn) = flow.resume(event);
    }
    drop(flow);
    match turn.next {
        Next::End(report) => {
            assert_eq!(report.guilds_refreshed, 1);
            assert!(report.failures.is_empty());
        }
        other => panic!("unexpected {other:?}"),
    }
}

#[test]
fn recovery_reports_each_lobby_by_its_last_try() {
    let mut sibling = lobby();
    sibling.scope = low();
    sibling.message_ids.message_id = Some(2_000);
    let mut broken = lobby();
    broken.scope.guild_id = 43;
    broken.message_ids.channel_id = Some(-7);
    let (mut flow, mut turn) = RecoveryFlow::start(vec![42, 43]);
    let message = DiscordMessageSnapshot { receipt: receipt(700, 2_000), reactions: Vec::new() };
    for event in [
        Event::Lobbies(vec![broken, lobby(), sibling]),
        Event::Fetched(Err("first".to_owned())),
        Event::Fetched(Ok(Some(message))),
        done(),
        done(),
        Event::Fetched(Err("second".to_owned())),
        done(),
        Event::Fetched(Err("third".to_owned())),
    ] {
        (flow, turn) = flow.resume(event);
    }
    drop(flow);
    match turn.next {
        Next::End(report) => {
            assert_eq!(report.guilds_attempted, 2);
            assert_eq!(report.guilds_refreshed, 1);
            let failure = |guild_id, message: &str| ReadyRecoveryFailure {
                guild_id,
                message: message.to_owned(),
            };
            assert_eq!(
                report.failures,
                vec![
                    failure(42, "open: third"),
                    failure(43, "open: invalid persisted Discord snowflake -7"),
                ]
            );
        }
        other => panic!("unexpected {other:?}"),
    }
}

#[test]
fn curfews_are_shown_in_order() {
    let (flow, turn) = CurfewFlow::start(42, LobbyKind::LowSkill);
    assert_eq!(
        turn,
        Turn::ask_after(
            vec![Action::SyncReadycheck { scope: low() }],
            Action::SyncDisplay { scope: low() }
        )
    );
    let (flow, turn) = flow.resume(failed("gone"));
    assert_eq!(turn, Turn::end(Err("gone".to_owned())));
    let (_, turn) = flow.resume(done());
    assert_eq!(turn, Turn::wait());
}
