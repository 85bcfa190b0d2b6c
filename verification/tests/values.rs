//! Single rules on given values.
use std::collections::{BTreeMap, BTreeSet};

use lobby_provider::closing::{
    close_lobby_message, closed_name, private_answer, thread_message, unpin_lobby_message,
    AllowedMentions, CLOSED_COLOR,
};
use lobby_provider::commands::{
    selected_lobby_kind, selected_or_open, selected_string, selected_user, CommandContext,
    HandlerError, InteractionOption, InteractionRequest, InteractionValue, SelectedUser,
    ADMINISTRATOR_PERMISSION, MANAGE_GUILD_PERMISSION,
};
use lobby_provider::config::{
    optional_snowflake, positive_usize, snowflake, ApplicationConfig, ChannelSettings,
    IdentitySettings, LobbyProviderBuildError, LobbyRuntimeConfig, ValueSettings,
};
use lobby_provider::fakes::{
    assemble_player, backdate_offset, decide_count, make_up, name_fake, next_index, too_many,
    FakeCount,
};
use lobby_provider::ids::{to_stored, to_u64, to_unsigned, to_unsigned_option};
use lobby_provider::joining::{
    confirmed_join, lobby_command_auto_join_warning, present_outcome, present_rejection,
    present_warning, raw_rejection_message, JoinContext, JoinFailure, JoinOutcome,
    JoinPresentation, JoinRejection, Joiner, PendingMatchState, Player,
};
use lobby_provider::kinds::{
    copy_kinds, first_kind, lobby_kind_value, parse_lobby_kind, sibling_kind, LobbyKind,
    LobbyScope, Wording,
};
use lobby_provider::lobby::{
    display_ids, has_display, lobby_reaction, ready_lobby_created_at, scope_for_lobby_message,
    scope_for_readycheck_message, sync_ready_lobby, to_ready_lobby, JoinTime, LobbyMessageIds,
    LobbySnapshot, LobbyStatus, ReadySync,
};
use lobby_provider::matching::{DraftState, MatchLobbyPort};
use lobby_provider::message::{
    interaction_embed, DiscordAllowedMentions, DiscordEmoji, DiscordMessage,
    DiscordMessageContentMode, EmbedModel, InteractionAllowedMentions, InteractionEmbedField,
};
use lobby_provider::moderation::{
    applicable_kinds, private_suspension_message, suspension_scope, LobbySuspension,
    SuspensionCompletion, SuspensionScope,
};
use lobby_provider::players::{
    fallback_name, lobby_player, lobby_players, parse_small, previews_or_nothing, scoped_matches,
    zone_or_none, FirstGamePoolPreviews, PendingRow, PlayerRow, Rating, ScopedPendingMatch,
};
use lobby_provider::presence::{
    absent_group, contains_word, member_group, playing_dota, readiness, DiscordPresence,
    GuildMember, ReadinessGroup,
};
use lobby_provider::protocol::WorkFailure;
use lobby_provider::readycheck::{
    answer_readycheck, board_message, discord_jump_url, readycheck_embed,
    readycheck_failure_message, readycheck_ping, ReadycheckBoard, ReadycheckCommandFailure,
    ReadycheckGeneration, ReadycheckPlayerData, ReadycheckRunResult, READYCHECK_COLOR,
};
use lobby_provider::registration::{
    lobby_choice_option, lobby_commands, route_command, CommandOptionKind, LobbyCommand,
};
use lobby_provider::roster::{
    initial_reacted, reserved_players, self_confirmed, withdrawn_reactions,
};
use lobby_provider::sets::{
    common, either, id_set, key_list, key_set, members, same_set, snowflake_set, valid_ids,
};
use lobby_provider::text::{
    decimal_i64, decimal_u64, join_texts, same_text, tag_i64, tag_u64, text2, text3, text4, text5,
};

fn wording() -> Wording {
    Wording {
        open_label: "🍽️ All You Can Feed".to_owned(),
        open_name: "All You Can Feed".to_owned(),
        low_skill_label: "🧀 Whine & Cheese".to_owned(),
        low_skill_name: "Whine & Cheese".to_owned(),
        jopacoin_emoji_id: 77,
        jopacoin_emote: "<:jopacoin:77>".to_owned(),
    }
}

fn config() -> LobbyRuntimeConfig {
    LobbyRuntimeConfig {
        lobby_channel_id: Some(700),
        low_skill_lobby_channel_id: Some(701),
        admin_user_ids: BTreeSet::from([5]),
        ready_threshold: 10,
        max_players: 14,
        first_game_pool_daily_amount: 100,
    }
}

fn lobby() -> LobbySnapshot {
    LobbySnapshot {
        scope: LobbyScope::new(42, LobbyKind::Open),
        created_by: Some(10),
        created_at_ns: 1_700_000_000_123_456_789,
        players: BTreeSet::from([-3, 10, 20]),
        player_join_times: BTreeMap::from([(10, JoinTime { bits: 7 })]),
        message_ids: LobbyMessageIds {
            message_id: Some(1_000),
            channel_id: Some(700),
            thread_id: Some(21_000),
            embed_message_id: Some(1_000),
            origin_channel_id: Some(9),
        },
    }
}

fn suspension() -> LobbySuspension {
    LobbySuspension {
        scope: SuspensionScope::Open,
        expires_at: Some(1_700_003_600),
        matches_remaining: Some(1),
        completion: SuspensionCompletion::Either,
        reason: "Take a break".to_owned(),
    }
}

fn text_option(name: &str, value: &str) -> InteractionOption {
    InteractionOption {
        name: name.to_owned(),
        value: InteractionValue::Text(value.to_owned()),
    }
}

fn application_config() -> ApplicationConfig {
    ApplicationConfig {
        channels: ChannelSettings { lobby: Some(700), low_skill_lobby: None },
        identities: IdentitySettings { admin_user_ids: vec![5, 3, 5] },
        values: ValueSettings {
            lobby_ready_threshold: 10,
            lobby_max_players: 14,
            first_game_pool_daily_amount: -1,
        },
    }
}

#[test]
fn numbers_are_written_in_decimal() {
    assert_eq!(decimal_u64(0), "0");
    assert_eq!(decimal_u64(u64::MAX), "18446744073709551615");
    assert_eq!(decimal_i64(-17), "-17");
    assert_eq!(decimal_i64(i64::MIN), "-9223372036854775808");
    assert_eq!(tag_i64(-3), "<@-3>");
    assert_eq!(tag_u64(20), "<@20>");
}

#[test]
fn texts_are_put_together() {
    assert_eq!(text2("a", "b"), "ab");
    assert_eq!(text3("a", "b", "c"), "abc");
    assert_eq!(text4("a", "b", "c", "d"), "abcd");
    assert_eq!(text5("a", "b", "c", "d", "e"), "abcde");
    let parts = vec!["x".to_owned(), "y".to_owned(), "z".to_owned()];
    assert_eq!(join_texts(&parts, ", "), "x, y, z");
    assert_eq!(join_texts(&Vec::new(), ", "), "");
    assert!(same_text("⚔️", "⚔️"));
    assert!(!same_text("⚔️", "⚔"));
}

#[test]
fn sets_are_listed_in_order() {
    let ids = BTreeSet::from([20, -3, 10]);
    assert_eq!(members(&ids), vec![-3, 10, 20]);
    assert_eq!(valid_ids(&members(&ids)), vec![10, 20]);
    assert_eq!(snowflake_set(&ids), BTreeSet::from([10, 20]));
    assert_eq!(id_set(&vec![4, 2, 4]), BTreeSet::from([2, 4]));
    let other = BTreeSet::from([10, 30]);
    assert_eq!(common(&ids, &other), BTreeSet::from([10]));
    assert_eq!(either(&ids, &other), BTreeSet::from([-3, 10, 20, 30]));
    assert!(same_set(&ids, &BTreeSet::from([-3, 10, 20])));
    assert!(!same_set(&ids, &other));
    let map = BTreeMap::from([(2, "b"), (1, "a")]);
    assert_eq!(key_list(&map), vec![1, 2]);
    assert_eq!(key_set(&map), BTreeSet::from([1, 2]));
}

#[test]
fn ids_are_stored_and_read_back() {
    assert_eq!(to_u64(5), Ok(5));
    assert_eq!(to_u64(-5), Err("invalid persisted Discord snowflake -5".to_owned()));
    assert_eq!(to_unsigned(-1), None);
    assert_eq!(to_unsigned_option(Some(8)), Some(8));
    assert_eq!(to_unsigned_option(None), None);
    assert_eq!(to_stored(u64::MAX), None);
    let id: u64 = 1_463_270_458_848_842_003;
    assert_eq!(to_stored(id).and_then(to_unsigned), Some(id));
}

#[test]
fn kinds_read_back_from_their_values() {
    for kind in [LobbyKind::Open, LobbyKind::LowSkill] {
        assert_eq!(parse_lobby_kind(lobby_kind_value(kind)), Some(kind));
        assert_ne!(sibling_kind(kind), kind);
        assert_eq!(sibling_kind(sibling_kind(kind)), kind);
    }
    assert_eq!(parse_lobby_kind("Open"), None);
    assert_eq!(lobby_kind_value(LobbyKind::LowSkill), "lowskill");
    let kinds = vec![LobbyKind::LowSkill, LobbyKind::Open];
    assert_eq!(copy_kinds(&kinds), kinds);
    assert_eq!(first_kind(kinds), (Some(LobbyKind::LowSkill), vec![LobbyKind::Open]));
    assert_eq!(first_kind(Vec::new()), (None, Vec::new()));
}

#[test]
fn accepted_settings_are_taken_over() {
    let checked = LobbyRuntimeConfig::from_application_config(&application_config());
    let checked = checked.expect("acceptable settings");
    assert_eq!(checked.lobby_channel_id, Some(700));
    assert_eq!(checked.low_skill_lobby_channel_id, None);
    assert_eq!(checked.admin_user_ids, BTreeSet::from([3, 5]));
    assert_eq!(checked.ready_threshold, 10);
    assert_eq!(checked.max_players, 14);
    assert_eq!(checked.first_game_pool_daily_amount, -1);
    assert_eq!(checked.check_lobby_sizes(), Ok(()));
    assert_eq!(checked.configured_channel(LobbyKind::LowSkill), Some(700));
}

#[test]
fn the_first_bad_setting_is_reported() {
    let invalid = |config: &ApplicationConfig| match LobbyRuntimeConfig::from_application_config(
        config,
    ) {
        Err(LobbyProviderBuildError::InvalidConfig(name)) => name,
        other => panic!("unexpected {other:?}"),
    };
    let mut config = application_config();
    config.values.lobby_max_players = 0;
    assert_eq!(invalid(&config), "LOBBY_MAX_PLAYERS");
    config.values.lobby_ready_threshold = -1;
    assert_eq!(invalid(&config), "LOBBY_READY_THRESHOLD");
    config.identities.admin_user_ids.push(-7);
    assert_eq!(invalid(&config), "ADMIN_USER_IDS");
    config.channels.low_skill_lobby = Some(-1);
    assert_eq!(invalid(&config), "LOWSKILL_LOBBY_CHANNEL_ID");
    config.channels.lobby = Some(-1);
    assert_eq!(invalid(&config), "LOBBY_CHANNEL_ID");
}

#[test]
fn build_errors_are_put_into_words() {
    assert_eq!(positive_usize(3, "SIZE"), Ok(3));
    let error = positive_usize(0, "SIZE").expect_err("zero is refused");
    assert_eq!(error.message(), "invalid positive/snowflake value for SIZE");
    assert_eq!(snowflake(0, "ID"), Ok(0));
    assert!(snowflake(-1, "ID").is_err());
    assert_eq!(optional_snowflake(None, "ID"), Ok(None));
    assert_eq!(optional_snowflake(Some(4), "ID"), Ok(Some(4)));
    let error = LobbyProviderBuildError::Persistence("disk full".to_owned());
    assert_eq!(error.message(), "could not hydrate persisted lobby state: disk full");
    let mut sizes = config();
    sizes.max_players = 0;
    assert_eq!(
        sizes.check_lobby_sizes(),
        Err(LobbyProviderBuildError::InvalidConfig("lobby sizes"))
    );
}

fn request(user_id: u64, guild_id: Option<u64>, channel_id: Option<u64>) -> InteractionRequest {
    InteractionRequest::Command {
        name: "lobby".to_owned(),
        user_id,
        user_display_name: "Creator".to_owned(),
        guild_id,
        channel_id,
        member_permissions: None,
        options: Vec::new(),
    }
}

#[test]
fn commands_are_taken_over_in_stored_form() {
    let context = CommandContext::try_from(request(10, Some(42), Some(9))).expect("a command");
    assert_eq!(context.user_id, 10);
    assert_eq!(context.guild_channel(), Some((42, 9)));
    let alone = CommandContext::try_from(request(10, Some(42), None)).expect("a command");
    assert_eq!(alone.guild_channel(), None);
    assert_eq!(
        CommandContext::try_from(InteractionRequest::Component),
        Err(HandlerError::Message("lobby handler received a component interaction".to_owned()))
    );
    let rejected = |request| match CommandContext::try_from(request) {
        Err(HandlerError::Transformer { value }) => value,
        other => panic!("unexpected {other:?}"),
    };
    assert_eq!(rejected(request(u64::MAX, Some(42), Some(9))), "18446744073709551615");
    assert_eq!(rejected(request(10, Some(u64::MAX), Some(9))), "guild id");
    assert_eq!(rejected(request(10, Some(42), Some(u64::MAX))), "channel id");
}

#[test]
fn administrators_are_named_or_permitted() {
    let mut context = CommandContext::try_from(request(10, Some(42), Some(9))).expect("a command");
    assert!(!context.is_admin(&config()));
    context.member_permissions = Some(ADMINISTRATOR_PERMISSION);
    assert!(context.is_admin(&config()));
    context.member_permissions = Some(MANAGE_GUILD_PERMISSION | 1);
    assert!(context.is_admin(&config()));
    context.member_permissions = Some(1);
    assert!(!context.is_admin(&config()));
    context.user_id = 5;
    assert!(context.is_admin(&config()));
}

#[test]
fn options_are_read_by_name_and_kind() {
    let options = vec![
        text_option("lobby", "sideways"),
        InteractionOption { name: "reason".to_owned(), value: InteractionValue::Other },
        text_option("reason", "late"),
        text_option("lobby", "lowskill"),
    ];
    assert_eq!(selected_lobby_kind(&options), Some(LobbyKind::LowSkill));
    assert_eq!(selected_or_open(&options), LobbyKind::LowSkill);
    assert_eq!(selected_lobby_kind(&Vec::new()), None);
    assert_eq!(selected_or_open(&Vec::new()), LobbyKind::Open);
    assert_eq!(selected_string(&options, "reason"), Some("late"));
    assert_eq!(selected_string(&options, "player"), None);
}

#[test]
fn users_are_read_by_name() {
    let user = |id, display_name: Option<&str>| InteractionOption {
        name: "player".to_owned(),
        value: InteractionValue::User {
            id,
            display_name: display_name.map(str::to_owned),
            is_bot: None,
        },
    };
    assert_eq!(selected_user(&Vec::new(), "player"), Ok(None));
    assert_eq!(
        selected_user(&vec![user(20, Some("Target"))], "player"),
        Ok(Some(SelectedUser { id: 20, name: "Target".to_owned() }))
    );
    assert_eq!(
        selected_user(&vec![user(20, None)], "player"),
        Ok(Some(SelectedUser { id: 20, name: "User 20".to_owned() }))
    );
    assert_eq!(
        selected_user(&vec![user(u64::MAX, None)], "player"),
        Err(HandlerError::Transformer { value: "18446744073709551615".to_owned() })
    );
    assert_eq!(
        selected_user(&vec![text_option("reason", "x"), text_option("player", "x")], "player"),
        Err(HandlerError::OptionType { position: 1 })
    );
}

#[test]
fn every_registered_command_is_routed() {
    let routed: Vec<LobbyCommand> = lobby_commands()
        .iter()
        .map(|command| route_command(command.name.as_str()).expect("a routed command"))
        .collect();
    assert_eq!(
        routed,
        vec![
            LobbyCommand::Lobby,
            LobbyCommand::Kick,
            LobbyCommand::Join,
            LobbyCommand::Leave,
            LobbyCommand::Reset,
            LobbyCommand::Readycheck,
        ]
    );
    assert_eq!(
        route_command("shuffle"),
        Err(HandlerError::Message("unexpected lobby command shuffle".to_owned()))
    );
}

#[test]
fn the_lobby_option_offers_both_kinds() {
    let option = lobby_choice_option("Which one");
    assert_eq!(option.name, "lobby");
    assert_eq!(option.description, "Which one");
    assert_eq!(option.kind, CommandOptionKind::Text);
    assert!(!option.required);
    let kinds: Vec<Option<LobbyKind>> =
        option.choices.iter().map(|choice| parse_lobby_kind(choice.value.as_str())).collect();
    assert_eq!(kinds, vec![Some(LobbyKind::Open), Some(LobbyKind::LowSkill)]);
    assert_eq!(option.choices[1].name, "🧀 Whine & Cheese");
    let kick = &lobby_commands()[1];
    assert!(kick.options[0].required);
    assert_eq!(kick.options[0].kind, CommandOptionKind::User);
}

#[test]
fn suspensions_are_put_into_words() {
    let mut terms = suspension();
    assert_eq!(
        private_suspension_message(&terms, &wording()),
        "You are suspended from 🍽️ All You Can Feed until <t:1700003600:F> (<t:1700003600:R>) or 1 completed match remaining. Reason: Take a break"
    );
    terms.completion = SuspensionCompletion::Both;
    terms.scope = SuspensionScope::All;
    terms.matches_remaining = Some(2);
    assert_eq!(
        private_suspension_message(&terms, &wording()),
        "You are suspended from all matchmaking lobbies until <t:1700003600:F> (<t:1700003600:R>) and 2 completed matches remaining. Reason: Take a break"
    );
    terms.expires_at = None;
    terms.scope = SuspensionScope::Lowskill;
    assert_eq!(
        private_suspension_message(&terms, &wording()),
        "You are suspended from 🧀 Whine & Cheese 2 completed matches remaining. Reason: Take a break"
    );
    terms.matches_remaining = None;
    assert_eq!(
        private_suspension_message(&terms, &wording()),
        "You are suspended from 🧀 Whine & Cheese temporarily. Reason: Take a break"
    );
}

#[test]
fn suspensions_cover_their_scope() {
    let both = vec![LobbyKind::Open, LobbyKind::LowSkill];
    assert_eq!(applicable_kinds(SuspensionScope::All, &both), both);
    assert_eq!(applicable_kinds(SuspensionScope::Lowskill, &both), vec![LobbyKind::LowSkill]);
    assert_eq!(applicable_kinds(SuspensionScope::Open, &vec![LobbyKind::LowSkill]), Vec::new());
    assert_eq!(suspension_scope(LobbyKind::Open), SuspensionScope::Open);
}

fn refused(failure: JoinFailure, context: Option<JoinContext>) -> JoinPresentation {
    let outcome = JoinOutcome { joined_at_ns: None, failure: Some(failure), context };
    present_outcome(LobbyKind::LowSkill, outcome, &wording())
}

#[test]
fn joins_are_presented() {
    let outcome = JoinOutcome { joined_at_ns: Some(17), failure: None, context: None };
    let joined = present_outcome(LobbyKind::Open, outcome, &wording());
    assert_eq!(joined, JoinPresentation { warning: None, rejection: None, joined_at_ns: Some(17) });
    assert_eq!(
        present_warning("careful".to_owned()),
        JoinPresentation {
            warning: Some("careful".to_owned()),
            rejection: None,
            joined_at_ns: None,
        }
    );
}

#[test]
fn every_refusal_is_presented() {
    let texts = |presentation: JoinPresentation| {
        let rejection = presentation.rejection.expect("a rejection");
        (presentation.warning.expect("a warning"), raw_rejection_message(&rejection, &wording()))
    };
    let pending = |url: Option<&str>| {
        Some(JoinContext::PendingMatch(PendingMatchState {
            pending_match_id: 8,
            shuffle_message_jump_url: url.map(str::to_owned),
        }))
    };
    assert_eq!(
        texts(refused(JoinFailure::InPendingMatch, pending(Some("https://x")))),
        (
            "❌ You're already in a pending match (Match #8)! [View your match](https://x) and use `/record` to complete it first.".to_owned(),
            "You're in a pending match (Match #8)! [View your match](https://x) and use `/record` to complete it first.".to_owned(),
        )
    );
    assert_eq!(
        texts(refused(JoinFailure::InPendingMatch, pending(None))),
        (
            "❌ You're already in a pending match (Match #8)! Use `/record` to complete it first."
                .to_owned(),
            "You're in a pending match (Match #8)! Use `/record` to complete it first.".to_owned(),
        )
    );
    assert_eq!(
        texts(refused(JoinFailure::LobbyFull, None)),
        ("❌ 🧀 Whine & Cheese is full.".to_owned(), "Lobby is full.".to_owned())
    );
    assert_eq!(
        texts(refused(JoinFailure::RatingTooHigh, None)),
        (
            "❌ Whine & Cheese is limited to players below 1400 Glicko.".to_owned(),
            "🧀 Whine & Cheese is limited to glicko below 1400.".to_owned(),
        )
    );
    assert_eq!(
        texts(refused(JoinFailure::InFlight, None)),
        (
            "❌ You can’t switch lobbies while your current shuffle or draft is in progress."
                .to_owned(),
            "You can't switch lobbies while your current shuffle or draft is in progress."
                .to_owned(),
        )
    );
    let (warning, public) =
        texts(refused(JoinFailure::Suspended, Some(JoinContext::Suspension(suspension()))));
    assert!(warning.starts_with("❌ You are suspended from 🍽️ All You Can Feed until"));
    assert!(warning.ends_with("Reason: Take a break"));
    assert_eq!(public, "You are temporarily restricted from this matchmaking lobby.");
    for failure in
        [JoinFailure::Persistence, JoinFailure::PendingMatchGuard, JoinFailure::ModerationGuard]
    {
        assert_eq!(
            texts(refused(failure, None)),
            (
                "❌ Could not verify or persist lobby membership. Please try again.".to_owned(),
                "Could not join lobby.".to_owned(),
            )
        );
    }
    for failure in [JoinFailure::Other, JoinFailure::Suspended, JoinFailure::InPendingMatch] {
        assert_eq!(
            texts(refused(failure, None)),
            (
                "❌ Already in 🧀 Whine & Cheese, or that lobby is closed.".to_owned(),
                "Already in lobby.".to_owned(),
            )
        );
    }
    let curfew = JoinRejection::Curfew("sleep".to_owned());
    assert_eq!(
        texts(present_rejection(LobbyKind::Open, curfew, &wording())),
        (
            "❌ You're inside your sleep curfew window. Use `/player curfew remove` if you'd rather queue through it.".to_owned(),
            "You're inside your sleep curfew window. Use `/player curfew remove` if you'd rather queue through it.".to_owned(),
        )
    );
}

#[test]
fn automatic_joins_warn_only_of_some_refusals() {
    let warning = |presentation: &JoinPresentation| {
        lobby_command_auto_join_warning(LobbyKind::LowSkill, presentation, &wording())
    };
    assert_eq!(
        warning(&refused(JoinFailure::RatingTooHigh, None)),
        Some(
            "ℹ️ You can view 🧀 Whine & Cheese, but only players below 1400 Glicko can join."
                .to_owned()
        )
    );
    assert_eq!(
        warning(&refused(JoinFailure::InFlight, None)),
        Some(
            "ℹ️ You can’t switch lobbies while your current shuffle or draft is in progress."
                .to_owned()
        )
    );
    assert_eq!(warning(&refused(JoinFailure::LobbyFull, None)), None);
    assert_eq!(warning(&refused(JoinFailure::Other, None)), None);
    assert_eq!(warning(&refused(JoinFailure::Persistence, None)), None);
    assert_eq!(warning(&present_warning("careful".to_owned())), Some("careful".to_owned()));
    let suspended = refused(JoinFailure::Suspended, Some(JoinContext::Suspension(suspension())));
    assert_eq!(warning(&suspended), suspended.warning);
    let asleep =
        present_rejection(LobbyKind::Open, JoinRejection::Curfew("sleep".to_owned()), &wording());
    assert_eq!(warning(&asleep), asleep.warning);
}

#[test]
fn confirmed_joins_show_the_lobby() {
    let joiner = Joiner {
        player_id: 20,
        name: "second".to_owned(),
        display_name: "Second".to_owned(),
        joined_at_ns: 17,
    };
    let lobby = lobby();
    let event = confirmed_join(lobby.scope, &joiner, &lobby, 10).expect("valid ids");
    assert_eq!(event.guild_id, 42);
    assert_eq!(event.player_id, 20);
    assert_eq!(event.player_name, "second");
    assert_eq!(event.player_display_name, "Second");
    assert_eq!(event.joined_at_ns, 17);
    assert_eq!(event.player_ids, BTreeSet::from([10, 20]));
    assert_eq!(event.ready_threshold, 10);
    assert_eq!(event.thread_id, Some(21_000));
    assert_eq!(event.duplicate(), event);
    let elsewhere = LobbyScope::new(-42, LobbyKind::Open);
    assert_eq!(confirmed_join(elsewhere, &joiner, &lobby, 10), None);
}

#[test]
fn lobbies_are_mirrored_for_ready_checks() {
    let ready = to_ready_lobby(&lobby());
    assert_eq!(ready.created_at, "2023-11-14T22:13:20.123456789+00:00");
    assert_eq!(ready.created_by, 10);
    assert_eq!(ready.players, BTreeSet::from([-3, 10, 20]));
    assert!(ready.legacy_conditional_players.is_empty());
    assert_eq!(ready.status, LobbyStatus::Open);
    assert_ne!(ready.status, LobbyStatus::Closed);
    assert_eq!(ready.thread_id, Some(21_000));
    let mut ownerless = lobby();
    ownerless.created_by = None;
    assert_eq!(ready_lobby_created_at(&ownerless, "then".to_owned()).created_by, 0);
    assert_eq!(sync_ready_lobby(&None), ReadySync::Forget);
    assert_eq!(sync_ready_lobby(&Some(lobby())), ReadySync::Put(ready));
}

#[test]
fn lobbies_know_where_they_are_shown() {
    assert!(has_display(&Some(lobby())));
    assert_eq!(display_ids(&Some(lobby())), Ok((700, 1_000)));
    assert_eq!(display_ids(&None), Err("lobby no longer exists".to_owned()));
    let mut hidden = lobby();
    hidden.message_ids.message_id = None;
    assert!(!has_display(&Some(hidden.clone())));
    assert_eq!(display_ids(&Some(hidden.clone())), Err("lobby has no message id".to_owned()));
    hidden.message_ids.channel_id = None;
    assert_eq!(display_ids(&Some(hidden.clone())), Err("lobby has no channel id".to_owned()));
    assert_eq!(lobby_reaction(&Some(hidden), 20), Ok(None));
    assert_eq!(lobby_reaction(&Some(lobby()), 20), Ok(Some((700, 1_000, 20))));
    assert_eq!(
        lobby_reaction(&Some(lobby()), -3),
        Err("invalid persisted Discord snowflake -3".to_owned())
    );
}

#[test]
fn messages_lead_back_to_their_lobby() {
    let mut sibling = lobby();
    sibling.scope.kind = LobbyKind::LowSkill;
    sibling.message_ids.message_id = Some(2_000);
    let lobbies = vec![lobby(), sibling];
    let open = LobbyScope::new(42, LobbyKind::Open);
    let low = LobbyScope::new(42, LobbyKind::LowSkill);
    assert_eq!(scope_for_lobby_message(&lobbies, Some(42), 1_000), Some(open));
    assert_eq!(scope_for_lobby_message(&lobbies, Some(42), 2_000), Some(low));
    assert_eq!(scope_for_lobby_message(&lobbies, Some(43), 1_000), None);
    assert_eq!(scope_for_lobby_message(&lobbies, None, 1_000), None);
    assert_eq!(scope_for_lobby_message(&lobbies, Some(42), u64::MAX), None);
    assert_eq!(scope_for_readycheck_message(Some(5), Some(6), Some(42), 6), Some(low));
    assert_eq!(scope_for_readycheck_message(Some(6), Some(6), Some(42), 6), Some(open));
    assert_eq!(scope_for_readycheck_message(None, None, Some(42), 6), None);
    assert_eq!(scope_for_readycheck_message(Some(6), None, None, 6), None);
}

#[test]
fn shuffles_see_the_lobby() {
    let port = MatchLobbyPort { ready_threshold: 10 };
    let generation = ReadycheckGeneration {
        channel_id: 1,
        message_id: 2,
        lobby_ids: BTreeSet::new(),
        player_data: BTreeMap::new(),
        reacted: BTreeMap::from([(20, "<@20>".to_owned())]),
        declined: BTreeSet::new(),
    };
    let seen = port
        .snapshot(42, LobbyKind::Open, Some(lobby()), &Some(generation))
        .expect("a lobby is there");
    assert_eq!(seen.player_ids, vec![-3, 10, 20]);
    assert_eq!(seen.confirmed_player_ids, Some(BTreeSet::from([20])));
    assert_eq!(seen.player_join_times, BTreeMap::from([(10, JoinTime { bits: 7 })]));
    assert_eq!(seen.origin_channel_id, Some(9));
    assert_eq!(port.unpin_source_message(&seen), Some((700, 1_000)));
    let quiet = port.snapshot(42, LobbyKind::Open, Some(lobby()), &None).expect("a lobby");
    assert_eq!(quiet.confirmed_player_ids, None);
    assert_eq!(port.snapshot(42, LobbyKind::Open, None, &None), None);
    let mut hidden = seen;
    hidden.lobby_message_id = None;
    assert_eq!(port.unpin_source_message(&hidden), None);
    let draft = DraftState {
        lobby_kind: LobbyKind::LowSkill,
        captain1_id: Some(10),
        captain2_id: None,
    };
    let active = port.active_draft(Some(draft)).expect("a draft is on");
    assert_eq!(active.lobby_kind, LobbyKind::LowSkill);
    assert_eq!(active.captain_ids, BTreeSet::from([10]));
    assert_eq!(port.active_draft(None), None);
}

#[test]
fn cards_show_their_model() {
    let field =
        InteractionEmbedField { name: "n".to_owned(), value: "v".to_owned(), inline: true };
    let model = EmbedModel {
        title: Some("t".to_owned()),
        description: None,
        footer: Some("f".to_owned()),
        fields: vec![field.clone()],
    };
    let embed = interaction_embed(model);
    assert_eq!(embed.title.as_deref(), Some("t"));
    assert_eq!(embed.description, None);
    assert_eq!(embed.color, None);
    assert_eq!(embed.footer.as_deref(), Some("f"));
    assert_eq!(embed.fields, vec![field]);
    assert_eq!(embed.duplicate(), embed);
    let card = DiscordMessage::card(embed.duplicate(), DiscordMessageContentMode::Preserve);
    assert_eq!(card.response.content, "");
    assert_eq!(card.response.embed, Some(embed));
    assert_eq!(card.allowed_mentions, DiscordAllowedMentions::Nobody);
}

#[test]
fn messages_notify_whom_they_may() {
    let silent = DiscordMessage::silent("s".to_owned());
    assert_eq!(silent.allowed_mentions, DiscordAllowedMentions::Nobody);
    assert_eq!(silent.response.allowed_mentions, InteractionAllowedMentions::Default);
    let secret = DiscordMessage::secret("s".to_owned());
    assert_eq!(secret.response.allowed_mentions, InteractionAllowedMentions::Nobody);
    let mentioning = DiscordMessage::mentioning("m".to_owned(), 20);
    assert_eq!(
        mentioning.allowed_mentions,
        DiscordAllowedMentions::Users(BTreeSet::from([20]))
    );
    let calling = DiscordMessage::calling("c".to_owned(), vec![20, 30]);
    assert_eq!(
        calling.response.allowed_mentions,
        InteractionAllowedMentions::Users(vec![20, 30])
    );
    assert_eq!(
        calling.allowed_mentions,
        DiscordAllowedMentions::Users(BTreeSet::from([20, 30]))
    );
    assert_eq!(DiscordEmoji::unicode("⚔️").id, None);
    assert_eq!(DiscordEmoji::custom("jopacoin", 77).id, Some(77));
}

#[test]
fn lobbies_are_closed() {
    assert_eq!(closed_name(LobbyKind::Open, "Reset", &wording()), "🍽️ All You Can Feed — Reset");
    let replacement = close_lobby_message(
        LobbyKind::Open,
        &lobby().message_ids,
        "Reset",
        &wording(),
    );
    let replacement = replacement.expect("valid ids").expect("a message");
    assert_eq!((replacement.channel_id, replacement.message_id), (700, 1_000));
    let embed = replacement.message.response.embed.expect("a card");
    assert_eq!(embed.title.as_deref(), Some("🍽️ All You Can Feed — Reset"));
    assert_eq!(embed.description.as_deref(), Some("This lobby is closed."));
    assert_eq!(embed.color, Some(CLOSED_COLOR));
    assert_eq!(CLOSED_COLOR, 0xe74c3c);
    let mut ids = lobby().message_ids;
    ids.channel_id = Some(-1);
    assert!(close_lobby_message(LobbyKind::Open, &ids, "Reset", &wording()).is_err());
    ids.message_id = None;
    assert_eq!(close_lobby_message(LobbyKind::Open, &ids, "Reset", &wording()), Ok(None));
    assert_eq!(unpin_lobby_message(None, Some(3), 9), Ok(Some((9, 3))));
    assert_eq!(unpin_lobby_message(Some(7), Some(3), 9), Ok(Some((7, 3))));
    assert_eq!(unpin_lobby_message(Some(7), None, 9), Ok(None));
    assert!(unpin_lobby_message(Some(-7), Some(3), 9).is_err());
    assert_eq!(
        thread_message("x".to_owned(), AllowedMentions::Default).allowed_mentions,
        DiscordAllowedMentions::Users(BTreeSet::new())
    );
    assert_eq!(
        thread_message("x".to_owned(), AllowedMentions::Nobody).allowed_mentions,
        DiscordAllowedMentions::Nobody
    );
    let answer = private_answer("x".to_owned(), AllowedMentions::Nobody);
    assert!(answer.ephemeral);
    assert_eq!(answer.allowed_mentions, InteractionAllowedMentions::Nobody);
}

#[test]
fn players_are_grouped_by_how_ready_they_look() {
    let activities = vec!["Spotify".to_owned(), "DOTA 2".to_owned()];
    assert!(playing_dota(&activities));
    assert!(!playing_dota(&vec!["dot a".to_owned()]));
    assert!(contains_word("underdotage", "dota"));
    assert!(!contains_word("dot", "dota"));
    let mut member = GuildMember {
        display_name: "Second".to_owned(),
        activities,
        in_voice: false,
        presence: DiscordPresence::Idle,
    };
    assert_eq!(readiness(true, &member), ReadinessGroup::Recent);
    assert_eq!(readiness(false, &member), ReadinessGroup::PlayingDota);
    member.activities.clear();
    assert_eq!(readiness(false, &member), ReadinessGroup::Afk);
    member.in_voice = true;
    assert_eq!(readiness(false, &member), ReadinessGroup::Ready);
    let looks = |presence| member_group(false, false, false, presence);
    assert_eq!(looks(DiscordPresence::Online), ReadinessGroup::Ready);
    assert_eq!(looks(DiscordPresence::DoNotDisturb), ReadinessGroup::Ready);
    assert_eq!(looks(DiscordPresence::Offline), ReadinessGroup::Afk);
    assert_eq!(absent_group(true), ReadinessGroup::Recent);
    assert_eq!(absent_group(false), ReadinessGroup::Afk);
}

fn data(name: &str, group: ReadinessGroup) -> ReadycheckPlayerData {
    ReadycheckPlayerData { name: name.to_owned(), group }
}

fn board() -> ReadycheckBoard {
    ReadycheckBoard {
        kind: LobbyKind::Open,
        players: BTreeMap::from([
            (1, data("One", ReadinessGroup::Ready)),
            (2, data("Two", ReadinessGroup::PlayingDota)),
            (3, data("Three", ReadinessGroup::Recent)),
            (4, data("Four", ReadinessGroup::Afk)),
            (5, data("Five", ReadinessGroup::Afk)),
        ]),
        reacted: BTreeMap::from([(5, "<@5>".to_owned())]),
    }
}

#[test]
fn ready_checks_are_painted() {
    let embed = readycheck_embed(&board(), "five of ten".to_owned(), &wording());
    assert_eq!(embed.title.as_deref(), Some("🍽️ All You Can Feed Ready Check"));
    assert_eq!(embed.description.as_deref(), Some("five of ten"));
    assert_eq!(embed.color, Some(READYCHECK_COLOR));
    assert_eq!(READYCHECK_COLOR, 0x3498db);
    assert_eq!(embed.footer.as_deref(), Some("React with ✅ to confirm you are ready"));
    let fields: Vec<(&str, &str)> = embed
        .fields
        .iter()
        .map(|field| (field.name.as_str(), field.value.as_str()))
        .collect();
    assert_eq!(
        fields,
        vec![
            ("✅ Likely Active (3)", "One 🟢\nTwo 🎮\nThree 🆕"),
            ("⚠️ Possibly AFK (1)", "<@4> 🔴"),
            ("✅ Reacted to Ready Check (1)", "<@5>"),
        ]
    );
    let empty = ReadycheckBoard {
        kind: LobbyKind::Open,
        players: BTreeMap::new(),
        reacted: BTreeMap::new(),
    };
    assert!(readycheck_embed(&empty, String::new(), &wording()).fields.is_empty());
    let message = board_message(
        &board(),
        "five of ten".to_owned(),
        DiscordMessageContentMode::Preserve,
        &wording(),
    );
    assert_eq!(message.response.embed, Some(embed));
    assert_eq!(message.content_mode, DiscordMessageContentMode::Preserve);
}

#[test]
fn refused_ready_checks_are_put_into_words() {
    let words = readycheck_failure_message;
    assert_eq!(
        words(ReadycheckCommandFailure::NoGuild),
        "❌ Ready checks can only run in a server."
    );
    assert_eq!(
        words(ReadycheckCommandFailure::NoLobby),
        "❌ Ready check failed — make sure a lobby exists, then try again."
    );
    assert_eq!(
        words(ReadycheckCommandFailure::NotMember),
        "❌ Join that lobby before running a ready check."
    );
    assert_eq!(
        words(ReadycheckCommandFailure::NoThread),
        "❌ Lobby thread not found. Use `/lobby` to repair or recreate the lobby."
    );
    assert_eq!(
        words(ReadycheckCommandFailure::Cooldown),
        "⏳ A ready check was just sent. Please wait before trying again."
    );
    assert_eq!(
        words(ReadycheckCommandFailure::PublicationInFlight),
        "⏳ A ready check is already being published. Please try again in a moment."
    );
}

#[test]
fn ready_checks_have_an_address() {
    assert_eq!(
        discord_jump_url(42, 700, 1_000),
        Ok("https://discord.com/channels/42/700/1000".to_owned())
    );
    assert_eq!(
        discord_jump_url(42, -700, 1_000),
        Err("invalid persisted Discord snowflake -700".to_owned())
    );
}

#[test]
fn players_are_called_to_ready_checks() {
    let wanted = BTreeSet::from([-1, 10, 20, 30]);
    let mentionable = BTreeSet::from([-1, 20, 30, 40]);
    let url = Some("https://x");
    let ping = readycheck_ping(LobbyKind::Open, &wanted, &mentionable, url, &wording());
    let ping = ping.expect("somebody is called");
    assert_eq!(
        ping.response.content,
        "⚔️ **🍽️ All You Can Feed ready check!** <@20> <@30>\n[React in the lobby thread](https://x)"
    );
    assert_eq!(ping.allowed_mentions, DiscordAllowedMentions::Users(BTreeSet::from([20, 30])));
    let alone = readycheck_ping(LobbyKind::Open, &wanted, &BTreeSet::from([-1]), None, &wording());
    assert_eq!(alone, None);
}

#[test]
fn ready_checks_are_answered() {
    let mut result = ReadycheckRunResult {
        jump_url: "https://x".to_owned(),
        is_refresh: false,
        pruned_count: 2,
        mention_ids: BTreeSet::from([20, 30]),
        readycheck_channel_id: 21_000,
    };
    let called = answer_readycheck(LobbyKind::Open, 9, &result, &wording());
    assert_eq!(
        called.content,
        "⚔️ **🍽️ All You Can Feed ready check!** <@20> <@30>\n[React in the lobby thread](https://x)"
    );
    assert!(!called.ephemeral);
    assert_eq!(called.allowed_mentions, InteractionAllowedMentions::Users(vec![20, 30]));
    let posted = answer_readycheck(LobbyKind::Open, 21_000, &result, &wording());
    assert_eq!(
        posted.content,
        "✅ 🍽️ All You Can Feed ready check posted! [View](https://x) Removed 2 away player(s); they can rejoin with `/join`."
    );
    assert!(posted.ephemeral);
    result.is_refresh = true;
    result.pruned_count = 0;
    result.mention_ids.clear();
    let refreshed = answer_readycheck(LobbyKind::Open, 9, &result, &wording());
    assert_eq!(
        refreshed.content,
        "✅ 🍽️ All You Can Feed ready check refreshed! [View](https://x)"
    );
}

#[test]
fn ready_checks_follow_the_roster() {
    let players = board().players;
    assert_eq!(self_confirmed(&players, &BTreeSet::new()), vec![3]);
    assert_eq!(self_confirmed(&players, &BTreeSet::from([3])), Vec::<i64>::new());
    let previous = ReadycheckGeneration {
        channel_id: 1,
        message_id: 2,
        lobby_ids: BTreeSet::from([1, 9]),
        player_data: BTreeMap::new(),
        reacted: BTreeMap::from([(1, "<@1>".to_owned()), (9, "<@9>".to_owned())]),
        declined: BTreeSet::new(),
    };
    assert_eq!(withdrawn_reactions(&previous, &players), vec![9, 2, 4, 5]);
    let marks = initial_reacted(&players, 1, true);
    assert_eq!(marks, BTreeMap::from([(1, "<@1>".to_owned()), (3, "<@3>".to_owned())]));
    assert_eq!(initial_reacted(&players, 1, false).len(), 1);
    let held = reserved_players(
        &vec![1, 2, 3],
        &vec![Some(LobbyKind::Open), None, Some(LobbyKind::LowSkill)],
        LobbyKind::Open,
    );
    assert_eq!(held, BTreeSet::from([1]));
}

#[test]
fn fillings_are_counted() {
    let count = |requested, current| decide_count(requested, current, &config());
    assert_eq!(count(Some(4), 10), FakeCount::Add(4));
    assert_eq!(count(Some(5), 10), FakeCount::TooMany(5));
    assert_eq!(count(Some(usize::MAX), 1), FakeCount::TooMany(usize::MAX));
    assert_eq!(count(None, 3), FakeCount::Add(7));
    assert_eq!(count(None, 0), FakeCount::Add(10));
    assert_eq!(count(None, 10), FakeCount::Enough);
    let mut wide = config();
    wide.ready_threshold = 30;
    assert_eq!(decide_count(None, 0, &wide), FakeCount::Add(10));
    assert_eq!(
        too_many(5, 10, 14),
        "Adding 5 users would exceed 14 players. Currently 10/14."
    );
}

#[test]
fn made_up_players_are_numbered_on() {
    assert_eq!(next_index(&BTreeSet::new()), 1);
    assert_eq!(next_index(&BTreeSet::from([10, -2, -7])), 8);
    assert_eq!(next_index(&BTreeSet::from([i64::MIN, -3])), 4);
    assert_eq!(next_index(&BTreeSet::from([-i64::MAX])), i64::MAX);
    assert_eq!(name_fake(12), "FakeUser12");
    let offsets: Vec<u64> = (0..11).map(backdate_offset).collect();
    assert_eq!(
        offsets,
        vec![60, 300, 900, 1_800, 3_600, 7_200, 14_400, 28_800, 43_200, 86_400, 60]
    );
}

#[test]
fn made_up_players_are_drawn() {
    let player = assemble_player(-4, 4, 42, &vec![3, 1, 5, 2, 4], 2, 1_234);
    assert_eq!(player.discord_id, -4);
    assert_eq!(player.name, "FakeUser4");
    assert_eq!(player.guild_id, 42);
    assert_eq!(player.rating, 1_234);
    assert_eq!(player.preferred_roles, ["3", "1"]);
    let mut firsts = BTreeSet::new();
    let mut counts = BTreeSet::new();
    let mut ratings = BTreeSet::new();
    for _ in 0..300 {
        let player = make_up(-4, 4, 42);
        assert!((1_000..=2_000).contains(&player.rating));
        let roles: BTreeSet<String> = player.preferred_roles.iter().cloned().collect();
        assert_eq!(roles.len(), player.preferred_roles.len());
        assert!(roles.iter().all(|role| ["1", "2", "3", "4", "5"].contains(&role.as_str())));
        firsts.insert(player.preferred_roles[0].clone());
        counts.insert(player.preferred_roles.len());
        ratings.insert(player.rating);
    }
    assert_eq!(firsts.len(), 5, "the order of the roles is drawn");
    assert_eq!(counts, BTreeSet::from([1, 2, 3, 4, 5]));
    assert!(ratings.len() > 50, "the ratings are drawn");
}

#[test]
fn small_numbers_are_read() {
    assert_eq!(parse_small("5"), Some(5));
    assert_eq!(parse_small("+5"), Some(5));
    assert_eq!(parse_small("005"), Some(5));
    assert_eq!(parse_small("255"), Some(255));
    assert_eq!(parse_small("256"), None);
    assert_eq!(parse_small(""), None);
    assert_eq!(parse_small("+"), None);
    assert_eq!(parse_small("-1"), None);
    assert_eq!(parse_small(" 1"), None);
}

fn row() -> PlayerRow {
    PlayerRow {
        discord_id: Some(10),
        name: "Creator".to_owned(),
        glicko_rating: Some(Rating { bits: 3 }),
        mmr: Some(4_000),
        preferred_roles: Some(vec!["1".to_owned(), "mid".to_owned(), "5".to_owned()]),
        guild_id: Some(42),
        preferred_region: None,
        inferred_region: Some("EU".to_owned()),
    }
}

#[test]
fn stored_players_are_shown_in_lobbies() {
    let player = lobby_player(&row()).expect("a player with an id");
    assert_eq!(player.discord_id, 10);
    assert_eq!(player.mmr, Some(4_000));
    assert_eq!(player.preferred_roles, vec![1, 5]);
    assert_eq!(player.inferred_region.as_deref(), Some("EU"));
    let mut strong = row();
    strong.mmr = Some(i64::from(i32::MAX) + 1);
    strong.preferred_roles = None;
    let strong = lobby_player(&strong).expect("a player with an id");
    assert_eq!(strong.mmr, None);
    assert!(strong.preferred_roles.is_empty());
    let mut nobody = row();
    nobody.discord_id = None;
    assert_eq!(lobby_player(&nobody), None);
    assert_eq!(lobby_players(&Ok(vec![nobody, row()])), vec![player]);
    assert_eq!(lobby_players(&Err("locked".to_owned())), Vec::new());
}

#[test]
fn players_who_are_unknown_get_a_name() {
    let player = Player { name: "Second".to_owned(), preferred_roles: Some(Vec::new()) };
    assert!(!player.has_roles());
    assert_eq!(fallback_name(Ok(Some(player)), 20), "Second");
    assert_eq!(fallback_name(Ok(None), 20), "User 20");
    assert_eq!(fallback_name(Err("locked".to_owned()), -1), "User -1");
}

#[test]
fn pending_matches_belong_to_their_lobby() {
    let rows = vec![
        PendingRow {
            lobby_kind: Some("lowskill".to_owned()),
            shuffle_message_jump_url: Some("https://x".to_owned()),
        },
        PendingRow { lobby_kind: Some("other".to_owned()), shuffle_message_jump_url: None },
        PendingRow { lobby_kind: None, shuffle_message_jump_url: None },
    ];
    assert_eq!(
        scoped_matches(&rows),
        vec![
            ScopedPendingMatch {
                lobby_kind: Some(LobbyKind::LowSkill),
                shuffle_message_jump_url: Some("https://x".to_owned()),
            },
            ScopedPendingMatch { lobby_kind: None, shuffle_message_jump_url: None },
            ScopedPendingMatch { lobby_kind: None, shuffle_message_jump_url: None },
        ]
    );
    let funded = FirstGamePoolPreviews { open: 5, low_skill: 6 };
    assert_eq!(previews_or_nothing(Ok(funded)), funded);
    let nothing = FirstGamePoolPreviews { open: 0, low_skill: 0 };
    assert_eq!(previews_or_nothing(Err("locked".to_owned())), nothing);
    let zone = Some("Europe/Berlin".to_owned());
    assert_eq!(zone_or_none(Ok(zone.clone())), zone);
    assert_eq!(zone_or_none(Ok(None)), None);
    assert_eq!(zone_or_none(Err("locked".to_owned())), None);
}

#[test]
fn failed_work_is_told() {
    let failure =
        |cut_short| WorkFailure { cut_short, report: "panicked".to_owned() };
    assert_eq!(failure(true).tell("task failed: "), "task failed: panicked");
    assert_eq!(failure(false).tell("task failed: "), "panicked");
}
