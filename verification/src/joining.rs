//! Joining a lobby: who is let in, who is refused, and what each is told.
use vstd::prelude::*;
use std::collections::BTreeSet;
use crate::ids::to_unsigned;
use crate::ids::to_unsigned_option;
use crate::kinds::LobbyKind;
use crate::kinds::LobbyScope;
use crate::kinds::Wording;
use crate::lobby::LobbySnapshot;
use crate::moderation::LobbySuspension;
use crate::moderation::private_suspension_message;
use crate::sets::snowflake_set;
use crate::text::decimal_i64;
use crate::text::text2;
use crate::text::text3;

verus! {

/// A player as the database knows them.
#[derive(Clone, Debug, PartialEq, Eq)]
pub struct Player {
    pub name: String,
    pub preferred_roles: Option<Vec<String>>,
}

impl Player {
    /// The player has chosen at least one role.
    pub open spec fn chose_roles(&self) -> bool {
        self.preferred_roles matches Some(roles) && roles@.len() > 0
    }

    /// Whether the player has chosen at least one role.
    pub fn has_roles(&self) -> (r: bool)
        ensures
            r == self.chose_roles(),
    {
        match &self.preferred_roles {
            Some(roles) => roles.len() > 0,
            None => false,
        }
    }
}

/// A match that is still to be recorded.
#[derive(Clone, Debug, PartialEq, Eq)]
pub struct PendingMatchState {
    pub pending_match_id: i64,
    pub shuffle_message_jump_url: Option<String>,
}

/// Why a lobby did not take a player in.
#[derive(Clone, Copy, Debug, PartialEq, Eq, Structural)]
pub enum JoinFailure {
    InPendingMatch,
    LobbyFull,
    RatingTooHigh,
    InFlight,
    Suspended,
    Persistence,
    PendingMatchGuard,
    ModerationGuard,
    Other,
}

/// What a refusal comes with.
#[derive(Clone, Debug, PartialEq, Eq)]
pub enum JoinContext {
    PendingMatch(PendingMatchState),
    Suspension(LobbySuspension),
}

/// How an attempt to join ended: with the moment of the join, or with a failure.
#[derive(Clone, Debug, PartialEq, Eq)]
pub struct JoinOutcome {
    pub joined_at_ns: Option<i64>,
    pub failure: Option<JoinFailure>,
    pub context: Option<JoinContext>,
}

/// Why a player is not in the lobby after all.
#[derive(Clone, Debug, PartialEq, Eq)]
pub enum JoinRejection {
    PendingMatch(PendingMatchState),
    LobbyFull,
    AlreadyJoined,
    RatingTooHigh,
    InFlight,
    Suspended(LobbySuspension),
    Curfew(String),
    Storage,
}

/// How a join is presented to the player: the moment of the join, or a warning with its cause.
#[derive(Clone, Debug, PartialEq, Eq)]
pub struct JoinPresentation {
    pub warning: Option<String>,
    pub rejection: Option<JoinRejection>,
    pub joined_at_ns: Option<i64>,
}

/// What is said of the match that a player has to record first.
pub open spec fn record_first(jump_url: Option<String>) -> Seq<char> {
    match jump_url {
        Some(url) => " [View your match]("@ + url@
            + ") and use `/record` to complete it first."@,
        None => " Use `/record` to complete it first."@,
    }
}

fn record_first_text(jump_url: &Option<String>) -> (r: String)
    ensures
        r@ == record_first(*jump_url),
{
    match jump_url {
        Some(url) => text3(
            " [View your match](",
            url.as_str(),
            ") and use `/record` to complete it first.",
        ),
        None => " Use `/record` to complete it first.".to_owned(),
    }
}

/// The cause that a refused attempt to join is put down to.
pub open spec fn rejection_for(
    failure: Option<JoinFailure>,
    context: Option<JoinContext>,
) -> JoinRejection {
    match (failure, context) {
        (
            Some(JoinFailure::InPendingMatch),
            Some(JoinContext::PendingMatch(pending)),
        ) => JoinRejection::PendingMatch(pending),
        (Some(JoinFailure::LobbyFull), _) => JoinRejection::LobbyFull,
        (Some(JoinFailure::RatingTooHigh), _) => JoinRejection::RatingTooHigh,
        (Some(JoinFailure::InFlight), _) => JoinRejection::InFlight,
        (
            Some(JoinFailure::Suspended),
            Some(JoinContext::Suspension(suspension)),
        ) => JoinRejection::Suspended(suspension),
        (Some(JoinFailure::Persistence), _) => JoinRejection::Storage,
        (Some(JoinFailure::PendingMatchGuard), _) => JoinRejection::Storage,
        (Some(JoinFailure::ModerationGuard), _) => JoinRejection::Storage,
        _ => JoinRejection::AlreadyJoined,
    }
}

/// What a refused player is told in private.
pub open spec fn rejection_warning(
    kind: LobbyKind,
    rejection: JoinRejection,
    wording: Wording,
) -> Seq<char> {
    match rejection {
        JoinRejection::PendingMatch(pending) => "❌ You're already in a pending match (Match #"@
            + crate::text::signed_decimal(pending.pending_match_id as int) + ")!"@ + record_first(
            pending.shuffle_message_jump_url,
        ),
        JoinRejection::LobbyFull => "❌ "@ + wording.label_of(kind) + " is full."@,
        JoinRejection::RatingTooHigh
            => "❌ Whine & Cheese is limited to players below 1400 Glicko."@,
        JoinRejection::InFlight
            => "❌ You can’t switch lobbies while your current shuffle or draft is in progress."@,
        JoinRejection::Suspended(suspension) => "❌ "@ + crate::moderation::suspension_notice(
            suspension,
            wording,
        ),
        JoinRejection::Curfew(window) => curfew_warning(window@),
        JoinRejection::Storage
            => "❌ Could not verify or persist lobby membership. Please try again."@,
        JoinRejection::AlreadyJoined => "❌ Already in "@ + wording.label_of(kind)
            + ", or that lobby is closed."@,
    }
}

/// What a player inside a curfew window is told.
pub open spec fn curfew_warning(window: Seq<char>) -> Seq<char> {
    "❌ You're inside your "@ + window
        + " curfew window. Use `/player curfew remove` if you'd rather queue through it."@
}

fn rejection_cause(failure: Option<JoinFailure>, context: Option<JoinContext>) -> (r: JoinRejection)
    ensures
        r == rejection_for(failure, context),
{
    match (failure, context) {
        (
            Some(JoinFailure::InPendingMatch),
            Some(JoinContext::PendingMatch(pending)),
        ) => JoinRejection::PendingMatch(pending),
        (Some(JoinFailure::LobbyFull), _) => JoinRejection::LobbyFull,
        (Some(JoinFailure::RatingTooHigh), _) => JoinRejection::RatingTooHigh,
        (Some(JoinFailure::InFlight), _) => JoinRejection::InFlight,
        (
            Some(JoinFailure::Suspended),
            Some(JoinContext::Suspension(suspension)),
        ) => JoinRejection::Suspended(suspension),
        (Some(JoinFailure::Persistence), _) => JoinRejection::Storage,
        (Some(JoinFailure::PendingMatchGuard), _) => JoinRejection::Storage,
        (Some(JoinFailure::ModerationGuard), _) => JoinRejection::Storage,
        _ => JoinRejection::AlreadyJoined,
    }
}

fn rejection_text(kind: LobbyKind, rejection: &JoinRejection, wording: &Wording) -> (r: String)
    ensures
        r@ == rejection_warning(kind, *rejection, *wording),
{
    match rejection {
        JoinRejection::PendingMatch(pending) => {
            let mut text = "❌ You're already in a pending match (Match #".to_owned();
            text.append(decimal_i64(pending.pending_match_id).as_str());
            text.append(")!");
            text.append(record_first_text(&pending.shuffle_message_jump_url).as_str());
            text
        },
        JoinRejection::LobbyFull => text3("❌ ", wording.label(kind), " is full."),
        JoinRejection::RatingTooHigh =>
            "❌ Whine & Cheese is limited to players below 1400 Glicko.".to_owned(),
        JoinRejection::InFlight =>
            "❌ You can’t switch lobbies while your current shuffle or draft is in progress.".to_owned(),
        JoinRejection::Suspended(suspension) => text2(
            "❌ ",
            private_suspension_message(suspension, wording).as_str(),
        ),
        JoinRejection::Curfew(window) => text3(
            "❌ You're inside your ",
            window.as_str(),
            " curfew window. Use `/player curfew remove` if you'd rather queue through it.",
        ),
        JoinRejection::Storage =>
            "❌ Could not verify or persist lobby membership. Please try again.".to_owned(),
        JoinRejection::AlreadyJoined => text3(
            "❌ Already in ",
            wording.label(kind),
            ", or that lobby is closed.",
        ),
    }
}

/// The presentation of a join that took place at this moment.
pub open spec fn presents_join(p: JoinPresentation, joined_at_ns: i64) -> bool {
    p.warning is None && p.rejection is None && p.joined_at_ns == Some(joined_at_ns)
}

/// The presentation of a refusal with this cause.
pub open spec fn presents_rejection(
    p: JoinPresentation,
    kind: LobbyKind,
    rejection: JoinRejection,
    wording: Wording,
) -> bool {
    &&& p.joined_at_ns is None
    &&& p.rejection == Some(rejection)
    &&& p.warning matches Some(warning) && warning@ == rejection_warning(kind, rejection, wording)
}

/// The presentation of a join that was not even tried.
pub open spec fn presents_warning(p: JoinPresentation, warning: Seq<char>) -> bool {
    &&& p.joined_at_ns is None
    &&& p.rejection is None
    &&& p.warning matches Some(text) && text@ == warning
}

/// The outcome of an attempt to join, as it is presented.
pub open spec fn presents_outcome(
    p: JoinPresentation,
    kind: LobbyKind,
    outcome: JoinOutcome,
    wording: Wording,
) -> bool {
    match outcome.joined_at_ns {
        Some(joined_at_ns) => presents_join(p, joined_at_ns),
        None => presents_rejection(
            p,
            kind,
            rejection_for(outcome.failure, outcome.context),
            wording,
        ),
    }
}

/// Presents a refusal.
pub fn present_rejection(kind: LobbyKind, rejection: JoinRejection, wording: &Wording) -> (r:
    JoinPresentation)
    ensures
        presents_rejection(r, kind, rejection, *wording),
{
    let warning = rejection_text(kind, &rejection, wording);
    JoinPresentation { warning: Some(warning), rejection: Some(rejection), joined_at_ns: None }
}

/// Presents a join that was not even tried.
pub fn present_warning(warning: String) -> (r: JoinPresentation)
    ensures
        presents_warning(r, warning@),
{
    JoinPresentation { warning: Some(warning), rejection: None, joined_at_ns: None }
}

/// Presents the outcome of an attempt to join.
pub fn present_outcome(kind: LobbyKind, outcome: JoinOutcome, wording: &Wording) -> (r:
    JoinPresentation)
    ensures
        presents_outcome(r, kind, outcome, *wording),
{
    match outcome.joined_at_ns {
        Some(joined_at_ns) => JoinPresentation {
            warning: None,
            rejection: None,
            joined_at_ns: Some(joined_at_ns),
        },
        None => present_rejection(
            kind,
            rejection_cause(outcome.failure, outcome.context),
            wording,
        ),
    }
}

/// What `/lobby` adds to its answer when the invoker could not be taken in.
pub open spec fn auto_join_warning(kind: LobbyKind, p: JoinPresentation, wording: Wording) -> Option<
    Seq<char>,
> {
    match p.rejection {
        Some(JoinRejection::RatingTooHigh) => Some(
            "ℹ️ You can view "@ + wording.label_of(kind)
                + ", but only players below 1400 Glicko can join."@,
        ),
        Some(JoinRejection::InFlight) => Some(
            "ℹ️ You can’t switch lobbies while your current shuffle or draft is in progress."@,
        ),
        Some(JoinRejection::Suspended(_)) => crate::commands::optional_string(p.warning),
        Some(JoinRejection::Curfew(_)) => crate::commands::optional_string(p.warning),
        None => crate::commands::optional_string(p.warning),
        _ => None,
    }
}

fn copy_text(text: &Option<String>) -> (r: Option<String>)
    ensures
        r == *text,
{
    match text {
        Some(text) => Some(text.clone()),
        None => None,
    }
}

/// What `/lobby` adds to its answer when the invoker could not be taken in.
pub fn lobby_command_auto_join_warning(
    kind: LobbyKind,
    presentation: &JoinPresentation,
    wording: &Wording,
) -> (r: Option<String>)
    ensures
        crate::commands::optional_string(r) == auto_join_warning(kind, *presentation, *wording),
{
    match &presentation.rejection {
        Some(JoinRejection::RatingTooHigh) => Some(
            text3(
                "ℹ️ You can view ",
                wording.label(kind),
                ", but only players below 1400 Glicko can join.",
            ),
        ),
        Some(JoinRejection::InFlight) => Some(
            "ℹ️ You can’t switch lobbies while your current shuffle or draft is in progress.".to_owned(),
        ),
        Some(JoinRejection::Suspended(_)) => copy_text(&presentation.warning),
        Some(JoinRejection::Curfew(_)) => copy_text(&presentation.warning),
        None => copy_text(&presentation.warning),
        _ => None,
    }
}

/// What is said in public of a refused reaction.
pub open spec fn public_rejection(rejection: JoinRejection, wording: Wording) -> Seq<char> {
    match rejection {
        JoinRejection::PendingMatch(pending) => "You're in a pending match (Match #"@
            + crate::text::signed_decimal(pending.pending_match_id as int) + ")!"@ + record_first(
            pending.shuffle_message_jump_url,
        ),
        JoinRejection::LobbyFull => "Lobby is full."@,
        JoinRejection::AlreadyJoined => "Already in lobby."@,
        JoinRejection::RatingTooHigh => wording.label_of(LobbyKind::LowSkill)
            + " is limited to glicko below 1400."@,
        JoinRejection::InFlight
            => "You can't switch lobbies while your current shuffle or draft is in progress."@,
        JoinRejection::Suspended(_)
            => "You are temporarily restricted from this matchmaking lobby."@,
        JoinRejection::Curfew(window) => "You're inside your "@ + window@
            + " curfew window. Use `/player curfew remove` if you'd rather queue through it."@,
        JoinRejection::Storage => "Could not join lobby."@,
    }
}

/// What is said in public of a refused reaction.
pub fn raw_rejection_message(rejection: &JoinRejection, wording: &Wording) -> (r: String)
    ensures
        r@ == public_rejection(*rejection, *wording),
{
    match rejection {
        JoinRejection::PendingMatch(pending) => {
            let mut text = "You're in a pending match (Match #".to_owned();
            text.append(decimal_i64(pending.pending_match_id).as_str());
            text.append(")!");
            text.append(record_first_text(&pending.shuffle_message_jump_url).as_str());
            text
        },
        JoinRejection::LobbyFull => "Lobby is full.".to_owned(),
        JoinRejection::AlreadyJoined => "Already in lobby.".to_owned(),
        JoinRejection::RatingTooHigh => text2(
            wording.label(LobbyKind::LowSkill),
            " is limited to glicko below 1400.",
        ),
        JoinRejection::InFlight =>
            "You can't switch lobbies while your current shuffle or draft is in progress.".to_owned(),
        JoinRejection::Suspended(_) =>
            "You are temporarily restricted from this matchmaking lobby.".to_owned(),
        JoinRejection::Curfew(window) => text3(
            "You're inside your ",
            window.as_str(),
            " curfew window. Use `/player curfew remove` if you'd rather queue through it.",
        ),
        JoinRejection::Storage => "Could not join lobby.".to_owned(),
    }
}

/// A join that is durable and published, as observers are told of it.
#[derive(Clone, Debug, PartialEq, Eq)]
pub struct ConfirmedLobbyJoin {
    pub guild_id: u64,
    pub player_id: u64,
    pub player_name: String,
    pub player_display_name: String,
    pub lobby_kind: LobbyKind,
    pub joined_at_ns: i64,
    pub player_ids: BTreeSet<u64>,
    pub ready_threshold: usize,
    pub lobby_channel_id: Option<u64>,
    pub lobby_message_id: Option<u64>,
    pub origin_channel_id: Option<u64>,
    pub thread_id: Option<u64>,
}

/// A bystander who asked to be told of the bets, as observers are told of them.
#[derive(Clone, Debug, PartialEq, Eq)]
pub struct LobbyGambaSpectator {
    pub guild_id: u64,
    pub player_id: u64,
    pub player_display_name: String,
    pub channel_id: u64,
}

/// A player who has just joined.
#[derive(Clone, Debug, PartialEq, Eq)]
pub struct Joiner {
    pub player_id: i64,
    pub name: String,
    pub display_name: String,
    pub joined_at_ns: i64,
}

/// `event` tells of the join of `joiner` to `lobby`.
pub open spec fn tells_of_join(
    event: ConfirmedLobbyJoin,
    scope: LobbyScope,
    joiner: Joiner,
    lobby: LobbySnapshot,
    ready_threshold: usize,
) -> bool {
    &&& event.guild_id == scope.guild_id
    &&& event.player_id == joiner.player_id
    &&& event.player_name == joiner.name
    &&& event.player_display_name == joiner.display_name
    &&& event.lobby_kind == scope.kind
    &&& event.joined_at_ns == joiner.joined_at_ns
    &&& crate::sets::holds_ids(event.player_ids@, lobby.players@)
    &&& event.ready_threshold == ready_threshold
    &&& event.lobby_channel_id == crate::ids::unsigned_option(lobby.message_ids.channel_id)
    &&& event.lobby_message_id == crate::ids::unsigned_option(lobby.message_ids.message_id)
    &&& event.origin_channel_id == crate::ids::unsigned_option(lobby.message_ids.origin_channel_id)
    &&& event.thread_id == crate::ids::unsigned_option(lobby.message_ids.thread_id)
}

/// What observers are told of a join; nothing, if the guild or the player has no Discord id.
pub fn confirmed_join(
    scope: LobbyScope,
    joiner: &Joiner,
    lobby: &LobbySnapshot,
    ready_threshold: usize,
) -> (r: Option<ConfirmedLobbyJoin>)
    ensures
        r is Some <==> scope.guild_id >= 0 && joiner.player_id >= 0,
        r matches Some(event) ==> tells_of_join(event, scope, *joiner, *lobby, ready_threshold),
{
    match (to_unsigned(scope.guild_id), to_unsigned(joiner.player_id)) {
        (Some(guild_id), Some(player_id)) => Some(
            ConfirmedLobbyJoin {
                guild_id,
                player_id,
                player_name: joiner.name.clone(),
                player_display_name: joiner.display_name.clone(),
                lobby_kind: scope.kind,
                joined_at_ns: joiner.joined_at_ns,
                player_ids: snowflake_set(&lobby.players),
                ready_threshold,
                lobby_channel_id: to_unsigned_option(lobby.message_ids.channel_id),
                lobby_message_id: to_unsigned_option(lobby.message_ids.message_id),
                origin_channel_id: to_unsigned_option(lobby.message_ids.origin_channel_id),
                thread_id: to_unsigned_option(lobby.message_ids.thread_id),
            },
        ),
        _ => None,
    }
}

/// Two events tell of the same join.
pub open spec fn same_join(a: ConfirmedLobbyJoin, b: ConfirmedLobbyJoin) -> bool {
    &&& a.guild_id == b.guild_id
    &&& a.player_id == b.player_id
    &&& a.player_name == b.player_name
    &&& a.player_display_name == b.player_display_name
    &&& a.lobby_kind == b.lobby_kind
    &&& a.joined_at_ns == b.joined_at_ns
    &&& a.player_ids@ == b.player_ids@
    &&& a.ready_threshold == b.ready_threshold
    &&& a.lobby_channel_id == b.lobby_channel_id
    &&& a.lobby_message_id == b.lobby_message_id
    &&& a.origin_channel_id == b.origin_channel_id
    &&& a.thread_id == b.thread_id
}

impl ConfirmedLobbyJoin {
    /// A copy of the event.
    pub fn duplicate(&self) -> (r: ConfirmedLobbyJoin)
        ensures
            same_join(r, *self),
    {
        ConfirmedLobbyJoin {
            guild_id: self.guild_id,
            player_id: self.player_id,
            player_name: self.player_name.clone(),
            player_display_name: self.player_display_name.clone(),
            lobby_kind: self.lobby_kind,
            joined_at_ns: self.joined_at_ns,
            player_ids: self.player_ids.clone(),
            ready_threshold: self.ready_threshold,
            lobby_channel_id: self.lobby_channel_id,
            lobby_message_id: self.lobby_message_id,
            origin_channel_id: self.origin_channel_id,
            thread_id: self.thread_id,
        }
    }
}

/// What is said in public of a suspended player does not depend on the suspension: neither its
/// terms nor its reason shows.
pub proof fn public_rejection_hides_the_suspension(
    one: LobbySuspension,
    other: LobbySuspension,
    wording: Wording,
)
    ensures
        public_rejection(JoinRejection::Suspended(one), wording) == public_rejection(
            JoinRejection::Suspended(other),
            wording,
        ),
{
}

/// A presentation never both confirms a join and gives a cause for refusing it, and a refused
/// player is always warned.
pub proof fn presentations_are_consistent(
    p: JoinPresentation,
    kind: LobbyKind,
    outcome: JoinOutcome,
    wording: Wording,
)
    requires
        presents_outcome(p, kind, outcome, wording),
    ensures
        p.joined_at_ns is Some <==> p.rejection is None,
        p.joined_at_ns is Some <==> p.warning is None,
        p.joined_at_ns == outcome.joined_at_ns,
{
}

/// A refusal keeps the reason it came with: the pending match and the suspension are those of the
/// outcome, and each failure is presented as itself; whatever the store could not do is presented as
/// that, and anything else as being in already.
pub proof fn refusals_keep_their_reason(
    failure: JoinFailure,
    context: Option<JoinContext>,
    pending: PendingMatchState,
    suspension: LobbySuspension,
)
    ensures
        rejection_for(
            Some(JoinFailure::InPendingMatch),
            Some(JoinContext::PendingMatch(pending)),
        ) == JoinRejection::PendingMatch(pending),
        rejection_for(
            Some(JoinFailure::Suspended),
            Some(JoinContext::Suspension(suspension)),
        ) == JoinRejection::Suspended(suspension),
        failure is LobbyFull <==> rejection_for(Some(failure), context) is LobbyFull,
        failure is RatingTooHigh <==> rejection_for(Some(failure), context) is RatingTooHigh,
        failure is InFlight <==> rejection_for(Some(failure), context) is InFlight,
        failure is Persistence || failure is PendingMatchGuard || failure is ModerationGuard
            <==> rejection_for(Some(failure), context) is Storage,
        rejection_for(Some(failure), context) is Suspended ==> failure is Suspended,
        rejection_for(Some(failure), context) is PendingMatch ==> failure is InPendingMatch,
        !(rejection_for(Some(failure), context) is Curfew),
        rejection_for(None, context) is AlreadyJoined,
{
}

/// What the refused user is told names what it is about: the lobby by its label, the pending match
/// by its number and its address, the suspension by its reason, the curfew by its window.
pub proof fn warnings_name_what_they_are_about(
    kind: LobbyKind,
    pending: PendingMatchState,
    suspension: LobbySuspension,
    window: String,
    wording: Wording,
)
    ensures
        crate::text::contains_text(
            rejection_warning(kind, JoinRejection::LobbyFull, wording),
            wording.label_of(kind),
        ),
        crate::text::contains_text(
            rejection_warning(kind, JoinRejection::AlreadyJoined, wording),
            wording.label_of(kind),
        ),
        crate::text::contains_text(
            rejection_warning(kind, JoinRejection::Suspended(suspension), wording),
            suspension.reason@,
        ),
        crate::text::contains_text(
            rejection_warning(kind, JoinRejection::Curfew(window), wording),
            window@,
        ),
        crate::text::contains_text(
            rejection_warning(kind, JoinRejection::PendingMatch(pending), wording),
            crate::text::signed_decimal(pending.pending_match_id as int),
        ),
        pending.shuffle_message_jump_url matches Some(url) ==> crate::text::contains_text(
            rejection_warning(kind, JoinRejection::PendingMatch(pending), wording),
            url@,
        ),
        crate::text::contains_text(
            public_rejection(JoinRejection::PendingMatch(pending), wording),
            crate::text::signed_decimal(pending.pending_match_id as int),
        ),
        pending.shuffle_message_jump_url matches Some(url) ==> crate::text::contains_text(
            public_rejection(JoinRejection::PendingMatch(pending), wording),
            url@,
        ),
        crate::text::contains_text(
            public_rejection(JoinRejection::Curfew(window), wording),
            window@,
        ),
        crate::text::contains_text(
            public_rejection(JoinRejection::RatingTooHigh, wording),
            wording.label_of(LobbyKind::LowSkill),
        ),
{
    let label = wording.label_of(kind);
    crate::text::middles_stand("❌ "@, label, " is full."@);
    crate::text::middles_stand("❌ Already in "@, label, ", or that lobby is closed."@);
    crate::moderation::notices_state_the_suspension(suspension, wording);
    crate::text::parts_stay(
        "❌ "@,
        crate::moderation::suspension_notice(suspension, wording),
        Seq::empty(),
        suspension.reason@,
    );
    crate::text::middles_stand(
        "❌ You're inside your "@,
        window@,
        " curfew window. Use `/player curfew remove` if you'd rather queue through it."@,
    );
    crate::text::middles_stand(
        "You're inside your "@,
        window@,
        " curfew window. Use `/player curfew remove` if you'd rather queue through it."@,
    );
    crate::text::middles_stand(
        Seq::empty(),
        wording.label_of(LobbyKind::LowSkill),
        " is limited to glicko below 1400."@,
    );
    let number = crate::text::signed_decimal(pending.pending_match_id as int);
    let tail = record_first(pending.shuffle_message_jump_url);
    numbers_and_addresses_stand(
        "❌ You're already in a pending match (Match #"@,
        number,
        pending.shuffle_message_jump_url,
    );
    numbers_and_addresses_stand(
        "You're in a pending match (Match #"@,
        number,
        pending.shuffle_message_jump_url,
    );
}

proof fn numbers_and_addresses_stand(head: Seq<char>, number: Seq<char>, jump_url: Option<String>)
    ensures
        crate::text::contains_text(head + number + ")!"@ + record_first(jump_url), number),
        jump_url matches Some(url) ==> crate::text::contains_text(
            head + number + ")!"@ + record_first(jump_url),
            url@,
        ),
{
    let tail = record_first(jump_url);
    crate::text::middles_stand(head, number, ")!"@ + tail);
    assert(head + number + ")!"@ + tail =~= head + number + (")!"@ + tail));
    if let Some(url) = jump_url {
        crate::text::middles_stand(
            " [View your match]("@,
            url@,
            ") and use `/record` to complete it first."@,
        );
        crate::text::parts_stay(head + number + ")!"@, tail, Seq::empty(), url@);
    }
}

/// Who is let in by the way hears of a refusal only where it matters to them: a suspension, a curfew
/// or a plain warning is passed on as it is, the limit of a lobby is told with its label, and being
/// in already, or a full lobby, is not worth a word.
pub proof fn side_joins_warn_where_it_matters(
    kind: LobbyKind,
    p: JoinPresentation,
    warning: String,
    wording: Wording,
)
    requires
        p.warning == Some(warning),
    ensures
        p.rejection is None || p.rejection->0 is Suspended || p.rejection->0 is Curfew
            ==> auto_join_warning(kind, p, wording) == Some(warning@),
        p.rejection == Some(JoinRejection::RatingTooHigh) ==> (
        auto_join_warning(kind, p, wording) matches Some(text) && crate::text::contains_text(
            text,
            wording.label_of(kind),
        )),
        p.rejection == Some(JoinRejection::InFlight) ==> auto_join_warning(kind, p, wording) is Some,
        p.rejection matches Some(rejection) && (rejection is LobbyFull || rejection is AlreadyJoined
            || rejection is PendingMatch || rejection is Storage) ==> auto_join_warning(
            kind,
            p,
            wording,
        ) is None,
{
    crate::text::middles_stand(
        "ℹ️ You can view "@,
        wording.label_of(kind),
        ", but only players below 1400 Glicko can join."@,
    );
}

/// A copy of a join says the same of it, in every respect.
pub proof fn copies_of_joins_say_the_same(
    event: ConfirmedLobbyJoin,
    copy: ConfirmedLobbyJoin,
    scope: LobbyScope,
    joiner: Joiner,
    lobby: LobbySnapshot,
    ready_threshold: usize,
)
    requires
        same_join(event, copy),
        tells_of_join(event, scope, joiner, lobby, ready_threshold),
    ensures
        tells_of_join(copy, scope, joiner, lobby, ready_threshold),
        copy.guild_id == scope.guild_id && copy.lobby_kind == scope.kind,
        copy.player_id == joiner.player_id && copy.joined_at_ns == joiner.joined_at_ns,
        copy.player_name == joiner.name && copy.player_display_name == joiner.display_name,
        copy.ready_threshold == ready_threshold,
        forall|id: u64| #[trigger]
            copy.player_ids@.contains(id) <==> id <= i64::MAX && lobby.players@.contains(id as i64),
{
}

} // verus!
