//! The settings the lobbies run under.
use vstd::prelude::*;
use std::collections::BTreeSet;
use crate::text::text2;

verus! {

/// The channels an operator may reserve for lobbies.
#[derive(Clone, Debug, PartialEq, Eq)]
pub struct ChannelSettings {
    pub lobby: Option<i64>,
    pub low_skill_lobby: Option<i64>,
}

/// The people an operator names.
#[derive(Clone, Debug, PartialEq, Eq)]
pub struct IdentitySettings {
    pub admin_user_ids: Vec<i64>,
}

/// The numbers an operator sets.
#[derive(Clone, Debug, PartialEq, Eq)]
pub struct ValueSettings {
    pub lobby_ready_threshold: i64,
    pub lobby_max_players: i64,
    pub first_game_pool_daily_amount: i64,
}

/// The application's settings, as far as lobbies read them.
#[derive(Clone, Debug, PartialEq, Eq)]
pub struct ApplicationConfig {
    pub channels: ChannelSettings,
    pub identities: IdentitySettings,
    pub values: ValueSettings,
}

/// Checked settings of the lobbies.
#[derive(Clone, Debug, PartialEq, Eq)]
pub struct LobbyRuntimeConfig {
    pub lobby_channel_id: Option<u64>,
    pub low_skill_lobby_channel_id: Option<u64>,
    pub admin_user_ids: BTreeSet<u64>,
    pub ready_threshold: usize,
    pub max_players: usize,
    pub first_game_pool_daily_amount: i64,
}

/// Why the lobbies could not be set up.
#[derive(Clone, Debug, PartialEq, Eq)]
pub enum LobbyProviderBuildError {
    /// A setting is not the positive number or the Discord id it has to be.
    InvalidConfig(&'static str),
    /// The stored lobbies could not be read.
    Persistence(String),
}

impl LobbyProviderBuildError {
    /// The sentence that reports the error.
    pub open spec fn text(&self) -> Seq<char> {
        match self {
            LobbyProviderBuildError::InvalidConfig(name) => {
                "invalid positive/snowflake value for "@ + name@
            },
            LobbyProviderBuildError::Persistence(error) => {
                "could not hydrate persisted lobby state: "@ + error@
            },
        }
    }

    /// The sentence that reports the error.
    pub fn message(&self) -> (r: String)
        ensures
            r@ == self.text(),
    {
        match self {
            LobbyProviderBuildError::InvalidConfig(name) => {
                text2("invalid positive/snowflake value for ", name)
            },
            LobbyProviderBuildError::Persistence(error) => {
                text2("could not hydrate persisted lobby state: ", error.as_str())
            },
        }
    }

    /// The error names this setting.
    pub open spec fn names(&self, setting: Seq<char>) -> bool {
        self matches LobbyProviderBuildError::InvalidConfig(name) && name@ == setting
    }
}

/// An optional id that is absent or one Discord can have issued.
pub open spec fn valid_optional_id(value: Option<i64>) -> bool {
    match value {
        Some(value) => value >= 0,
        None => true,
    }
}

/// A number of players that can be required.
pub open spec fn valid_size(value: i64) -> bool {
    0 < value <= usize::MAX
}

/// The first setting that is not acceptable, in the order they are read.
pub open spec fn first_invalid_setting(config: ApplicationConfig) -> Option<Seq<char>> {
    if !valid_optional_id(config.channels.lobby) {
        Some("LOBBY_CHANNEL_ID"@)
    } else if !valid_optional_id(config.channels.low_skill_lobby) {
        Some("LOWSKILL_LOBBY_CHANNEL_ID"@)
    } else if exists|i: int|
        0 <= i < config.identities.admin_user_ids@.len()
            && #[trigger] config.identities.admin_user_ids@[i] < 0 {
        Some("ADMIN_USER_IDS"@)
    } else if !valid_size(config.values.lobby_ready_threshold) {
        Some("LOBBY_READY_THRESHOLD"@)
    } else if !valid_size(config.values.lobby_max_players) {
        Some("LOBBY_MAX_PLAYERS"@)
    } else {
        None
    }
}

/// `ids` are exactly the listed administrators.
pub open spec fn administrators(listed: Seq<i64>, ids: Set<u64>) -> bool {
    forall|id: u64| #[trigger] ids.contains(id) <==> id <= i64::MAX && listed.contains(id as i64)
}

/// The checked settings are those of the application.
pub open spec fn carries_over(config: ApplicationConfig, checked: LobbyRuntimeConfig) -> bool {
    &&& checked.lobby_channel_id == crate::ids::unsigned_option(config.channels.lobby)
    &&& checked.low_skill_lobby_channel_id == crate::ids::unsigned_option(
        config.channels.low_skill_lobby,
    )
    &&& administrators(config.identities.admin_user_ids@, checked.admin_user_ids@)
    &&& checked.ready_threshold == config.values.lobby_ready_threshold
    &&& checked.max_players == config.values.lobby_max_players
    &&& checked.first_game_pool_daily_amount == config.values.first_game_pool_daily_amount
}

/// A number of players, which has to be positive.
pub fn positive_usize(value: i64, name: &'static str) -> (r: Result<
    usize,
    LobbyProviderBuildError,
>)
    ensures
        r is Ok <==> valid_size(value),
        r matches Ok(size) ==> size == value,
        r matches Err(error) ==> error.names(name@),
{
    if value > 0 && value as u64 <= usize::MAX as u64 {
        Ok(value as usize)
    } else {
        Err(LobbyProviderBuildError::InvalidConfig(name))
    }
}

/// A Discord id, which has to be non-negative.
pub fn snowflake(value: i64, name: &'static str) -> (r: Result<u64, LobbyProviderBuildError>)
    ensures
        r is Ok <==> value >= 0,
        r matches Ok(id) ==> id == value,
        r matches Err(error) ==> error.names(name@),
{
    if value >= 0 {
        Ok(value as u64)
    } else {
        Err(LobbyProviderBuildError::InvalidConfig(name))
    }
}

/// A Discord id that may be left out.
pub fn optional_snowflake(value: Option<i64>, name: &'static str) -> (r: Result<
    Option<u64>,
    LobbyProviderBuildError,
>)
    ensures
        r is Ok <==> valid_optional_id(value),
        r matches Ok(id) ==> id == crate::ids::unsigned_option(value),
        r matches Err(error) ==> error.names(name@),
{
    match value {
        Some(value) => match snowflake(value, name) {
            Ok(id) => Ok(Some(id)),
            Err(error) => Err(error),
        },
        None => Ok(None),
    }
}

fn admin_ids(listed: &Vec<i64>) -> (r: Result<BTreeSet<u64>, LobbyProviderBuildError>)
    ensures
        r is Ok <==> forall|i: int| 0 <= i < listed@.len() ==> #[trigger] listed@[i] >= 0,
        r matches Ok(ids) ==> administrators(listed@, ids@),
        r matches Err(error) ==> error.names("ADMIN_USER_IDS"@),
{
    let mut ids: BTreeSet<u64> = BTreeSet::new();
    let mut i: usize = 0;
    while i < listed.len()
        invariant
            i <= listed.len(),
            forall|k: int| 0 <= k < i ==> #[trigger] listed@[k] >= 0,
            administrators(listed@.take(i as int), ids@),
        decreases listed.len() - i,
    {
        let id = snowflake(listed[i], "ADMIN_USER_IDS")?;
        ids.insert(id);
        proof {
            crate::sets::prefix_grows_by_one(listed@, i as int);
        }
        i = i + 1;
    }
    assert(listed@.take(listed@.len() as int) =~= listed@);
    Ok(ids)
}

impl LobbyRuntimeConfig {
    /// Checks the application's settings; the first unacceptable one is reported by name.
    pub fn from_application_config(config: &ApplicationConfig) -> (r: Result<
        LobbyRuntimeConfig,
        LobbyProviderBuildError,
    >)
        ensures
            r is Ok <==> first_invalid_setting(*config) is None,
            r matches Err(error) ==> first_invalid_setting(*config) matches Some(name)
                && error.names(name),
            r matches Ok(checked) ==> carries_over(*config, checked),
    {
        let lobby_channel_id = optional_snowflake(config.channels.lobby, "LOBBY_CHANNEL_ID")?;
        let low_skill_lobby_channel_id = optional_snowflake(
            config.channels.low_skill_lobby,
            "LOWSKILL_LOBBY_CHANNEL_ID",
        )?;
        let admin_user_ids = admin_ids(&config.identities.admin_user_ids)?;
        let ready_threshold = positive_usize(
            config.values.lobby_ready_threshold,
            "LOBBY_READY_THRESHOLD",
        )?;
        let max_players = positive_usize(config.values.lobby_max_players, "LOBBY_MAX_PLAYERS")?;
        Ok(
            LobbyRuntimeConfig {
                lobby_channel_id,
                low_skill_lobby_channel_id,
                admin_user_ids,
                ready_threshold,
                max_players,
                first_game_pool_daily_amount: config.values.first_game_pool_daily_amount,
            },
        )
    }

    /// Lobbies hold at least one player and wait for at least one.
    pub open spec fn can_fill(&self) -> bool {
        self.ready_threshold > 0 && self.max_players > 0
    }

    /// Refuses settings under which no lobby could ever fill.
    pub fn check_lobby_sizes(&self) -> (r: Result<(), LobbyProviderBuildError>)
        ensures
            r is Ok <==> self.can_fill(),
            r matches Err(error) ==> error.names("lobby sizes"@),
    {
        if self.ready_threshold == 0 || self.max_players == 0 {
            Err(LobbyProviderBuildError::InvalidConfig("lobby sizes"))
        } else {
            Ok(())
        }
    }

    /// The channel a new lobby of this kind is announced in, if one is reserved: the low-skill
    /// lobby falls back to the channel of the open one.
    pub open spec fn channel_for(&self, kind: crate::kinds::LobbyKind) -> Option<u64> {
        match kind {
            crate::kinds::LobbyKind::LowSkill => match self.low_skill_lobby_channel_id {
                Some(channel) => Some(channel),
                None => self.lobby_channel_id,
            },
            crate::kinds::LobbyKind::Open => self.lobby_channel_id,
        }
    }

    /// The channel a new lobby of this kind is announced in, if one is reserved.
    pub fn configured_channel(&self, kind: crate::kinds::LobbyKind) -> (r: Option<u64>)
        ensures
            r == self.channel_for(kind),
    {
        match kind {
            crate::kinds::LobbyKind::LowSkill => match self.low_skill_lobby_channel_id {
                Some(channel) => Some(channel),
                None => self.lobby_channel_id,
            },
            crate::kinds::LobbyKind::Open => self.lobby_channel_id,
        }
    }
}

/// Settings that are accepted never fail the later check of the lobby sizes.
pub proof fn accepted_settings_can_fill_lobbies(
    config: ApplicationConfig,
    checked: LobbyRuntimeConfig,
)
    requires
        first_invalid_setting(config) is None,
        carries_over(config, checked),
    ensures
        checked.can_fill(),
{
}

/// A lobby is announced in the channel that is reserved for its kind; the low-skill lobby has that
/// of the open one where it has none of its own, and the open lobby never has the other's.
pub proof fn lobbies_have_channels_of_their_own(config: LobbyRuntimeConfig)
    ensures
        config.channel_for(crate::kinds::LobbyKind::Open) == config.lobby_channel_id,
        config.low_skill_lobby_channel_id is Some ==> config.channel_for(
            crate::kinds::LobbyKind::LowSkill,
        ) == config.low_skill_lobby_channel_id,
        config.low_skill_lobby_channel_id is None ==> config.channel_for(
            crate::kinds::LobbyKind::LowSkill,
        ) == config.lobby_channel_id,
{
}

/// Accepted settings are carried over as the operator made them: both channels, every administrator
/// and nobody else, and all the numbers.
pub proof fn accepted_settings_are_carried_over(
    config: ApplicationConfig,
    checked: LobbyRuntimeConfig,
    id: u64,
)
    requires
        first_invalid_setting(config) is None,
        carries_over(config, checked),
    ensures
        checked.lobby_channel_id is Some <==> config.channels.lobby is Some,
        config.channels.lobby matches Some(channel) ==> channel >= 0 && checked.lobby_channel_id
            == Some(channel as u64),
        checked.low_skill_lobby_channel_id is Some <==> config.channels.low_skill_lobby is Some,
        config.channels.low_skill_lobby matches Some(channel) ==> channel >= 0
            && checked.low_skill_lobby_channel_id == Some(channel as u64),
        checked.admin_user_ids@.contains(id) <==> id <= i64::MAX
            && config.identities.admin_user_ids@.contains(id as i64),
        checked.ready_threshold == config.values.lobby_ready_threshold && checked.ready_threshold > 0,
        checked.max_players == config.values.lobby_max_players && checked.max_players > 0,
        checked.first_game_pool_daily_amount == config.values.first_game_pool_daily_amount,
        checked.can_fill() <==> checked.ready_threshold > 0 && checked.max_players > 0,
        forall|i: int|
            0 <= i < config.identities.admin_user_ids@.len()
                ==> #[trigger] config.identities.admin_user_ids@[i] >= 0,
{
}

/// A setting is refused by its own name exactly if it cannot be used: an id that Discord cannot have
/// issued, or a number of players that is not positive.
pub proof fn unusable_settings_are_refused_by_name(config: ApplicationConfig)
    ensures
        config.channels.lobby matches Some(channel) ==> (channel < 0 ==> first_invalid_setting(config)
            == Some("LOBBY_CHANNEL_ID"@)),
        config.channels.lobby is None ==> (config.channels.low_skill_lobby matches Some(channel) ==> (
        channel < 0 ==> first_invalid_setting(config) == Some("LOWSKILL_LOBBY_CHANNEL_ID"@))),
        config.values.lobby_ready_threshold <= 0 || config.values.lobby_max_players <= 0
            ==> first_invalid_setting(config) is Some,
        config.channels.lobby is None && config.channels.low_skill_lobby is None
            && config.identities.admin_user_ids@.len() == 0 && config.values.lobby_ready_threshold
            <= 0 ==> first_invalid_setting(config) == Some("LOBBY_READY_THRESHOLD"@),
        config.channels.lobby is None && config.channels.low_skill_lobby is None
            && config.identities.admin_user_ids@.len() == 0 && 0
            < config.values.lobby_ready_threshold <= u32::MAX && config.values.lobby_max_players <= 0
            ==> first_invalid_setting(config) == Some("LOBBY_MAX_PLAYERS"@),
        config.channels.lobby is None && config.channels.low_skill_lobby is None
            && config.identities.admin_user_ids@.len() == 0 && 0
            < config.values.lobby_ready_threshold <= u32::MAX && 0 < config.values.lobby_max_players
            <= u32::MAX ==> first_invalid_setting(config) is None,
{
}

/// The report of a refused setting holds the name of the setting, and that of a store that could not
/// be read its own words.
pub proof fn refusals_are_reported_by_name(
    error: LobbyProviderBuildError,
    setting: Seq<char>,
    words: String,
)
    requires
        error.names(setting),
    ensures
        crate::text::contains_text(error.text(), setting),
        crate::text::contains_text(LobbyProviderBuildError::Persistence(words).text(), words@),
{
    crate::text::middles_stand("invalid positive/snowflake value for "@, setting, Seq::empty());
    crate::text::middles_stand(
        "could not hydrate persisted lobby state: "@,
        words@,
        Seq::empty(),
    );
}

} // verus!
