//! Bringing the messages of lobbies up to date after the bot reconnects.
use vstd::prelude::*;
use std::collections::BTreeMap;
use std::collections::BTreeSet;
use crate::flows::reaction::LEGACY_FROGLING_EMOJI_ID;
use crate::ids::to_u64;
use crate::ids::to_unsigned;
use crate::kinds::LobbyKind;
use crate::kinds::LobbyScope;
use crate::kinds::lobby_kind_value;
use crate::lobby::LobbySnapshot;
use crate::message::DiscordEmoji;
use crate::message::DiscordMessageSnapshot;
use crate::protocol::Action;
use crate::protocol::Event;
use crate::protocol::Next;
use crate::protocol::Turn;
use crate::sets::either;
use crate::sets::id_set;
use crate::sets::key_set;
use crate::sets::members;
use crate::text::text3;

verus! {

/// How often a lobby is tried.
pub const RECONCILE_ATTEMPTS: usize = 3;

/// The name under which the recovery is reported.
pub const RECOVERY_NAME: &'static str = "lobby-message-reconciliation";

/// A lobby that could not be brought up to date.
#[derive(Clone, Debug, PartialEq, Eq)]
pub struct ReadyRecoveryFailure {
    pub guild_id: u64,
    pub message: String,
}

/// What came of the recovery.
#[derive(Clone, Debug, PartialEq, Eq)]
pub struct ReadyRecoveryReport {
    pub observer: &'static str,
    pub guilds_attempted: usize,
    pub guilds_refreshed: usize,
    pub guilds_superseded: usize,
    pub members_refreshed: usize,
    pub failures: Vec<ReadyRecoveryFailure>,
}

/// A lobby with the message that shows it.
#[derive(Clone, Copy, Debug, PartialEq, Eq, Structural)]
pub struct ShownLobby {
    pub scope: LobbyScope,
    pub channel_id: i64,
    pub message_id: i64,
}

/// Where the recovery of a lobby stands.
#[derive(Debug, PartialEq, Eq)]
pub enum RecoveryAt {
    /// The open lobbies are being listed.
    Listing,
    /// The message of a lobby is being looked up.
    Fetching { lobby: ShownLobby },
    /// A lobby is being repainted; a stray reaction is then to be cleared.
    Painting { lobby: ShownLobby, stray: bool },
    /// A stray reaction is being cleared.
    Clearing { lobby: ShownLobby },
    /// Some time passes before the next attempt.
    Sleeping,
    /// Nothing is left to be done.
    Over,
}

/// What the recovery knows: the lobbies still to be tried in this attempt, those that failed in
/// it, the guilds attempted and refreshed, and the last failure of every lobby.
#[derive(Debug, PartialEq, Eq)]
pub struct Ledger {
    pub attempt: usize,
    pub rest: Vec<ShownLobby>,
    pub failed: Vec<ShownLobby>,
    pub attempted: BTreeSet<u64>,
    pub refreshed: BTreeSet<u64>,
    pub open_errors: BTreeMap<i64, String>,
    pub low_skill_errors: BTreeMap<i64, String>,
}

/// A recovery in progress.
#[derive(Debug, PartialEq, Eq)]
pub struct RecoveryFlow {
    pub guild_ids: Vec<u64>,
    pub ledger: Ledger,
    pub at: RecoveryAt,
}

/// The lobby is to be recovered: its guild is one of these, and it has a message.
pub open spec fn recoverable(lobby: LobbySnapshot, guild_ids: Seq<u64>) -> Option<ShownLobby> {
    match (lobby.message_ids.channel_id, lobby.message_ids.message_id) {
        (Some(channel_id), Some(message_id)) => if lobby.scope.guild_id >= 0 && guild_ids.contains(
            lobby.scope.guild_id as u64,
        ) {
            Some(ShownLobby { scope: lobby.scope, channel_id, message_id })
        } else {
            None
        },
        _ => None,
    }
}

/// The lobbies to be recovered, in order.
pub open spec fn to_recover(lobbies: Seq<LobbySnapshot>, guild_ids: Seq<u64>) -> Seq<ShownLobby>
    decreases lobbies.len(),
{
    if lobbies.len() == 0 {
        Seq::empty()
    } else {
        let rest = to_recover(lobbies.drop_last(), guild_ids);
        match recoverable(lobbies.last(), guild_ids) {
            Some(shown) => rest.push(shown),
            None => rest,
        }
    }
}

/// The guilds of these lobbies.
pub open spec fn guilds_of(lobbies: Seq<ShownLobby>) -> Set<u64> {
    lobbies.map_values(|lobby: ShownLobby| lobby.scope.guild_id as u64).to_set()
}

/// The last failures, by guild and kind.
pub open spec fn errors_of(ledger: Ledger, kind: LobbyKind) -> Map<i64, String> {
    match kind {
        LobbyKind::Open => ledger.open_errors@,
        LobbyKind::LowSkill => ledger.low_skill_errors@,
    }
}

/// A lobby was tried without success: it is tried again in the next attempt, and its failure is
/// noted.
pub open spec fn notes_failure(
    pre: Ledger,
    lobby: ShownLobby,
    text: Seq<char>,
    post: Ledger,
) -> bool {
    let kind = lobby.scope.kind;
    let guild = lobby.scope.guild_id;
    &&& post.attempt == pre.attempt
    &&& post.rest@ == pre.rest@
    &&& post.failed@ == pre.failed@.push(lobby)
    &&& post.attempted@ == pre.attempted@
    &&& post.refreshed@ == pre.refreshed@
    &&& errors_of(post, crate::kinds::sibling(kind)) == errors_of(pre, crate::kinds::sibling(kind))
    &&& errors_of(post, kind).dom() == errors_of(pre, kind).dom().insert(guild)
    &&& errors_of(post, kind)[guild]@ == text
    &&& forall|other: i64|
        other != guild && errors_of(pre, kind).dom().contains(other) ==> #[trigger] errors_of(
            post,
            kind,
        )[other] == errors_of(pre, kind)[other]
}

/// A lobby was brought up to date: its guild counts as refreshed, and an earlier failure is
/// forgotten.
pub open spec fn notes_success(pre: Ledger, lobby: ShownLobby, post: Ledger) -> bool {
    let kind = lobby.scope.kind;
    &&& post.attempt == pre.attempt
    &&& post.rest@ == pre.rest@
    &&& post.failed@ == pre.failed@
    &&& post.attempted@ == pre.attempted@
    &&& post.refreshed@ == if lobby.scope.guild_id >= 0 {
        pre.refreshed@.insert(lobby.scope.guild_id as u64)
    } else {
        pre.refreshed@
    }
    &&& errors_of(post, crate::kinds::sibling(kind)) == errors_of(pre, crate::kinds::sibling(kind))
    &&& errors_of(post, kind) == errors_of(pre, kind).remove(lobby.scope.guild_id)
}

/// A lobby that is tried next: the first one left whose message has ids that Discord can have
/// issued; those before it fail at once.
pub open spec fn tries(pre: Ledger, post: Ledger, at: RecoveryAt, turn: Turn<ReadyRecoveryReport>) -> bool
    decreases pre.rest@.len(),
{
    if pre.rest@.len() == 0 {
        attempt_over(pre, post, at, turn)
    } else {
        let lobby = pre.rest@[0];
        match crate::lobby::first_bad_id(lobby.channel_id, lobby.message_id, 0) {
            None => {
                &&& at == (RecoveryAt::Fetching { lobby })
                &&& takes_first(pre, post)
                &&& turn.only_asks(
                    Action::Fetch {
                        channel_id: lobby.channel_id as u64,
                        message_id: lobby.message_id as u64,
                    },
                )
            },
            Some(bad) => exists|taken: Ledger, noted: Ledger|
                {
                    &&& takes_first(pre, taken)
                    &&& #[trigger] notes_failure(
                        taken,
                        lobby,
                        crate::ids::bad_snowflake_text(bad as int),
                        noted,
                    )
                    &&& noted.rest@.len() < pre.rest@.len()
                    &&& tries(noted, post, at, turn)
                },
        }
    }
}

/// The first lobby left is taken.
pub open spec fn takes_first(pre: Ledger, post: Ledger) -> bool {
    &&& post.attempt == pre.attempt
    &&& post.rest@ == pre.rest@.drop_first()
    &&& post.failed@ == pre.failed@
    &&& post.attempted@ == pre.attempted@
    &&& post.refreshed@ == pre.refreshed@
    &&& post.open_errors@ == pre.open_errors@
    &&& post.low_skill_errors@ == pre.low_skill_errors@
}

/// The pause before the next attempt, in seconds: it doubles.
pub open spec fn pause(attempt: int) -> u64 {
    if attempt == 0 {
        1
    } else if attempt == 1 {
        2
    } else {
        4
    }
}

/// Every lobby was tried: those that failed are tried again after a pause, as long as an attempt
/// is left; otherwise the recovery is reported.
pub open spec fn attempt_over(
    pre: Ledger,
    post: Ledger,
    at: RecoveryAt,
    turn: Turn<ReadyRecoveryReport>,
) -> bool {
    if pre.failed@.len() == 0 || pre.attempt + 1 >= RECONCILE_ATTEMPTS {
        &&& at is Over
        &&& turn.before@.len() == 0
        &&& turn.next matches Next::End(report) && reports_recovery(report, pre)
    } else {
        &&& at is Sleeping
        &&& post.attempt == pre.attempt + 1
        &&& post.rest@ == pre.failed@
        &&& post.failed@.len() == 0
        &&& post.attempted@ == pre.attempted@
        &&& post.refreshed@ == pre.refreshed@
        &&& post.open_errors@ == pre.open_errors@
        &&& post.low_skill_errors@ == pre.low_skill_errors@
        &&& turn.only_asks(Action::Sleep { seconds: pause(pre.attempt as int) })
    }
}

/// A failure as it is reported.
pub open spec fn failure_line(guild: i64, kind: LobbyKind, error: Seq<char>) -> (u64, Seq<char>) {
    (
        if guild >= 0 {
            guild as u64
        } else {
            0
        },
        crate::kinds::kind_value(kind) + ": "@ + error,
    )
}

/// The failures of a guild: that of the open lobby before that of the low-skill lobby.
pub open spec fn guild_failures(
    guild: i64,
    open: Map<i64, String>,
    low_skill: Map<i64, String>,
) -> Seq<(u64, Seq<char>)> {
    (if open.dom().contains(guild) {
        seq![failure_line(guild, LobbyKind::Open, open[guild]@)]
    } else {
        Seq::empty()
    }) + if low_skill.dom().contains(guild) {
        seq![failure_line(guild, LobbyKind::LowSkill, low_skill[guild]@)]
    } else {
        Seq::empty()
    }
}

/// The failures of these guilds, in order.
pub open spec fn failure_lines(
    guilds: Seq<i64>,
    open: Map<i64, String>,
    low_skill: Map<i64, String>,
) -> Seq<(u64, Seq<char>)>
    decreases guilds.len(),
{
    if guilds.len() == 0 {
        Seq::empty()
    } else {
        failure_lines(guilds.drop_last(), open, low_skill) + guild_failures(
            guilds.last(),
            open,
            low_skill,
        )
    }
}

/// The failures as they are read.
pub open spec fn lines_of(failures: Seq<ReadyRecoveryFailure>) -> Seq<(u64, Seq<char>)> {
    failures.map_values(|failure: ReadyRecoveryFailure| (failure.guild_id, failure.message@))
}

/// What is reported of a recovery: how many guilds were attempted and refreshed, and the last
/// failure of every lobby that is not up to date, by guild.
pub open spec fn reports_recovery(report: ReadyRecoveryReport, ledger: Ledger) -> bool {
    &&& report.observer@ == RECOVERY_NAME@
    &&& report.guilds_attempted == ledger.attempted@.len()
    &&& report.guilds_refreshed == ledger.refreshed@.len()
    &&& report.guilds_superseded == 0
    &&& report.members_refreshed == 0
    &&& lines_of(report.failures@) == failure_lines(
        crate::sets::listing(ledger.open_errors@.dom().union(ledger.low_skill_errors@.dom())),
        ledger.open_errors@,
        ledger.low_skill_errors@,
    )
}

/// One lobby is done without success.
pub open spec fn lobby_fails(
    pre: Ledger,
    lobby: ShownLobby,
    text: Seq<char>,
    post: RecoveryFlow,
    turn: Turn<ReadyRecoveryReport>,
) -> bool {
    exists|noted: Ledger| #[trigger]
        notes_failure(pre, lobby, text, noted) && tries(noted, post.ledger, post.at, turn)
}

/// One lobby is up to date.
pub open spec fn lobby_succeeds(
    pre: Ledger,
    lobby: ShownLobby,
    post: RecoveryFlow,
    turn: Turn<ReadyRecoveryReport>,
) -> bool {
    exists|noted: Ledger| #[trigger]
        notes_success(pre, lobby, noted) && tries(noted, post.ledger, post.at, turn)
}

/// The message carries the stray reaction.
pub open spec fn is_stray(message: DiscordMessageSnapshot) -> bool {
    exists|i: int|
        0 <= i < message.reactions@.len() && #[trigger] message.reactions@[i].id == Some(
            LEGACY_FROGLING_EMOJI_ID,
        )
}

/// The message of a lobby was looked up: the lobby is repainted.
pub open spec fn lobby_fetched(
    pre: RecoveryFlow,
    lobby: ShownLobby,
    fetched: Result<Option<DiscordMessageSnapshot>, String>,
    post: RecoveryFlow,
    turn: Turn<ReadyRecoveryReport>,
) -> bool {
    match fetched {
        Err(error) => lobby_fails(pre.ledger, lobby, error@, post, turn),
        Ok(None) => lobby_fails(
            pre.ledger,
            lobby,
            "persisted lobby message was not found"@,
            post,
            turn,
        ),
        Ok(Some(message)) => {
            &&& post.ledger == pre.ledger
            &&& post.at == (RecoveryAt::Painting { lobby, stray: is_stray(message) })
            &&& turn.only_asks(Action::SyncDisplay { scope: lobby.scope })
        },
    }
}

/// A lobby was repainted: a stray reaction is cleared, and otherwise the lobby is done.
pub open spec fn lobby_painted(
    pre: RecoveryFlow,
    lobby: ShownLobby,
    stray: bool,
    painted: Result<(), String>,
    post: RecoveryFlow,
    turn: Turn<ReadyRecoveryReport>,
) -> bool {
    match painted {
        Err(error) => lobby_fails(pre.ledger, lobby, error@, post, turn),
        Ok(_) => if stray {
            match crate::lobby::first_bad_id(lobby.channel_id, lobby.message_id, 0) {
                Some(bad) => lobby_fails(
                    pre.ledger,
                    lobby,
                    crate::ids::bad_snowflake_text(bad as int),
                    post,
                    turn,
                ),
                None => {
                    &&& post.ledger == pre.ledger
                    &&& post.at == (RecoveryAt::Clearing { lobby })
                    &&& turn.before@.len() == 0
                    &&& turn.next matches Next::Ask(
                        Action::ClearReaction { channel_id, message_id, emoji },
                    ) && channel_id == lobby.channel_id && message_id == lobby.message_id
                        && crate::message::is_custom(emoji, "frogling"@, LEGACY_FROGLING_EMOJI_ID)
                },
            }
        } else {
            lobby_succeeds(pre.ledger, lobby, post, turn)
        },
    }
}

/// The lobbies are listed: those to be recovered are lined up, and the first is tried.
pub open spec fn recovery_listed(
    pre: RecoveryFlow,
    lobbies: Seq<LobbySnapshot>,
    post: RecoveryFlow,
    turn: Turn<ReadyRecoveryReport>,
) -> bool {
    exists|lined: Ledger| #[trigger]
        lines_up(lined, to_recover(lobbies, pre.guild_ids@)) && tries(
            lined,
            post.ledger,
            post.at,
            turn,
        )
}

/// These lobbies are to be tried, and nothing has come of any yet.
pub open spec fn lines_up(ledger: Ledger, lobbies: Seq<ShownLobby>) -> bool {
    &&& ledger.attempt == 0
    &&& ledger.rest@ == lobbies
    &&& ledger.failed@.len() == 0
    &&& ledger.attempted@ == guilds_of(lobbies)
    &&& ledger.refreshed@ == Set::<u64>::empty()
    &&& ledger.open_errors@ == Map::<i64, String>::empty()
    &&& ledger.low_skill_errors@ == Map::<i64, String>::empty()
}

/// The beginning: the open lobbies are listed.
pub open spec fn recovery_starts(
    guild_ids: Vec<u64>,
    post: RecoveryFlow,
    turn: Turn<ReadyRecoveryReport>,
) -> bool {
    &&& post.guild_ids == guild_ids
    &&& lines_up(post.ledger, Seq::empty())
    &&& post.at is Listing
    &&& turn.only_asks(Action::ListLobbies)
}

/// One step of the recovery.
pub open spec fn recovery_step(
    pre: RecoveryFlow,
    event: Event,
    post: RecoveryFlow,
    turn: Turn<ReadyRecoveryReport>,
) -> bool {
    &&& post.guild_ids@ == pre.guild_ids@
    &&& match (pre.at, event) {
        (RecoveryAt::Listing, Event::Lobbies(lobbies)) => recovery_listed(
            pre,
            lobbies@,
            post,
            turn,
        ),
        (RecoveryAt::Fetching { lobby }, Event::Fetched(fetched)) => lobby_fetched(
            pre,
            lobby,
            fetched,
            post,
            turn,
        ),
        (RecoveryAt::Painting { lobby, stray }, Event::Done(painted)) => lobby_painted(
            pre,
            lobby,
            stray,
            painted,
            post,
            turn,
        ),
        (RecoveryAt::Clearing { lobby }, Event::Done(cleared)) => match cleared {
            Err(error) => lobby_fails(pre.ledger, lobby, error@, post, turn),
            Ok(_) => lobby_succeeds(pre.ledger, lobby, post, turn),
        },
        (RecoveryAt::Sleeping, Event::Done(_)) => tries(
            pre.ledger,
            post.ledger,
            post.at,
            turn,
        ),
        _ => post == pre && turn.waits(),
    }
}

fn has_guild(guild_ids: &Vec<u64>, guild: u64) -> (r: bool)
    ensures
        r == guild_ids@.contains(guild),
{
    let mut i: usize = 0;
    while i < guild_ids.len()
        invariant
            i <= guild_ids.len(),
            forall|k: int| 0 <= k < i ==> guild_ids@[k] != guild,
        decreases guild_ids.len() - i,
    {
        if guild_ids[i] == guild {
            return true;
        }
        i = i + 1;
    }
    false
}

fn shown_lobby(lobby: &LobbySnapshot, guild_ids: &Vec<u64>) -> (r: Option<ShownLobby>)
    ensures
        r == recoverable(*lobby, guild_ids@),
{
    match (
        lobby.message_ids.channel_id,
        lobby.message_ids.message_id,
        to_unsigned(lobby.scope.guild_id),
    ) {
        (Some(channel_id), Some(message_id), Some(guild)) => if has_guild(guild_ids, guild) {
            Some(ShownLobby { scope: lobby.scope, channel_id, message_id })
        } else {
            None
        },
        _ => None,
    }
}

fn line_up(lobbies: &Vec<LobbySnapshot>, guild_ids: &Vec<u64>) -> (r: Vec<ShownLobby>)
    ensures
        r@ == to_recover(lobbies@, guild_ids@),
{
    let mut r: Vec<ShownLobby> = Vec::new();
    let mut i: usize = 0;
    assert(lobbies@.take(0) =~= Seq::empty());
    while i < lobbies.len()
        invariant
            i <= lobbies.len(),
            r@ == to_recover(lobbies@.take(i as int), guild_ids@),
        decreases lobbies.len() - i,
    {
        assert(lobbies@.take(i + 1).drop_last() =~= lobbies@.take(i as int));
        assert(lobbies@.take(i + 1).last() == lobbies@[i as int]);
        if let Some(shown) = shown_lobby(&lobbies[i], guild_ids) {
            r.push(shown);
        }
        i = i + 1;
    }
    assert(lobbies@.take(lobbies@.len() as int) =~= lobbies@);
    r
}

fn guild_set(lobbies: &Vec<ShownLobby>) -> (r: BTreeSet<u64>)
    ensures
        r@ == guilds_of(lobbies@),
{
    let mut guilds: Vec<u64> = Vec::new();
    let mut i: usize = 0;
    while i < lobbies.len()
        invariant
            i <= lobbies.len(),
            guilds@.len() == i,
            forall|k: int| 0 <= k < i ==> #[trigger] guilds@[k] == lobbies@[k].scope.guild_id as u64,
        decreases lobbies.len() - i,
    {
        guilds.push(lobbies[i].scope.guild_id as u64);
        i = i + 1;
    }
    assert(guilds@ =~= lobbies@.map_values(|lobby: ShownLobby| lobby.scope.guild_id as u64));
    id_set(&guilds)
}

fn failure(guild: i64, kind: LobbyKind, error: &str) -> (r: ReadyRecoveryFailure)
    ensures
        (r.guild_id, r.message@) == failure_line(guild, kind, error@),
{
    let guild_id: u64 = match to_unsigned(guild) {
        Some(guild_id) => guild_id,
        None => 0,
    };
    ReadyRecoveryFailure { guild_id, message: text3(lobby_kind_value(kind), ": ", error) }
}

fn list_failures(
    guilds: &Vec<i64>,
    open: &BTreeMap<i64, String>,
    low_skill: &BTreeMap<i64, String>,
) -> (r: Vec<ReadyRecoveryFailure>)
    ensures
        lines_of(r@) == failure_lines(guilds@, open@, low_skill@),
{
    let mut r: Vec<ReadyRecoveryFailure> = Vec::new();
    let mut i: usize = 0;
    assert(guilds@.take(0) =~= Seq::empty());
    assert(lines_of(r@) =~= Seq::empty());
    while i < guilds.len()
        invariant
            i <= guilds.len(),
            lines_of(r@) == failure_lines(guilds@.take(i as int), open@, low_skill@),
        decreases guilds.len() - i,
    {
        let guild: i64 = guilds[i];
        assert(guilds@.take(i + 1).drop_last() =~= guilds@.take(i as int));
        assert(guilds@.take(i + 1).last() == guild);
        let ghost start = r@;
        if let Some(error) = open.get(&guild) {
            r.push(failure(guild, LobbyKind::Open, error.as_str()));
        }
        let ghost middle = r@;
        if let Some(error) = low_skill.get(&guild) {
            r.push(failure(guild, LobbyKind::LowSkill, error.as_str()));
        }
        assert(lines_of(r@) =~= lines_of(start) + guild_failures(guild, open@, low_skill@)) by {
            assert(lines_of(middle) =~= lines_of(start) + if open@.dom().contains(guild) {
                seq![failure_line(guild, LobbyKind::Open, open@[guild]@)]
            } else {
                Seq::empty()
            });
        }
        i = i + 1;
    }
    assert(guilds@.take(guilds@.len() as int) =~= guilds@);
    r
}

fn report(ledger: &Ledger) -> (r: ReadyRecoveryReport)
    ensures
        reports_recovery(r, *ledger),
{
    broadcast use vstd::std_specs::btree::group_btree_axioms;
    broadcast use vstd::laws_cmp::group_laws_cmp;

    let guilds = members(&either(&key_set(&ledger.open_errors), &key_set(&ledger.low_skill_errors)));
    ReadyRecoveryReport {
        observer: RECOVERY_NAME,
        guilds_attempted: ledger.attempted.len(),
        guilds_refreshed: ledger.refreshed.len(),
        guilds_superseded: 0,
        members_refreshed: 0,
        failures: list_failures(&guilds, &ledger.open_errors, &ledger.low_skill_errors),
    }
}

fn note_failure(ledger: Ledger, lobby: ShownLobby, text: String) -> (r: Ledger)
    ensures
        notes_failure(ledger, lobby, text@, r),
{
    let mut ledger = ledger;
    match lobby.scope.kind {
        LobbyKind::Open => {
            ledger.open_errors.insert(lobby.scope.guild_id, text);
        },
        LobbyKind::LowSkill => {
            ledger.low_skill_errors.insert(lobby.scope.guild_id, text);
        },
    }
    ledger.failed.push(lobby);
    ledger
}

fn note_success(ledger: Ledger, lobby: ShownLobby) -> (r: Ledger)
    ensures
        notes_success(ledger, lobby, r),
{
    let mut ledger = ledger;
    match lobby.scope.kind {
        LobbyKind::Open => {
            ledger.open_errors.remove(&lobby.scope.guild_id);
        },
        LobbyKind::LowSkill => {
            ledger.low_skill_errors.remove(&lobby.scope.guild_id);
        },
    }
    if let Some(guild) = to_unsigned(lobby.scope.guild_id) {
        ledger.refreshed.insert(guild);
    }
    ledger
}

fn end_attempt(ledger: Ledger) -> (r: (Ledger, RecoveryAt, Turn<ReadyRecoveryReport>))
    ensures
        attempt_over(ledger, r.0, r.1, r.2),
{
    if ledger.failed.len() == 0 || ledger.attempt >= RECONCILE_ATTEMPTS - 1 {
        let report = report(&ledger);
        return (ledger, RecoveryAt::Over, Turn::end(report));
    }
    let seconds: u64 = if ledger.attempt == 0 {
        1
    } else {
        2
    };
    let Ledger {
        attempt,
        rest,
        failed,
        attempted,
        refreshed,
        open_errors,
        low_skill_errors,
    } = ledger;
    let next = Ledger {
        attempt: attempt + 1,
        rest: failed,
        failed: Vec::new(),
        attempted,
        refreshed,
        open_errors,
        low_skill_errors,
    };
    (next, RecoveryAt::Sleeping, Turn::ask(Action::Sleep { seconds }))
}

fn try_next(ledger: Ledger) -> (r: (Ledger, RecoveryAt, Turn<ReadyRecoveryReport>))
    ensures
        tries(ledger, r.0, r.1, r.2),
    decreases ledger.rest@.len(),
{
    if ledger.rest.len() == 0 {
        return end_attempt(ledger);
    }
    let ghost pre = ledger;
    let mut ledger = ledger;
    let lobby = ledger.rest.remove(0);
    let ghost taken = ledger;
    assert(takes_first(pre, taken)) by {
        assert(taken.rest@ =~= pre.rest@.drop_first());
    }
    let fault = match (to_u64(lobby.channel_id), to_u64(lobby.message_id)) {
        (Ok(channel_id), Ok(message_id)) => {
            return (
                ledger,
                RecoveryAt::Fetching { lobby },
                Turn::ask(Action::Fetch { channel_id, message_id }),
            );
        },
        (Err(text), _) => text,
        (_, Err(text)) => text,
    };
    let ghost told = fault@;
    let ledger = note_failure(ledger, lobby, fault);
    let ghost noted = ledger;
    let r = try_next(ledger);
    proof {
        let bad = crate::lobby::first_bad_id(lobby.channel_id, lobby.message_id, 0)->0;
        assert(told == crate::ids::bad_snowflake_text(bad as int));
        assert(lobby == pre.rest@[0]);
        assert(notes_failure(
            taken,
            pre.rest@[0],
            crate::ids::bad_snowflake_text(bad as int),
            noted,
        ));
        assert(tries(noted, r.0, r.1, r.2));
        assert(noted.rest@.len() < pre.rest@.len());
        assert(tries(pre, r.0, r.1, r.2));
    }
    r
}

fn fail_lobby(flow: RecoveryFlow, lobby: ShownLobby, text: String) -> (r: (
    RecoveryFlow,
    Turn<ReadyRecoveryReport>,
))
    ensures
        r.0.guild_ids == flow.guild_ids,
        lobby_fails(flow.ledger, lobby, text@, r.0, r.1),
{
    let RecoveryFlow { guild_ids, ledger, at } = flow;
    let ledger = note_failure(ledger, lobby, text);
    let ghost noted = ledger;
    let (ledger, at, turn) = try_next(ledger);
    assert(notes_failure(flow.ledger, lobby, text@, noted));
    (RecoveryFlow { guild_ids, ledger, at }, turn)
}

fn succeed_lobby(flow: RecoveryFlow, lobby: ShownLobby) -> (r: (
    RecoveryFlow,
    Turn<ReadyRecoveryReport>,
))
    ensures
        r.0.guild_ids == flow.guild_ids,
        lobby_succeeds(flow.ledger, lobby, r.0, r.1),
{
    let RecoveryFlow { guild_ids, ledger, at } = flow;
    let ledger = note_success(ledger, lobby);
    let ghost noted = ledger;
    let (ledger, at, turn) = try_next(ledger);
    assert(notes_success(flow.ledger, lobby, noted));
    (RecoveryFlow { guild_ids, ledger, at }, turn)
}

fn carries_stray(message: &DiscordMessageSnapshot) -> (r: bool)
    ensures
        r == is_stray(*message),
{
    let mut i: usize = 0;
    while i < message.reactions.len()
        invariant
            i <= message.reactions.len(),
            forall|k: int|
                0 <= k < i ==> #[trigger] message.reactions@[k].id != Some(
                    LEGACY_FROGLING_EMOJI_ID,
                ),
        decreases message.reactions.len() - i,
    {
        if let Some(id) = message.reactions[i].id {
            if id == LEGACY_FROGLING_EMOJI_ID {
                assert(message.reactions@[i as int].id == Some(LEGACY_FROGLING_EMOJI_ID));
                return true;
            }
        }
        i = i + 1;
    }
    false
}

fn on_fetched(
    flow: RecoveryFlow,
    lobby: ShownLobby,
    fetched: Result<Option<DiscordMessageSnapshot>, String>,
) -> (r: (RecoveryFlow, Turn<ReadyRecoveryReport>))
    ensures
        r.0.guild_ids == flow.guild_ids,
        lobby_fetched(flow, lobby, fetched, r.0, r.1),
{
    match fetched {
        Err(error) => fail_lobby(flow, lobby, error),
        Ok(None) => fail_lobby(
            flow,
            lobby,
            "persisted lobby message was not found".to_owned(),
        ),
        Ok(Some(message)) => {
            let mut flow = flow;
            flow.at = RecoveryAt::Painting { lobby, stray: carries_stray(&message) };
            (flow, Turn::ask(Action::SyncDisplay { scope: lobby.scope }))
        },
    }
}

fn on_painted(
    flow: RecoveryFlow,
    lobby: ShownLobby,
    stray: bool,
    painted: Result<(), String>,
) -> (r: (RecoveryFlow, Turn<ReadyRecoveryReport>))
    ensures
        r.0.guild_ids == flow.guild_ids,
        lobby_painted(flow, lobby, stray, painted, r.0, r.1),
{
    if let Err(error) = painted {
        return fail_lobby(flow, lobby, error);
    }
    if !stray {
        return succeed_lobby(flow, lobby);
    }
    match (to_u64(lobby.channel_id), to_u64(lobby.message_id)) {
        (Ok(channel_id), Ok(message_id)) => {
            let mut flow = flow;
            flow.at = RecoveryAt::Clearing { lobby };
            let emoji = DiscordEmoji::custom("frogling", LEGACY_FROGLING_EMOJI_ID);
            (flow, Turn::ask(Action::ClearReaction { channel_id, message_id, emoji }))
        },
        (Err(text), _) => fail_lobby(flow, lobby, text),
        (_, Err(text)) => fail_lobby(flow, lobby, text),
    }
}

impl RecoveryFlow {
    /// Begins the recovery of the lobbies of these guilds.
    pub fn start(guild_ids: Vec<u64>) -> (r: (RecoveryFlow, Turn<ReadyRecoveryReport>))
        ensures
            recovery_starts(guild_ids, r.0, r.1),
            r.1.goes_on(|action: Action| r.0.awaits(action)),
    {
        let ledger = Ledger {
            attempt: 0,
            rest: Vec::new(),
            failed: Vec::new(),
            attempted: BTreeSet::new(),
            refreshed: BTreeSet::new(),
            open_errors: BTreeMap::new(),
            low_skill_errors: BTreeMap::new(),
        };
        assert(ledger.attempted@ =~= guilds_of(Seq::empty()));
        (
            RecoveryFlow { guild_ids, ledger, at: RecoveryAt::Listing },
            Turn::ask(Action::ListLobbies),
        )
    }

    /// Goes on with what came of the last question.
    pub fn resume(self, event: Event) -> (r: (RecoveryFlow, Turn<ReadyRecoveryReport>))
        ensures
            recovery_step(self, event, r.0, r.1),
    {
        let RecoveryFlow { guild_ids, ledger, at } = self;
        match (at, event) {
            (RecoveryAt::Listing, Event::Lobbies(lobbies)) => {
                let rest = line_up(&lobbies, &guild_ids);
                let lined = Ledger {
                    attempt: 0,
                    attempted: guild_set(&rest),
                    rest,
                    failed: Vec::new(),
                    refreshed: BTreeSet::new(),
                    open_errors: BTreeMap::new(),
                    low_skill_errors: BTreeMap::new(),
                };
                assert(lines_up(lined, to_recover(lobbies@, guild_ids@)));
                let (ledger, at, turn) = try_next(lined);
                (RecoveryFlow { guild_ids, ledger, at }, turn)
            },
            (RecoveryAt::Fetching { lobby }, Event::Fetched(fetched)) => {
                let flow = RecoveryFlow { guild_ids, ledger, at: RecoveryAt::Over };
                on_fetched(flow, lobby, fetched)
            },
            (RecoveryAt::Painting { lobby, stray }, Event::Done(painted)) => {
                let flow = RecoveryFlow { guild_ids, ledger, at: RecoveryAt::Over };
                on_painted(flow, lobby, stray, painted)
            },
            (RecoveryAt::Clearing { lobby }, Event::Done(cleared)) => {
                let flow = RecoveryFlow { guild_ids, ledger, at: RecoveryAt::Over };
                match cleared {
                    Err(error) => fail_lobby(flow, lobby, error),
                    Ok(_) => succeed_lobby(flow, lobby),
                }
            },
            (RecoveryAt::Sleeping, Event::Done(_)) => {
                let (ledger, at, turn) = try_next(ledger);
                (RecoveryFlow { guild_ids, ledger, at }, turn)
            },
            (at, _) => (RecoveryFlow { guild_ids, ledger, at }, Turn::wait()),
        }
    }
}

/// What trying the next lobby comes to: the attempt goes on, another one follows after its
/// pause, or the recovery ends.
pub open spec fn tries_on(
    pre: Ledger,
    post: Ledger,
    at: RecoveryAt,
    turn: Turn<ReadyRecoveryReport>,
) -> bool {
    match at {
        RecoveryAt::Fetching { .. } => post.attempt == pre.attempt && post.refreshed@
            == pre.refreshed@ && turn.next matches Next::Ask(Action::Fetch { .. }),
        RecoveryAt::Sleeping => post.attempt == pre.attempt + 1 && post.attempt < RECONCILE_ATTEMPTS
            && post.refreshed@ == pre.refreshed@ && turn.next == Next::<ReadyRecoveryReport>::Ask(
            Action::Sleep { seconds: pause(pre.attempt as int) },
        ),
        RecoveryAt::Over => turn.next is End,
        _ => false,
    }
}

proof fn trying_goes_on(
    pre: Ledger,
    post: Ledger,
    at: RecoveryAt,
    turn: Turn<ReadyRecoveryReport>,
)
    requires
        tries(pre, post, at, turn),
    ensures
        tries_on(pre, post, at, turn),
    decreases pre.rest@.len(),
{
    if pre.rest@.len() > 0 {
        let lobby = pre.rest@[0];
        if let Some(bad) = crate::lobby::first_bad_id(lobby.channel_id, lobby.message_id, 0) {
            let (taken, noted) = choose|taken: Ledger, noted: Ledger|
                {
                    &&& takes_first(pre, taken)
                    &&& #[trigger] notes_failure(
                        taken,
                        lobby,
                        crate::ids::bad_snowflake_text(bad as int),
                        noted,
                    )
                    &&& noted.rest@.len() < pre.rest@.len()
                    &&& tries(noted, post, at, turn)
                };
            trying_goes_on(noted, post, at, turn);
        }
    }
}

/// The try of a lobby that this event ends, and how: with success, or with this failure.
pub open spec fn try_ends(at: RecoveryAt, event: Event) -> Option<
    (ShownLobby, Result<(), Seq<char>>),
> {
    match (at, event) {
        (RecoveryAt::Fetching { lobby }, Event::Fetched(fetched)) => match fetched {
            Err(error) => Some((lobby, Err(error@))),
            Ok(None) => Some((lobby, Err("persisted lobby message was not found"@))),
            Ok(Some(_)) => None,
        },
        (RecoveryAt::Painting { lobby, stray }, Event::Done(painted)) => match painted {
            Err(error) => Some((lobby, Err(error@))),
            Ok(_) => if stray {
                match fault(lobby) {
                    Some(text) => Some((lobby, Err(text))),
                    None => None,
                }
            } else {
                Some((lobby, Ok(())))
            },
        },
        (RecoveryAt::Clearing { lobby }, Event::Done(cleared)) => match cleared {
            Err(error) => Some((lobby, Err(error@))),
            Ok(_) => Some((lobby, Ok(()))),
        },
        _ => None,
    }
}

/// What is wrong with the ids of a lobby's message: one that Discord cannot have issued fails
/// every try.
pub open spec fn fault(lobby: ShownLobby) -> Option<Seq<char>> {
    match crate::lobby::first_bad_id(lobby.channel_id, lobby.message_id, 0) {
        Some(bad) => Some(crate::ids::bad_snowflake_text(bad as int)),
        None => None,
    }
}

/// The step is done with a lobby, a list or a pause, so that the next lobby is tried.
pub open spec fn moves_on(at: RecoveryAt, event: Event) -> bool {
    ||| try_ends(at, event) is Some
    ||| at is Listing && event is Lobbies
    ||| at is Sleeping && event is Done
}

/// The ledger that a step goes on from: a fresh one for a new list, and otherwise the one before
/// with the fate of the current lobby noted.
proof fn steps_try_on(
    pre: RecoveryFlow,
    event: Event,
    post: RecoveryFlow,
    turn: Turn<ReadyRecoveryReport>,
) -> (from: Ledger)
    requires
        recovery_step(pre, event, post, turn),
        moves_on(pre.at, event),
    ensures
        tries(from, post.ledger, post.at, turn),
        match try_ends(pre.at, event) {
            Some((lobby, Err(text))) => notes_failure(pre.ledger, lobby, text, from),
            Some((lobby, Ok(_))) => notes_success(pre.ledger, lobby, from),
            None => match event {
                Event::Lobbies(lobbies) => lines_up(from, to_recover(lobbies@, pre.guild_ids@)),
                _ => from == pre.ledger,
            },
        },
{
    match try_ends(pre.at, event) {
        Some((lobby, Err(text))) => {
            assert(lobby_fails(pre.ledger, lobby, text, post, turn));
            choose|noted: Ledger| #[trigger]
                notes_failure(pre.ledger, lobby, text, noted) && tries(
                    noted,
                    post.ledger,
                    post.at,
                    turn,
                )
        },
        Some((lobby, Ok(_))) => {
            assert(lobby_succeeds(pre.ledger, lobby, post, turn));
            choose|noted: Ledger| #[trigger]
                notes_success(pre.ledger, lobby, noted) && tries(
                    noted,
                    post.ledger,
                    post.at,
                    turn,
                )
        },
        None => {
            if let Event::Lobbies(lobbies) = event {
                choose|lined: Ledger| #[trigger]
                    lines_up(lined, to_recover(lobbies@, pre.guild_ids@)) && tries(
                        lined,
                        post.ledger,
                        post.at,
                        turn,
                    )
            } else {
                pre.ledger
            }
        },
    }
}

/// No lobby is tried more than three times: every pause starts another attempt, and there are
/// only as many attempts; the pauses last one second and two.
pub proof fn attempts_are_bounded(
    pre: RecoveryFlow,
    event: Event,
    post: RecoveryFlow,
    turn: Turn<ReadyRecoveryReport>,
)
    requires
        recovery_step(pre, event, post, turn),
        pre.ledger.attempt < RECONCILE_ATTEMPTS,
    ensures
        !(post.at is Over) ==> post.ledger.attempt < RECONCILE_ATTEMPTS,
        turn.next matches Next::Ask(Action::Sleep { seconds }) ==> 1 <= seconds <= 2
            && post.ledger.attempt == if pre.at is Listing {
            1
        } else {
            pre.ledger.attempt + 1
        },
        !(pre.at is Listing) && !(post.at is Over) && !(turn.next matches Next::Ask(
            Action::Sleep { .. },
        )) ==> post.ledger.attempt == pre.ledger.attempt,
{
    if moves_on(pre.at, event) {
        let from = steps_try_on(pre, event, post, turn);
        trying_goes_on(from, post.ledger, post.at, turn);
    }
}

/// A guild counts as refreshed only once a lobby of it was found and repainted, and a stray
/// reaction on its message cleared.
pub proof fn only_repainted_lobbies_count(
    pre: RecoveryFlow,
    event: Event,
    post: RecoveryFlow,
    turn: Turn<ReadyRecoveryReport>,
    guild: u64,
)
    requires
        recovery_step(pre, event, post, turn),
        !(pre.at is Listing),
        !(post.at is Over),
        post.ledger.refreshed@.contains(guild),
        !pre.ledger.refreshed@.contains(guild),
    ensures
        event matches Event::Done(Ok(_)),
        match pre.at {
            RecoveryAt::Painting { lobby, stray } => !stray && lobby.scope.guild_id == guild,
            RecoveryAt::Clearing { lobby } => lobby.scope.guild_id == guild,
            _ => false,
        },
{
    if moves_on(pre.at, event) {
        let from = steps_try_on(pre, event, post, turn);
        trying_goes_on(from, post.ledger, post.at, turn);
    }
}

/// The lobby that is being dealt with.
pub open spec fn dealt_with(at: RecoveryAt) -> Option<ShownLobby> {
    match at {
        RecoveryAt::Fetching { lobby } => Some(lobby),
        RecoveryAt::Painting { lobby, .. } => Some(lobby),
        RecoveryAt::Clearing { lobby } => Some(lobby),
        _ => None,
    }
}

/// The failure that is noted of a lobby.
pub open spec fn noted_of(ledger: Ledger, scope: LobbyScope) -> Option<Seq<char>> {
    let errors = errors_of(ledger, scope.kind);
    if errors.dom().contains(scope.guild_id) {
        Some(errors[scope.guild_id]@)
    } else {
        None
    }
}

proof fn failures_are_noted(
    pre: Ledger,
    lobby: ShownLobby,
    text: Seq<char>,
    post: Ledger,
    scope: LobbyScope,
)
    requires
        notes_failure(pre, lobby, text, post),
    ensures
        noted_of(post, scope) == if scope == lobby.scope {
            Some(text)
        } else {
            noted_of(pre, scope)
        },
{
    if scope.kind == lobby.scope.kind {
        if scope.guild_id != lobby.scope.guild_id && errors_of(pre, scope.kind).dom().contains(
            scope.guild_id,
        ) {
            assert(errors_of(post, scope.kind)[scope.guild_id] == errors_of(
                pre,
                scope.kind,
            )[scope.guild_id]);
        }
    } else {
        assert(crate::kinds::sibling(lobby.scope.kind) == scope.kind);
    }
}

proof fn successes_are_noted(pre: Ledger, lobby: ShownLobby, post: Ledger, scope: LobbyScope)
    requires
        notes_success(pre, lobby, post),
    ensures
        noted_of(post, scope) == if scope == lobby.scope {
            None
        } else {
            noted_of(pre, scope)
        },
{
    if scope.kind != lobby.scope.kind {
        assert(crate::kinds::sibling(lobby.scope.kind) == scope.kind);
    }
}

/// No two lobbies are the same lobby of a guild.
pub open spec fn distinct_scopes(lobbies: Seq<ShownLobby>) -> bool {
    forall|i: int, j: int|
        0 <= i < j < lobbies.len() ==> (#[trigger] lobbies[i]).scope != (#[trigger] lobbies[j]).scope
}

proof fn scopes_tell_lobbies_apart(lobbies: Seq<ShownLobby>, a: ShownLobby, b: ShownLobby)
    requires
        distinct_scopes(lobbies),
        lobbies.contains(a),
        lobbies.contains(b),
        a.scope == b.scope,
    ensures
        a == b,
{
    let i = choose|i: int| 0 <= i < lobbies.len() && lobbies[i] == a;
    let j = choose|j: int| 0 <= j < lobbies.len() && lobbies[j] == b;
    if i < j {
        assert(lobbies[i].scope != lobbies[j].scope);
    } else if j < i {
        assert(lobbies[j].scope != lobbies[i].scope);
    }
}

proof fn recoverable_guilds_are_valid(lobbies: Seq<LobbySnapshot>, guild_ids: Seq<u64>)
    ensures
        forall|i: int|
            0 <= i < to_recover(lobbies, guild_ids).len() ==> (#[trigger] to_recover(
                lobbies,
                guild_ids,
            )[i]).scope.guild_id >= 0,
    decreases lobbies.len(),
{
    if lobbies.len() > 0 {
        recoverable_guilds_are_valid(lobbies.drop_last(), guild_ids);
    }
}

/// The recovery deals with these lobbies and no others, and notes failures only of them.
spec fn within(ledger: Ledger, current: Option<ShownLobby>, all: Seq<ShownLobby>) -> bool {
    &&& forall|i: int| 0 <= i < ledger.rest@.len() ==> all.contains(#[trigger] ledger.rest@[i])
    &&& forall|i: int| 0 <= i < ledger.failed@.len() ==> all.contains(#[trigger] ledger.failed@[i])
    &&& current matches Some(lobby) ==> all.contains(lobby) && fault(lobby) is None
    &&& forall|scope: LobbyScope| #[trigger]
        noted_of(ledger, scope) is Some ==> exists|lobby: ShownLobby| #[trigger]
            all.contains(lobby) && lobby.scope == scope
}

/// The ledger accounts for a lobby whose tries came to this so far: one that was not tried yet is
/// still to be tried, and otherwise exactly a failed last try is noted.
spec fn accounts(
    ledger: Ledger,
    current: Option<ShownLobby>,
    all: Seq<ShownLobby>,
    lobby: ShownLobby,
    fate: Option<Result<(), Seq<char>>>,
) -> bool {
    &&& within(ledger, current, all)
    &&& match fault(lobby) {
        Some(text) => ledger.rest@.contains(lobby) || noted_of(ledger, lobby.scope) == Some(text),
        None => match fate {
            None => ledger.rest@.contains(lobby) || current == Some(lobby),
            Some(Ok(_)) => noted_of(ledger, lobby.scope) is None,
            Some(Err(text)) => noted_of(ledger, lobby.scope) == Some(text),
        },
    }
}

/// What the tries of a lobby came to: one whose message has ids that Discord cannot have issued
/// fails every time.
pub open spec fn fate_of(
    lobby: ShownLobby,
    fate: Option<Result<(), Seq<char>>>,
) -> Option<Result<(), Seq<char>>> {
    match fault(lobby) {
        Some(text) => Some(Err(text)),
        None => fate,
    }
}

/// The report says this of a lobby: the failure stands among its lines.
pub open spec fn reports_failure(
    report: ReadyRecoveryReport,
    lobby: ShownLobby,
    text: Seq<char>,
) -> bool {
    lines_of(report.failures@).contains(
        failure_line(lobby.scope.guild_id, lobby.scope.kind, text),
    )
}

/// The report says of a lobby what its last try came to: a failure has its line, with the text
/// of that try and no other, and a success has none.
pub open spec fn settles(
    report: ReadyRecoveryReport,
    lobby: ShownLobby,
    fate: Option<Result<(), Seq<char>>>,
) -> bool {
    match fate {
        None => false,
        Some(Ok(_)) => forall|text: Seq<char>| !#[trigger] reports_failure(report, lobby, text),
        Some(Err(text)) => forall|other: Seq<char>| #[trigger]
            reports_failure(report, lobby, other) <==> other == text,
    }
}

proof fn lines_tell_lobbies_apart(
    a: i64,
    a_kind: LobbyKind,
    a_text: Seq<char>,
    b: i64,
    b_kind: LobbyKind,
    b_text: Seq<char>,
)
    requires
        a >= 0,
        b >= 0,
        failure_line(a, a_kind, a_text) == failure_line(b, b_kind, b_text),
    ensures
        a == b,
        a_kind == b_kind,
        a_text == b_text,
{
    reveal_strlit("open");
    reveal_strlit("lowskill");
    let line = failure_line(a, a_kind, a_text).1;
    assert(line[0] == crate::kinds::kind_value(a_kind)[0]);
    assert(line[0] == crate::kinds::kind_value(b_kind)[0]);
    let head = crate::kinds::kind_value(a_kind) + ": "@;
    assert((head + a_text).skip(head.len() as int) =~= a_text);
    assert((head + b_text).skip(head.len() as int) =~= b_text);
}

/// The failures of these guilds hold a line of a lobby exactly where that failure is noted.
proof fn lines_are_the_failures(
    guilds: Seq<i64>,
    open: Map<i64, String>,
    low_skill: Map<i64, String>,
    guild: i64,
    kind: LobbyKind,
    text: Seq<char>,
)
    requires
        guild >= 0,
        forall|i: int| 0 <= i < guilds.len() ==> #[trigger] guilds[i] >= 0,
    ensures
        failure_lines(guilds, open, low_skill).contains(failure_line(guild, kind, text)) <==> {
            let errors = if kind == LobbyKind::Open {
                open
            } else {
                low_skill
            };
            guilds.contains(guild) && errors.dom().contains(guild) && errors[guild]@ == text
        },
    decreases guilds.len(),
{
    let line = failure_line(guild, kind, text);
    if guilds.len() > 0 {
        let head = guilds.drop_last();
        let last = guilds.last();
        let errors = if kind == LobbyKind::Open {
            open
        } else {
            low_skill
        };
        assert forall|i: int| 0 <= i < head.len() implies #[trigger] head[i] >= 0 by {
            assert(guilds[i] >= 0);
        }
        lines_are_the_failures(head, open, low_skill, guild, kind, text);
        let before = failure_lines(head, open, low_skill);
        let added = guild_failures(last, open, low_skill);
        vstd::seq_lib::lemma_seq_concat_contains_all_elements(before, added, line);
        assert(last >= 0) by {
            assert(guilds[guilds.len() - 1] >= 0);
        }
        assert(guilds.contains(guild) <==> head.contains(guild) || guild == last) by {
            assert(guilds =~= head.push(last));
            assert(guilds[guilds.len() - 1] == last);
            if head.contains(guild) {
                let k = choose|k: int| 0 <= k < head.len() && head[k] == guild;
                assert(guilds[k] == guild);
            }
            if guilds.contains(guild) {
                let k = choose|k: int| 0 <= k < guilds.len() && guilds[k] == guild;
                assert(k == head.len() || head[k] == guild);
            }
        }
        if added.contains(line) {
            let k = choose|k: int| 0 <= k < added.len() && added[k] == line;
            if k == 0 && open.dom().contains(last) {
                lines_tell_lobbies_apart(last, LobbyKind::Open, open[last]@, guild, kind, text);
            } else {
                lines_tell_lobbies_apart(
                    last,
                    LobbyKind::LowSkill,
                    low_skill[last]@,
                    guild,
                    kind,
                    text,
                );
            }
        }
        if guild == last && errors.dom().contains(guild) && errors[guild]@ == text {
            if kind == LobbyKind::Open {
                assert(added[0] == line);
            } else {
                assert(added[added.len() - 1] == line);
            }
            assert(added.contains(line));
        }
    }
}

proof fn reports_tell_what_is_noted(
    report: ReadyRecoveryReport,
    ledger: Ledger,
    all: Seq<ShownLobby>,
    lobby: ShownLobby,
    text: Seq<char>,
)
    requires
        reports_recovery(report, ledger),
        within(ledger, None, all),
        forall|i: int| 0 <= i < all.len() ==> (#[trigger] all[i]).scope.guild_id >= 0,
        all.contains(lobby),
    ensures
        reports_failure(report, lobby, text) <==> noted_of(ledger, lobby.scope) == Some(text),
{
    let keys = ledger.open_errors@.dom().union(ledger.low_skill_errors@.dom());
    let guilds = crate::sets::listing(keys);
    crate::sets::finite_sets_can_be_listed(keys);
    assert forall|i: int| 0 <= i < guilds.len() implies #[trigger] guilds[i] >= 0 by {
        let guild = guilds[i];
        assert(guilds.contains(guild));
        let kind = if ledger.open_errors@.dom().contains(guild) {
            LobbyKind::Open
        } else {
            LobbyKind::LowSkill
        };
        let scope = LobbyScope { guild_id: guild, kind };
        assert(noted_of(ledger, scope) is Some);
        let known = choose|known: ShownLobby| #[trigger]
            all.contains(known) && known.scope == scope;
        let k = choose|k: int| 0 <= k < all.len() && all[k] == known;
        assert(all[k].scope.guild_id >= 0);
    }
    let k = choose|k: int| 0 <= k < all.len() && all[k] == lobby;
    assert(all[k].scope.guild_id >= 0);
    lines_are_the_failures(
        guilds,
        ledger.open_errors@,
        ledger.low_skill_errors@,
        lobby.scope.guild_id,
        lobby.scope.kind,
        text,
    );
    assert(guilds.contains(lobby.scope.guild_id) <==> keys.contains(lobby.scope.guild_id));
}

proof fn trying_keeps_account(
    pre: Ledger,
    post: Ledger,
    at: RecoveryAt,
    turn: Turn<ReadyRecoveryReport>,
    all: Seq<ShownLobby>,
    lobby: ShownLobby,
    fate: Option<Result<(), Seq<char>>>,
)
    requires
        tries(pre, post, at, turn),
        distinct_scopes(all),
        forall|i: int| 0 <= i < all.len() ==> (#[trigger] all[i]).scope.guild_id >= 0,
        all.contains(lobby),
        accounts(pre, None, all, lobby, fate),
    ensures
        !(at is Over) ==> accounts(post, dealt_with(at), all, lobby, fate),
        at is Over ==> (turn.next matches Next::End(report) && settles(
            report,
            lobby,
            fate_of(lobby, fate),
        )),
    decreases pre.rest@.len(),
{
    let rest = pre.rest@;
    if rest.len() == 0 {
        if at is Over {
            if let Next::End(report) = turn.next {
                assert forall|text: Seq<char>| #[trigger]
                    reports_failure(report, lobby, text) <==> noted_of(pre, lobby.scope) == Some(
                        text,
                    ) by {
                    reports_tell_what_is_noted(report, pre, all, lobby, text);
                }
            }
        } else {
            assert(forall|scope: LobbyScope|
                #[trigger] noted_of(post, scope) == noted_of(pre, scope));
        }
    } else {
        let first = rest[0];
        assert(all.contains(first));
        if rest.contains(lobby) && lobby != first {
            let k = choose|k: int| 0 <= k < rest.len() && rest[k] == lobby;
            assert(rest.drop_first()[k - 1] == lobby);
        }
        assert forall|i: int| 0 <= i < rest.drop_first().len() implies all.contains(
            #[trigger] rest.drop_first()[i],
        ) by {
            assert(all.contains(rest[i + 1]));
        }
        match crate::lobby::first_bad_id(first.channel_id, first.message_id, 0) {
            None => {
                assert(forall|scope: LobbyScope|
                    #[trigger] noted_of(post, scope) == noted_of(pre, scope));
            },
            Some(bad) => {
                let text = crate::ids::bad_snowflake_text(bad as int);
                let (taken, noted) = choose|taken: Ledger, noted: Ledger|
                    {
                        &&& takes_first(pre, taken)
                        &&& #[trigger] notes_failure(taken, first, text, noted)
                        &&& noted.rest@.len() < pre.rest@.len()
                        &&& tries(noted, post, at, turn)
                    };
                assert(forall|scope: LobbyScope|
                    #[trigger] noted_of(taken, scope) == noted_of(pre, scope));
                fails_within(taken, first, text, noted, all);
                failures_are_noted(taken, first, text, noted, lobby.scope);
                if lobby.scope == first.scope {
                    scopes_tell_lobbies_apart(all, lobby, first);
                }
                trying_keeps_account(noted, post, at, turn, all, lobby, fate);
            },
        }
    }
}

proof fn fails_within(
    pre: Ledger,
    lobby: ShownLobby,
    text: Seq<char>,
    post: Ledger,
    all: Seq<ShownLobby>,
)
    requires
        notes_failure(pre, lobby, text, post),
        within(pre, None, all),
        all.contains(lobby),
    ensures
        within(post, None, all),
{
    assert forall|scope: LobbyScope| #[trigger] noted_of(post, scope) is Some implies exists|
        known: ShownLobby,
    | #[trigger] all.contains(known) && known.scope == scope by {
        failures_are_noted(pre, lobby, text, post, scope);
        if scope == lobby.scope {
            assert(all.contains(lobby) && lobby.scope == scope);
        } else {
            assert(noted_of(pre, scope) is Some);
        }
    }
}

proof fn succeeds_within(
    pre: Ledger,
    lobby: ShownLobby,
    post: Ledger,
    all: Seq<ShownLobby>,
)
    requires
        notes_success(pre, lobby, post),
        within(pre, None, all),
    ensures
        within(post, None, all),
{
    assert forall|scope: LobbyScope| #[trigger] noted_of(post, scope) is Some implies exists|
        known: ShownLobby,
    | #[trigger] all.contains(known) && known.scope == scope by {
        successes_are_noted(pre, lobby, post, scope);
        assert(noted_of(pre, scope) is Some);
    }
}

/// What is known of a lobby's tries after an event, given what was known before it.
pub open spec fn fate_after(
    at: RecoveryAt,
    event: Event,
    lobby: ShownLobby,
    fate: Option<Result<(), Seq<char>>>,
) -> Option<Result<(), Seq<char>>> {
    match try_ends(at, event) {
        Some((tried, end)) => if tried == lobby {
            Some(end)
        } else {
            fate
        },
        None => fate,
    }
}

proof fn steps_keep_account(
    pre: RecoveryFlow,
    event: Event,
    post: RecoveryFlow,
    turn: Turn<ReadyRecoveryReport>,
    all: Seq<ShownLobby>,
    lobby: ShownLobby,
    fate: Option<Result<(), Seq<char>>>,
)
    requires
        recovery_step(pre, event, post, turn),
        !(pre.at is Over),
        !(pre.at is Listing),
        distinct_scopes(all),
        forall|i: int| 0 <= i < all.len() ==> (#[trigger] all[i]).scope.guild_id >= 0,
        all.contains(lobby),
        accounts(pre.ledger, dealt_with(pre.at), all, lobby, fate),
    ensures
        !(post.at is Over) ==> accounts(
            post.ledger,
            dealt_with(post.at),
            all,
            lobby,
            fate_after(pre.at, event, lobby, fate),
        ),
        post.at is Over ==> (turn.next matches Next::End(report) && settles(
            report,
            lobby,
            fate_of(lobby, fate_after(pre.at, event, lobby, fate)),
        )),
{
    if moves_on(pre.at, event) {
        let from = steps_try_on(pre, event, post, turn);
        assert(within(pre.ledger, None, all));
        if let Some((tried, end)) = try_ends(pre.at, event) {
            assert(dealt_with(pre.at) == Some(tried));
            match end {
                Err(text) => {
                    fails_within(pre.ledger, tried, text, from, all);
                    failures_are_noted(pre.ledger, tried, text, from, lobby.scope);
                },
                Ok(_) => {
                    succeeds_within(pre.ledger, tried, from, all);
                    successes_are_noted(pre.ledger, tried, from, lobby.scope);
                },
            }
            if tried.scope == lobby.scope {
                scopes_tell_lobbies_apart(all, tried, lobby);
            }
        }
        trying_keeps_account(
            from,
            post.ledger,
            post.at,
            turn,
            all,
            lobby,
            fate_after(pre.at, event, lobby, fate),
        );
    }
}

/// A run of the recovery: it starts, and every turn follows from what came of the one before.
pub open spec fn recovery_run(
    guild_ids: Seq<u64>,
    states: Seq<RecoveryFlow>,
    events: Seq<Event>,
    turns: Seq<Turn<ReadyRecoveryReport>>,
) -> bool {
    &&& states.len() == events.len() + 1
    &&& turns.len() == events.len()
    &&& states[0].guild_ids@ == guild_ids
    &&& lines_up(states[0].ledger, Seq::empty())
    &&& states[0].at is Listing
    &&& forall|n: int|
        0 <= n < events.len() ==> recovery_step(
            states[n],
            #[trigger] events[n],
            states[n + 1],
            turns[n],
        )
}

/// Turn `c` of the run is the one in which the open lobbies were listed.
pub open spec fn lists_lobbies(
    states: Seq<RecoveryFlow>,
    events: Seq<Event>,
    c: int,
    lobbies: Vec<LobbySnapshot>,
) -> bool {
    &&& 0 <= c < events.len()
    &&& states[c].at is Listing
    &&& events[c] == Event::Lobbies(lobbies)
}

/// What the last of a lobby's tries came to that ended before turn `n`, if one did.
pub open spec fn last_try(
    states: Seq<RecoveryFlow>,
    events: Seq<Event>,
    lobby: ShownLobby,
    n: int,
) -> Option<Result<(), Seq<char>>>
    decreases n,
{
    if n <= 0 {
        None
    } else {
        fate_after(
            states[n - 1].at,
            events[n - 1],
            lobby,
            last_try(states, events, lobby, n - 1),
        )
    }
}

proof fn nothing_is_tried_before_the_list(
    guild_ids: Seq<u64>,
    states: Seq<RecoveryFlow>,
    events: Seq<Event>,
    turns: Seq<Turn<ReadyRecoveryReport>>,
    lobby: ShownLobby,
    n: int,
)
    requires
        recovery_run(guild_ids, states, events, turns),
        0 <= n < states.len(),
    ensures
        states[n].guild_ids@ == guild_ids,
        states[n].at is Listing ==> last_try(states, events, lobby, n) is None,
    decreases n,
{
    if n > 0 {
        nothing_is_tried_before_the_list(guild_ids, states, events, turns, lobby, n - 1);
        assert(recovery_step(states[n - 1], events[n - 1], states[n], turns[n - 1]));
        if moves_on(states[n - 1].at, events[n - 1]) {
            let from = steps_try_on(states[n - 1], events[n - 1], states[n], turns[n - 1]);
            trying_goes_on(from, states[n].ledger, states[n].at, turns[n - 1]);
        }
    }
}

proof fn runs_keep_account(
    guild_ids: Seq<u64>,
    states: Seq<RecoveryFlow>,
    events: Seq<Event>,
    turns: Seq<Turn<ReadyRecoveryReport>>,
    lobbies: Vec<LobbySnapshot>,
    c: int,
    lobby: ShownLobby,
    n: int,
)
    requires
        recovery_run(guild_ids, states, events, turns),
        lists_lobbies(states, events, c, lobbies),
        distinct_scopes(to_recover(lobbies@, guild_ids)),
        to_recover(lobbies@, guild_ids).contains(lobby),
        c < n < states.len(),
    ensures
        !(states[n].at is Listing),
        !(states[n].at is Over) ==> accounts(
            states[n].ledger,
            dealt_with(states[n].at),
            to_recover(lobbies@, guild_ids),
            lobby,
            last_try(states, events, lobby, n),
        ),
        states[n].at is Over && !(states[n - 1].at is Over) ==> (turns[n - 1].next matches Next::End(
            report,
        ) && settles(report, lobby, fate_of(lobby, last_try(states, events, lobby, n)))),
    decreases n,
{
    let all = to_recover(lobbies@, guild_ids);
    recoverable_guilds_are_valid(lobbies@, guild_ids);
    let (pre, event, post, turn) = (states[n - 1], events[n - 1], states[n], turns[n - 1]);
    assert(recovery_step(pre, event, post, turn));
    if moves_on(pre.at, event) {
        let from = steps_try_on(pre, event, post, turn);
        trying_goes_on(from, post.ledger, post.at, turn);
        if n == c + 1 {
            nothing_is_tried_before_the_list(guild_ids, states, events, turns, lobby, c);
            assert(forall|scope: LobbyScope| #[trigger] noted_of(from, scope) is None);
            assert(accounts(from, None, all, lobby, None));
            trying_keeps_account(from, post.ledger, post.at, turn, all, lobby, None);
        }
    }
    if n > c + 1 {
        runs_keep_account(guild_ids, states, events, turns, lobbies, c, lobby, n - 1);
        if !(pre.at is Over) {
            steps_keep_account(
                pre,
                event,
                post,
                turn,
                all,
                lobby,
                last_try(states, events, lobby, n - 1),
            );
        }
    }
}

/// The report of a recovery accounts for every lobby that was to be recovered, each being listed
/// once: every one was tried; a lobby whose last try failed has its line among the failures, with
/// what went wrong in that try, and a lobby whose last try succeeded has none.
pub proof fn recovery_accounts_for_every_lobby(
    guild_ids: Seq<u64>,
    states: Seq<RecoveryFlow>,
    events: Seq<Event>,
    turns: Seq<Turn<ReadyRecoveryReport>>,
    lobbies: Vec<LobbySnapshot>,
    c: int,
    lobby: ShownLobby,
    n: int,
    report: ReadyRecoveryReport,
)
    requires
        recovery_run(guild_ids, states, events, turns),
        lists_lobbies(states, events, c, lobbies),
        distinct_scopes(to_recover(lobbies@, guild_ids)),
        to_recover(lobbies@, guild_ids).contains(lobby),
        c <= n < turns.len(),
        turns[n].next == Next::End(report),
    ensures
        match fate_of(lobby, last_try(states, events, lobby, n + 1)) {
            Some(Err(text)) => forall|other: Seq<char>| #[trigger]
                reports_failure(report, lobby, other) <==> other == text,
            Some(Ok(_)) => forall|text: Seq<char>| !#[trigger] reports_failure(report, lobby, text),
            None => false,
        },
{
    assert(recovery_step(states[n], events[n], states[n + 1], turns[n]));
    assert(moves_on(states[n].at, events[n]));
    let from = steps_try_on(states[n], events[n], states[n + 1], turns[n]);
    trying_goes_on(from, states[n + 1].ledger, states[n + 1].at, turns[n]);
    runs_keep_account(guild_ids, states, events, turns, lobbies, c, lobby, n + 1);
}

/// The guilds of which a lobby was brought up to date before turn `n` of the run.
pub open spec fn mended(states: Seq<RecoveryFlow>, events: Seq<Event>, n: int) -> Set<u64>
    decreases n,
{
    if n <= 0 {
        Set::empty()
    } else {
        let earlier = mended(states, events, n - 1);
        match try_ends(states[n - 1].at, events[n - 1]) {
            Some((lobby, Ok(_))) => if lobby.scope.guild_id >= 0 {
                earlier.insert(lobby.scope.guild_id as u64)
            } else {
                earlier
            },
            _ => earlier,
        }
    }
}

proof fn trying_keeps_counts(
    pre: Ledger,
    post: Ledger,
    at: RecoveryAt,
    turn: Turn<ReadyRecoveryReport>,
)
    requires
        tries(pre, post, at, turn),
    ensures
        !(at is Over) ==> post.attempted@ == pre.attempted@ && post.refreshed@ == pre.refreshed@,
        at is Over ==> (turn.next matches Next::End(report) && report.guilds_attempted
            == pre.attempted@.len() && report.guilds_refreshed == pre.refreshed@.len()),
    decreases pre.rest@.len(),
{
    if pre.rest@.len() > 0 {
        let lobby = pre.rest@[0];
        if let Some(bad) = crate::lobby::first_bad_id(lobby.channel_id, lobby.message_id, 0) {
            let (taken, noted) = choose|taken: Ledger, noted: Ledger|
                {
                    &&& takes_first(pre, taken)
                    &&& #[trigger] notes_failure(
                        taken,
                        lobby,
                        crate::ids::bad_snowflake_text(bad as int),
                        noted,
                    )
                    &&& noted.rest@.len() < pre.rest@.len()
                    &&& tries(noted, post, at, turn)
                };
            trying_keeps_counts(noted, post, at, turn);
        }
    }
}

proof fn runs_keep_counts(
    guild_ids: Seq<u64>,
    states: Seq<RecoveryFlow>,
    events: Seq<Event>,
    turns: Seq<Turn<ReadyRecoveryReport>>,
    lobbies: Vec<LobbySnapshot>,
    c: int,
    n: int,
)
    requires
        recovery_run(guild_ids, states, events, turns),
        lists_lobbies(states, events, c, lobbies),
        c < n < states.len(),
    ensures
        !(states[n].at is Listing),
        !(states[n].at is Over) ==> {
            &&& states[n].ledger.attempted@ == guilds_of(to_recover(lobbies@, guild_ids))
            &&& states[n].ledger.refreshed@ == mended(states, events, n)
        },
        turns[n - 1].next matches Next::End(report) ==> {
            &&& report.guilds_attempted == guilds_of(to_recover(lobbies@, guild_ids)).len()
            &&& report.guilds_refreshed == mended(states, events, n).len()
        },
    decreases n,
{
    let (pre, event, post, turn) = (states[n - 1], events[n - 1], states[n], turns[n - 1]);
    assert(recovery_step(pre, event, post, turn));
    if n == c + 1 {
        nothing_is_mended_before_the_list(guild_ids, states, events, turns, c);
    } else {
        runs_keep_counts(guild_ids, states, events, turns, lobbies, c, n - 1);
    }
    if moves_on(pre.at, event) {
        let from = steps_try_on(pre, event, post, turn);
        trying_goes_on(from, post.ledger, post.at, turn);
        trying_keeps_counts(from, post.ledger, post.at, turn);
    }
}

proof fn nothing_is_mended_before_the_list(
    guild_ids: Seq<u64>,
    states: Seq<RecoveryFlow>,
    events: Seq<Event>,
    turns: Seq<Turn<ReadyRecoveryReport>>,
    n: int,
)
    requires
        recovery_run(guild_ids, states, events, turns),
        0 <= n < states.len(),
        states[n].at is Listing,
    ensures
        states[n].guild_ids@ == guild_ids,
        mended(states, events, n) == Set::<u64>::empty(),
    decreases n,
{
    if n > 0 {
        assert(recovery_step(states[n - 1], events[n - 1], states[n], turns[n - 1]));
        if moves_on(states[n - 1].at, events[n - 1]) {
            let from = steps_try_on(states[n - 1], events[n - 1], states[n], turns[n - 1]);
            trying_goes_on(from, states[n].ledger, states[n].at, turns[n - 1]);
        }
        nothing_is_mended_before_the_list(guild_ids, states, events, turns, n - 1);
    }
}

/// The report of a recovery counts the guilds that had a lobby to be recovered, and those of them
/// of which a lobby was brought up to date in the run.
pub proof fn recovery_counts_its_guilds(
    guild_ids: Seq<u64>,
    states: Seq<RecoveryFlow>,
    events: Seq<Event>,
    turns: Seq<Turn<ReadyRecoveryReport>>,
    lobbies: Vec<LobbySnapshot>,
    c: int,
    n: int,
    report: ReadyRecoveryReport,
)
    requires
        recovery_run(guild_ids, states, events, turns),
        lists_lobbies(states, events, c, lobbies),
        c <= n < turns.len(),
        turns[n].next == Next::End(report),
    ensures
        report.guilds_attempted == guilds_of(to_recover(lobbies@, guild_ids)).len(),
        report.guilds_refreshed == mended(states, events, n + 1).len(),
{
    runs_keep_counts(guild_ids, states, events, turns, lobbies, c, n + 1);
}

impl RecoveryFlow {
    /// What is waited for: the answer to this question.
    pub open spec fn awaits(self, action: Action) -> bool {
        match self.at {
            RecoveryAt::Listing => action is ListLobbies,
            RecoveryAt::Fetching { .. } => action is Fetch,
            RecoveryAt::Painting { .. } => action is SyncDisplay,
            RecoveryAt::Clearing { .. } => action is ClearReaction,
            RecoveryAt::Sleeping => action is Sleep,
            RecoveryAt::Over => false,
        }
    }
}

/// The recovery is never left waiting by the answer to what it asked for: it goes on to its end or
/// to its next question, and waits for the answer to that.
pub proof fn recoveries_go_on_when_answered(
    pre: RecoveryFlow,
    asked: Action,
    event: Event,
    post: RecoveryFlow,
    turn: Turn<ReadyRecoveryReport>,
)
    requires
        recovery_step(pre, event, post, turn),
        pre.awaits(asked),
        asked.answered_by(event),
    ensures
        turn.goes_on(|action: Action| post.awaits(action)),
{
    if moves_on(pre.at, event) {
        let from = steps_try_on(pre, event, post, turn);
        trying_goes_on(from, post.ledger, post.at, turn);
    }
}

/// The lobbies to be recovered are those of the given guilds that are shown by a message, each where
/// it is shown, and no others.
pub proof fn shown_lobbies_are_recovered(
    lobbies: Seq<LobbySnapshot>,
    guild_ids: Seq<u64>,
    shown: ShownLobby,
)
    ensures
        to_recover(lobbies, guild_ids).contains(shown) <==> exists|i: int|
            {
                &&& 0 <= i < lobbies.len()
                &&& (#[trigger] lobbies[i]).scope == shown.scope
                &&& lobbies[i].message_ids.channel_id == Some(shown.channel_id)
                &&& lobbies[i].message_ids.message_id == Some(shown.message_id)
                &&& shown.scope.guild_id >= 0
                &&& guild_ids.contains(shown.scope.guild_id as u64)
            },
    decreases lobbies.len(),
{
    let all = to_recover(lobbies, guild_ids);
    if lobbies.len() > 0 {
        let before = lobbies.drop_last();
        let last = lobbies.last();
        let rest = to_recover(before, guild_ids);
        shown_lobbies_are_recovered(before, guild_ids, shown);
        if rest.contains(shown) {
            let k = choose|k: int| 0 <= k < rest.len() && rest[k] == shown;
            assert(all[k] == shown);
            let i = choose|i: int|
                {
                    &&& 0 <= i < before.len()
                    &&& (#[trigger] before[i]).scope == shown.scope
                    &&& before[i].message_ids.channel_id == Some(shown.channel_id)
                    &&& before[i].message_ids.message_id == Some(shown.message_id)
                    &&& shown.scope.guild_id >= 0
                    &&& guild_ids.contains(shown.scope.guild_id as u64)
                };
            assert(lobbies[i] == before[i]);
        }
        if recoverable(last, guild_ids) == Some(shown) {
            assert(all[all.len() - 1] == shown);
            assert(lobbies[lobbies.len() - 1] == last);
        }
        if all.contains(shown) && !rest.contains(shown) {
            let k = choose|k: int| 0 <= k < all.len() && all[k] == shown;
            if k < rest.len() {
                assert(rest[k] == shown);
            }
        }
        assert forall|i: int|
            {
                &&& 0 <= i < lobbies.len()
                &&& (#[trigger] lobbies[i]).scope == shown.scope
                &&& lobbies[i].message_ids.channel_id == Some(shown.channel_id)
                &&& lobbies[i].message_ids.message_id == Some(shown.message_id)
                &&& shown.scope.guild_id >= 0
                &&& guild_ids.contains(shown.scope.guild_id as u64)
            } implies all.contains(shown) by {
            if i < lobbies.len() - 1 {
                assert(before[i] == lobbies[i]);
            }
        }
    }
}

/// A lobby is recovered on its own message: that is looked up, and if it is there the lobby is
/// repainted; if it carries the old emoji, that is cleared off it. A recovery begins by listing the
/// lobbies.
pub proof fn lobbies_are_recovered_on_their_own_message(
    guild_ids: Vec<u64>,
    start: RecoveryFlow,
    first: Turn<ReadyRecoveryReport>,
    pre: RecoveryFlow,
    event: Event,
    post: RecoveryFlow,
    turn: Turn<ReadyRecoveryReport>,
)
    requires
        recovery_starts(guild_ids, start, first),
        recovery_step(pre, event, post, turn),
    ensures
        start.guild_ids == guild_ids,
        first.next == Next::<ReadyRecoveryReport>::Ask(Action::ListLobbies),
        pre.at matches RecoveryAt::Fetching { lobby } ==> (event matches Event::Fetched(
            Ok(Some(message)),
        ) ==> {
            &&& turn.next == Next::<ReadyRecoveryReport>::Ask(
                Action::SyncDisplay { scope: lobby.scope },
            )
            &&& post.at matches RecoveryAt::Painting { lobby: painted, stray } && painted == lobby
                && (stray <==> exists|i: int|
                0 <= i < message.reactions@.len() && #[trigger] message.reactions@[i].id == Some(
                    1_463_270_458_848_842_003u64,
                ))
        }),
        pre.at matches RecoveryAt::Painting { lobby, stray } ==> (event matches Event::Done(Ok(_))
            ==> (stray && lobby.channel_id >= 0 && lobby.message_id >= 0 ==> (
        turn.next matches Next::Ask(Action::ClearReaction { channel_id, message_id, emoji })
            && channel_id == lobby.channel_id && message_id == lobby.message_id && emoji.id == Some(
            1_463_270_458_848_842_003u64,
        )))),
{
}

/// Every lobby that is looked up is the one that is then dealt with.
pub proof fn lookups_are_for_the_lobby_at_hand(
    pre: Ledger,
    post: Ledger,
    at: RecoveryAt,
    turn: Turn<ReadyRecoveryReport>,
)
    requires
        tries(pre, post, at, turn),
    ensures
        turn.next matches Next::Ask(Action::Fetch { channel_id, message_id }) ==> (
        at matches RecoveryAt::Fetching { lobby } && lobby.channel_id == channel_id
            && lobby.message_id == message_id && pre.rest@.contains(lobby)),
        turn.next matches Next::Ask(action) ==> action is Fetch || action is Sleep,
    decreases pre.rest@.len(),
{
    if pre.rest@.len() > 0 {
        let lobby = pre.rest@[0];
        if let Some(bad) = crate::lobby::first_bad_id(lobby.channel_id, lobby.message_id, 0) {
            let (taken, noted) = choose|taken: Ledger, noted: Ledger|
                {
                    &&& takes_first(pre, taken)
                    &&& #[trigger] notes_failure(
                        taken,
                        lobby,
                        crate::ids::bad_snowflake_text(bad as int),
                        noted,
                    )
                    &&& noted.rest@.len() < pre.rest@.len()
                    &&& tries(noted, post, at, turn)
                };
            lookups_are_for_the_lobby_at_hand(noted, post, at, turn);
            if let RecoveryAt::Fetching { lobby: next } = at {
                if noted.rest@.contains(next) {
                    let k = choose|k: int| 0 <= k < noted.rest@.len() && noted.rest@[k] == next;
                    assert(pre.rest@[k + 1] == next);
                }
            }
        }
    }
}

/// The report of a recovery is that of the lobbies: it goes under their name, supersedes no guild and
/// refreshes no member.
pub proof fn recoveries_report_for_the_lobbies(report: ReadyRecoveryReport, ledger: Ledger)
    requires
        reports_recovery(report, ledger),
    ensures
        report.observer@ == RECOVERY_NAME@,
        report.guilds_superseded == 0 && report.members_refreshed == 0,
        report.guilds_attempted == ledger.attempted@.len(),
        report.guilds_refreshed == ledger.refreshed@.len(),
{
}

} // verus!
