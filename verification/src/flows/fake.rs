//! Filling the open lobby with made-up players.
use vstd::prelude::*;
use std::collections::BTreeMap;
use crate::config::LobbyRuntimeConfig;
use crate::fakes::FakeCount;
use crate::fakes::backdate_offset;
use crate::fakes::decide_count;
use crate::fakes::make_up;
use crate::fakes::name_fake;
use crate::fakes::next_index;
use crate::fakes::too_many;
use crate::joining::JoinOutcome;
use crate::joining::Player;
use crate::kinds::LobbyKind;
use crate::kinds::LobbyScope;
use crate::lobby::JoinTime;
use crate::lobby::LobbySnapshot;
use crate::protocol::Action;
use crate::protocol::AddOutcome;
use crate::protocol::CreationFailure;
use crate::protocol::Event;
use crate::protocol::Next;
use crate::protocol::Turn;
use crate::sets::count;
use crate::sets::key_count;
use crate::text::text2;

verus! {

/// How many players were made up, and who; or that there were enough already.
#[derive(Clone, Debug, PartialEq, Eq)]
pub struct AdminFakeLobbyResult {
    pub users_added: usize,
    pub user_names: Vec<String>,
    pub already_at_threshold: Option<(usize, usize)>,
}

/// How filling a lobby ends.
pub type Filled = Result<AdminFakeLobbyResult, String>;

/// What is left to do, and what was done.
#[derive(Debug, PartialEq, Eq)]
pub struct FakeJob {
    pub now: JoinTime,
    pub first_index: i64,
    pub count: usize,
    pub offset: usize,
    pub names: Vec<String>,
    pub backdated: BTreeMap<i64, u64>,
}

/// The made-up player whose turn it is.
#[derive(Clone, Copy, Debug, PartialEq, Eq, Structural)]
pub struct FakeSeat {
    pub index: i64,
    pub id: i64,
}

/// Where filling the lobby stands.
#[derive(Debug, PartialEq, Eq)]
pub enum FakeAt {
    /// The lobby is being read or created.
    Creating,
    /// The clock is being read.
    Clocking { first_index: i64, count: usize },
    /// A made-up player is being looked up.
    Loading { job: FakeJob, seat: FakeSeat },
    /// A made-up player is being stored.
    Adding { job: FakeJob, seat: FakeSeat },
    /// A made-up player is being put into the lobby.
    Joining { job: FakeJob, seat: FakeSeat },
    /// The join times are being set back.
    Backdating { names: Vec<String>, expected: usize },
    /// Nothing is left to be done.
    Over,
}

/// Filling a lobby, in progress. Where no number was asked for, the lobby is filled up.
#[derive(Debug, PartialEq, Eq)]
pub struct FakeFlow {
    pub guild_id: i64,
    pub requested: Option<usize>,
    pub at: FakeAt,
}

/// The lobby that is filled.
pub open spec fn fake_scope(guild_id: i64) -> LobbyScope {
    LobbyScope { guild_id, kind: LobbyKind::Open }
}

/// The scope is taken, and the lobby is read or created.
pub open spec fn fake_starts(
    guild_id: i64,
    requested: Option<usize>,
    flow: FakeFlow,
    turn: Turn<Filled>,
) -> bool {
    &&& flow == (FakeFlow { guild_id, requested, at: FakeAt::Creating })
    &&& turn.before@.len() == 1
    &&& turn.before@[0] == (Action::Lock { scope: fake_scope(guild_id) })
    &&& turn.next == Next::<Filled>::Ask(
        Action::CreateLobby { creator: None, scope: fake_scope(guild_id) },
    )
}

/// The scope is given free, and filling ends with this failure.
pub open spec fn fake_fails(
    guild_id: i64,
    post: FakeAt,
    turn: Turn<Filled>,
    text: Seq<char>,
) -> bool {
    &&& post is Over
    &&& turn.before@.len() == 1
    &&& turn.before@[0] == (Action::Unlock { scope: fake_scope(guild_id) })
    &&& turn.next matches Next::End(Err(error)) && error@ == text
}

/// The lobby was read or created: it is decided how many players are made up.
pub open spec fn fake_created(
    guild_id: i64,
    requested: Option<usize>,
    created: Result<LobbySnapshot, CreationFailure>,
    config: LobbyRuntimeConfig,
    post: FakeAt,
    turn: Turn<Filled>,
) -> bool {
    match created {
        Err(failure) => fake_fails(guild_id, post, turn, failure.report@),
        Ok(lobby) => {
            let current = lobby.players@.len();
            match crate::fakes::fake_count(requested, current as int, config) {
                FakeCount::TooMany(count) => fake_fails(
                    guild_id,
                    post,
                    turn,
                    crate::fakes::too_many_text(
                        count as int,
                        current as int,
                        config.max_players as int,
                    ),
                ),
                FakeCount::Enough => {
                    &&& post is Over
                    &&& turn.before@.len() == 1
                    &&& turn.before@[0] == (Action::Unlock { scope: fake_scope(guild_id) })
                    &&& turn.next matches Next::End(Ok(result)) && result.users_added == 0
                        && result.user_names@.len() == 0 && (
                    result.already_at_threshold matches Some((players, threshold)) && players
                        == current && threshold == config.ready_threshold)
                },
                FakeCount::Add(count) => {
                    &&& post matches FakeAt::Clocking { first_index, count: c } && c == count
                        && crate::fakes::next_number(lobby.players@, first_index)
                    &&& turn.only_asks(Action::ReadClock)
                },
            }
        },
    }
}

/// The next made-up player is looked up; after the last one the join times are set back where
/// that is due, and filling is over.
pub open spec fn fake_goes_on(
    guild_id: i64,
    job: FakeJob,
    post: FakeAt,
    turn: Turn<Filled>,
) -> bool {
    let index = job.first_index + job.offset;
    if job.offset < job.count {
        if index > i64::MAX {
            fake_fails(guild_id, post, turn, "fake-user index overflow"@)
        } else if index == i64::MIN {
            fake_fails(guild_id, post, turn, "fake-user id overflow"@)
        } else {
            &&& post == (FakeAt::Loading {
                job: FakeJob { offset: (job.offset + 1) as usize, ..job },
                seat: FakeSeat { index: index as i64, id: (-index) as i64 },
            })
            &&& turn.only_asks(Action::LoadPlayer { player_id: (-index) as i64, guild_id })
        }
    } else if job.backdated@.dom().is_empty() {
        fake_finishes(guild_id, job.names@, post, turn)
    } else {
        &&& post matches FakeAt::Backdating { names, expected } && names == job.names && expected
            == job.backdated@.dom().len()
        &&& turn.only_asks(
            Action::Backdate {
                scope: fake_scope(guild_id),
                now: job.now,
                seconds: job.backdated,
            },
        )
    }
}

/// Filling is over: the ready checks take the lobby over, its message is brought up to date, and
/// the made-up players are reported.
pub open spec fn fake_finishes(
    guild_id: i64,
    names: Seq<String>,
    post: FakeAt,
    turn: Turn<Filled>,
) -> bool {
    let scope = fake_scope(guild_id);
    &&& post is Over
    &&& turn.before@.len() == 3
    &&& turn.before@[0] == (Action::SyncReadyLobby { scope })
    &&& turn.before@[1] == (Action::RefreshDisplay { scope })
    &&& turn.before@[2] == (Action::Unlock { scope })
    &&& turn.next matches Next::End(Ok(result)) && result.users_added == names.len()
        && result.user_names@ == names && result.already_at_threshold is None
}

/// The made-up player is put into the lobby.
pub open spec fn fake_joins(
    guild_id: i64,
    job: FakeJob,
    seat: FakeSeat,
    post: FakeAt,
    turn: Turn<Filled>,
) -> bool {
    &&& post == (FakeAt::Joining { job, seat })
    &&& turn.only_asks(Action::Join { player_id: seat.id, scope: fake_scope(guild_id) })
}

/// The made-up player was looked up: one who is not known yet is stored first.
pub open spec fn fake_loaded(
    guild_id: i64,
    job: FakeJob,
    seat: FakeSeat,
    loaded: Result<Option<Player>, String>,
    post: FakeAt,
    turn: Turn<Filled>,
) -> bool {
    match loaded {
        Err(error) => fake_fails(guild_id, post, turn, error@),
        Ok(Some(_)) => fake_joins(guild_id, job, seat, post, turn),
        Ok(None) => {
            &&& post == (FakeAt::Adding { job, seat })
            &&& turn.before@.len() == 0
            &&& turn.next matches Next::Ask(Action::AddFakePlayer { player })
                && crate::fakes::made_up(player, seat.id, seat.index, guild_id)
        },
    }
}

/// What is known after a made-up player joined: their name, and where the lobby is filled up how
/// long ago they are said to have joined.
pub open spec fn fake_counted(job: FakeJob, seat: FakeSeat, requested: Option<usize>, after: FakeJob) -> bool {
    &&& after.now == job.now
    &&& after.first_index == job.first_index
    &&& after.count == job.count
    &&& after.offset == job.offset
    &&& after.names@.len() == job.names@.len() + 1
    &&& after.names@.drop_last() == job.names@
    &&& after.names@.last()@ == crate::fakes::fake_name(seat.index as int)
    &&& after.backdated@ == if requested is None {
        job.backdated@.insert(
            seat.id,
            crate::fakes::backdate_seconds(job.names@.len() as int),
        )
    } else {
        job.backdated@
    }
}

/// The lobby answered: a made-up player who joined is counted, and the next one is next.
pub open spec fn fake_joined(
    guild_id: i64,
    requested: Option<usize>,
    job: FakeJob,
    seat: FakeSeat,
    joined: Result<JoinOutcome, String>,
    post: FakeAt,
    turn: Turn<Filled>,
) -> bool {
    match joined {
        Err(error) => fake_fails(guild_id, post, turn, error@),
        Ok(outcome) => if outcome.joined_at_ns is Some {
            exists|after: FakeJob| #[trigger]
                fake_counted(job, seat, requested, after) && fake_goes_on(
                    guild_id,
                    after,
                    post,
                    turn,
                )
        } else {
            fake_goes_on(guild_id, job, post, turn)
        },
    }
}

/// One step of filling a lobby.
pub open spec fn fake_step(
    pre: FakeFlow,
    event: Event,
    post: FakeFlow,
    turn: Turn<Filled>,
    config: LobbyRuntimeConfig,
) -> bool {
    let guild_id = pre.guild_id;
    &&& post.guild_id == guild_id
    &&& post.requested == pre.requested
    &&& match (pre.at, event) {
        (FakeAt::Creating, Event::Created(created)) => fake_created(
            guild_id,
            pre.requested,
            created,
            config,
            post.at,
            turn,
        ),
        (FakeAt::Clocking { first_index, count }, Event::Clock(clock)) => match clock {
            Err(error) => fake_fails(
                guild_id,
                post.at,
                turn,
                "system clock is before Unix epoch: "@ + error@,
            ),
            Ok(now) => exists|job: FakeJob| #[trigger]
                fake_begins(job, now, first_index, count) && fake_goes_on(
                    guild_id,
                    job,
                    post.at,
                    turn,
                ),
        },
        (FakeAt::Loading { job, seat }, Event::PlayerLoaded(loaded)) => fake_loaded(
            guild_id,
            job,
            seat,
            loaded,
            post.at,
            turn,
        ),
        (FakeAt::Adding { job, seat }, Event::FakeAdded(added)) => match added {
            AddOutcome::Failed(error) => fake_fails(guild_id, post.at, turn, error@),
            _ => fake_joins(guild_id, job, seat, post.at, turn),
        },
        (FakeAt::Joining { job, seat }, Event::Joined(joined)) => fake_joined(
            guild_id,
            pre.requested,
            job,
            seat,
            joined,
            post.at,
            turn,
        ),
        (FakeAt::Backdating { names, expected }, Event::Backdated(updated)) => match updated {
            Err(error) => fake_fails(guild_id, post.at, turn, error@),
            Ok(updated) => if updated == expected {
                fake_finishes(guild_id, names@, post.at, turn)
            } else {
                fake_fails(
                    guild_id,
                    post.at,
                    turn,
                    "lobby membership changed while backdating fake users"@,
                )
            },
        },
        _ => post.at == pre.at && turn.waits(),
    }
}

/// Nobody was made up yet.
pub open spec fn fake_begins(job: FakeJob, now: JoinTime, first_index: i64, count: usize) -> bool {
    &&& job.now == now
    &&& job.first_index == first_index
    &&& job.count == count
    &&& job.offset == 0
    &&& job.names@.len() == 0
    &&& job.backdated@ == Map::<i64, u64>::empty()
}

fn fail(guild_id: i64, text: String) -> (r: (FakeAt, Turn<Filled>))
    ensures
        fake_fails(guild_id, r.0, r.1, text@),
{
    let scope = LobbyScope { guild_id, kind: LobbyKind::Open };
    (FakeAt::Over, Turn::end_after(vec![Action::Unlock { scope }], Err(text)))
}

fn on_created(
    guild_id: i64,
    requested: Option<usize>,
    created: Result<LobbySnapshot, CreationFailure>,
    config: &LobbyRuntimeConfig,
) -> (r: (FakeAt, Turn<Filled>))
    ensures
        fake_created(guild_id, requested, created, *config, r.0, r.1),
{
    let lobby = match created {
        Err(failure) => {
            return fail(guild_id, failure.report);
        },
        Ok(lobby) => lobby,
    };
    let current = count(&lobby.players);
    match decide_count(requested, current, config) {
        FakeCount::TooMany(count) => fail(guild_id, too_many(count, current, config.max_players)),
        FakeCount::Enough => {
            let scope = LobbyScope { guild_id, kind: LobbyKind::Open };
            let result = AdminFakeLobbyResult {
                users_added: 0,
                user_names: Vec::new(),
                already_at_threshold: Some((current, config.ready_threshold)),
            };
            (FakeAt::Over, Turn::end_after(vec![Action::Unlock { scope }], Ok(result)))
        },
        FakeCount::Add(count) => (
            FakeAt::Clocking { first_index: next_index(&lobby.players), count },
            Turn::ask(Action::ReadClock),
        ),
    }
}

fn finish(guild_id: i64, names: Vec<String>) -> (r: (FakeAt, Turn<Filled>))
    ensures
        fake_finishes(guild_id, names@, r.0, r.1),
{
    let scope = LobbyScope { guild_id, kind: LobbyKind::Open };
    let before = vec![
        Action::SyncReadyLobby { scope },
        Action::RefreshDisplay { scope },
        Action::Unlock { scope },
    ];
    let result = AdminFakeLobbyResult {
        users_added: names.len(),
        user_names: names,
        already_at_threshold: None,
    };
    (FakeAt::Over, Turn::end_after(before, Ok(result)))
}

fn index_at(first_index: i64, offset: usize) -> (r: Option<i64>)
    ensures
        r == if first_index + offset > i64::MAX {
            None
        } else {
            Some((first_index + offset) as i64)
        },
{
    let index: i128 = first_index as i128 + offset as i128;
    if index > i64::MAX as i128 {
        None
    } else {
        Some(index as i64)
    }
}

fn go_on(guild_id: i64, job: FakeJob) -> (r: (FakeAt, Turn<Filled>))
    ensures
        fake_goes_on(guild_id, job, r.0, r.1),
{
    let mut job = job;
    if job.offset < job.count {
        let index = match index_at(job.first_index, job.offset) {
            None => {
                return fail(guild_id, "fake-user index overflow".to_owned());
            },
            Some(index) => index,
        };
        if index == i64::MIN {
            return fail(guild_id, "fake-user id overflow".to_owned());
        }
        let seat = FakeSeat { index, id: -index };
        job.offset = job.offset + 1;
        return (
            FakeAt::Loading { job, seat },
            Turn::ask(Action::LoadPlayer { player_id: seat.id, guild_id }),
        );
    }
    if job.backdated.is_empty() {
        return finish(guild_id, job.names);
    }
    let expected = key_count(&job.backdated);
    let scope = LobbyScope { guild_id, kind: LobbyKind::Open };
    (
        FakeAt::Backdating { names: job.names, expected },
        Turn::ask(Action::Backdate { scope, now: job.now, seconds: job.backdated }),
    )
}

fn join(guild_id: i64, job: FakeJob, seat: FakeSeat) -> (r: (FakeAt, Turn<Filled>))
    ensures
        fake_joins(guild_id, job, seat, r.0, r.1),
{
    let scope = LobbyScope { guild_id, kind: LobbyKind::Open };
    (FakeAt::Joining { job, seat }, Turn::ask(Action::Join { player_id: seat.id, scope }))
}

fn on_loaded(
    guild_id: i64,
    job: FakeJob,
    seat: FakeSeat,
    loaded: Result<Option<Player>, String>,
) -> (r: (FakeAt, Turn<Filled>))
    ensures
        fake_loaded(guild_id, job, seat, loaded, r.0, r.1),
{
    match loaded {
        Err(error) => fail(guild_id, error),
        Ok(Some(_)) => join(guild_id, job, seat),
        Ok(None) => {
            let player = make_up(seat.id, seat.index, guild_id);
            (FakeAt::Adding { job, seat }, Turn::ask(Action::AddFakePlayer { player }))
        },
    }
}

fn on_joined(
    guild_id: i64,
    requested: Option<usize>,
    job: FakeJob,
    seat: FakeSeat,
    joined: Result<JoinOutcome, String>,
) -> (r: (FakeAt, Turn<Filled>))
    ensures
        fake_joined(guild_id, requested, job, seat, joined, r.0, r.1),
{
    let outcome = match joined {
        Err(error) => {
            return fail(guild_id, error);
        },
        Ok(outcome) => outcome,
    };
    if outcome.joined_at_ns.is_none() {
        return go_on(guild_id, job);
    }
    let ghost before = job;
    let mut job = job;
    if requested.is_none() {
        let seconds = backdate_offset(job.names.len());
        job.backdated.insert(seat.id, seconds);
    }
    job.names.push(name_fake(seat.index));
    assert(job.names@.drop_last() =~= before.names@);
    assert(fake_counted(before, seat, requested, job));
    go_on(guild_id, job)
}

impl FakeFlow {
    /// Begins to fill the open lobby of a guild.
    pub fn start(guild_id: i64, requested: Option<usize>) -> (r: (FakeFlow, Turn<Filled>))
        ensures
            fake_starts(guild_id, requested, r.0, r.1),
            r.1.goes_on(|action: Action| r.0.awaits(action)),
    {
        let scope = LobbyScope { guild_id, kind: LobbyKind::Open };
        (
            FakeFlow { guild_id, requested, at: FakeAt::Creating },
            Turn::ask_after(
                vec![Action::Lock { scope }],
                Action::CreateLobby { creator: None, scope },
            ),
        )
    }

    /// Goes on with what came of the last question.
    pub fn resume(self, event: Event, config: &LobbyRuntimeConfig) -> (r: (FakeFlow, Turn<Filled>))
        ensures
            fake_step(self, event, r.0, r.1, *config),
    {
        let FakeFlow { guild_id, requested, at } = self;
        let (at, turn) = match (at, event) {
            (FakeAt::Creating, Event::Created(created)) => on_created(
                guild_id,
                requested,
                created,
                config,
            ),
            (FakeAt::Clocking { first_index, count }, Event::Clock(clock)) => match clock {
                Err(error) => fail(
                    guild_id,
                    text2("system clock is before Unix epoch: ", error.as_str()),
                ),
                Ok(now) => {
                    let job = FakeJob {
                        now,
                        first_index,
                        count,
                        offset: 0,
                        names: Vec::new(),
                        backdated: BTreeMap::new(),
                    };
                    assert(fake_begins(job, now, first_index, count));
                    go_on(guild_id, job)
                },
            },
            (FakeAt::Loading { job, seat }, Event::PlayerLoaded(loaded)) => on_loaded(
                guild_id,
                job,
                seat,
                loaded,
            ),
            (FakeAt::Adding { job, seat }, Event::FakeAdded(added)) => match added {
                AddOutcome::Failed(error) => fail(guild_id, error),
                _ => join(guild_id, job, seat),
            },
            (FakeAt::Joining { job, seat }, Event::Joined(joined)) => on_joined(
                guild_id,
                requested,
                job,
                seat,
                joined,
            ),
            (FakeAt::Backdating { names, expected }, Event::Backdated(updated)) => match updated {
                Err(error) => fail(guild_id, error),
                Ok(updated) => if updated == expected {
                    finish(guild_id, names)
                } else {
                    fail(
                        guild_id,
                        "lobby membership changed while backdating fake users".to_owned(),
                    )
                },
            },
            (at, _) => (at, Turn::wait()),
        };
        (FakeFlow { guild_id, requested, at }, turn)
    }
}

/// The scope that filling a lobby holds.
pub open spec fn fake_holds(flow: FakeFlow) -> Option<LobbyScope> {
    if flow.at is Over {
        None
    } else {
        Some(fake_scope(flow.guild_id))
    }
}

/// Filling a lobby changes it only while it holds its scope, and gives it free however it ends.
pub proof fn fillings_keep_order(
    pre: FakeFlow,
    event: Event,
    post: FakeFlow,
    turn: Turn<Filled>,
    config: LobbyRuntimeConfig,
)
    requires
        fake_step(pre, event, post, turn, config),
    ensures
        crate::locking::keeps_order(fake_holds(pre), turn, fake_holds(post)),
{
    reveal_with_fuel(crate::locking::orderly, 4);
    reveal_with_fuel(crate::locking::held_at_end, 4);
}

/// Filling begins by taking the scope.
pub proof fn fillings_begin_in_order(
    guild_id: i64,
    requested: Option<usize>,
    flow: FakeFlow,
    turn: Turn<Filled>,
)
    requires
        fake_starts(guild_id, requested, flow, turn),
    ensures
        crate::locking::keeps_order(None, turn, fake_holds(flow)),
{
    reveal_with_fuel(crate::locking::orderly, 2);
    reveal_with_fuel(crate::locking::held_at_end, 2);
}

/// As many players as `count` may be made up, and no more: the counters agree so far.
pub open spec fn within_count(at: FakeAt, count: int) -> bool {
    match at {
        FakeAt::Clocking { count: c, .. } => c == count,
        FakeAt::Loading { job, .. } => job.count == count && job.names@.len() < job.offset <= count,
        FakeAt::Adding { job, .. } => job.count == count && job.names@.len() < job.offset <= count,
        FakeAt::Joining { job, .. } => job.count == count && job.names@.len() < job.offset <= count,
        FakeAt::Backdating { names, .. } => names@.len() <= count,
        FakeAt::Over => true,
        FakeAt::Creating => false,
    }
}

/// No more players are made up than was decided: the counters keep agreeing, and the report
/// counts no more than that.
pub proof fn fillings_keep_their_count(
    pre: FakeFlow,
    event: Event,
    post: FakeFlow,
    turn: Turn<Filled>,
    config: LobbyRuntimeConfig,
    count: int,
)
    requires
        fake_step(pre, event, post, turn, config),
        within_count(pre.at, count),
    ensures
        within_count(post.at, count),
        turn.next matches Next::End(Ok(result)) ==> result.users_added <= count,
{
}

/// The names are those of the made-up players from number `first_index` on.
pub open spec fn named_from(names: Seq<String>, first_index: int) -> bool {
    forall|k: int|
        0 <= k < names.len() ==> (#[trigger] names[k])@ == crate::fakes::fake_name(first_index + k)
}

/// All before this one joined: the made-up player whose turn it is has the next number, and
/// those before are named in order.
pub open spec fn seated_in_order(job: FakeJob, seat: FakeSeat, first_index: int, count: int) -> bool {
    &&& job.first_index == first_index
    &&& job.count == count
    &&& job.offset == job.names@.len() + 1
    &&& job.offset <= count
    &&& named_from(job.names@, first_index)
    &&& seat.index == first_index + job.names@.len()
    &&& seat.id == -seat.index
}

/// `count` players are made up from number `first_index` on, and all who had their turn joined.
pub open spec fn numbered(at: FakeAt, first_index: int, count: int) -> bool {
    match at {
        FakeAt::Creating => false,
        FakeAt::Clocking { first_index: i, count: c } => i == first_index && c == count,
        FakeAt::Loading { job, seat } => seated_in_order(job, seat, first_index, count),
        FakeAt::Adding { job, seat } => seated_in_order(job, seat, first_index, count),
        FakeAt::Joining { job, seat } => seated_in_order(job, seat, first_index, count),
        FakeAt::Backdating { names, .. } => names@.len() == count && named_from(
            names@,
            first_index,
        ),
        FakeAt::Over => true,
    }
}

/// The report names `count` players, from number `first_index` on and in order.
pub open spec fn reports_numbered(
    result: AdminFakeLobbyResult,
    first_index: int,
    count: int,
) -> bool {
    &&& result.users_added == count
    &&& result.user_names@.len() == count
    &&& named_from(result.user_names@, first_index)
    &&& result.already_at_threshold is None
}

/// The lobby was asked to take a made-up player in, and it did not.
pub open spec fn turns_away(at: FakeAt, event: Event) -> bool {
    at is Joining && (event matches Event::Joined(Ok(outcome)) && outcome.joined_at_ns is None)
}

proof fn going_on_keeps_numbers(
    guild_id: i64,
    job: FakeJob,
    post: FakeAt,
    turn: Turn<Filled>,
    first_index: int,
    count: int,
)
    requires
        fake_goes_on(guild_id, job, post, turn),
        job.first_index == first_index,
        job.count == count,
        job.offset == job.names@.len(),
        job.offset <= count,
        named_from(job.names@, first_index),
    ensures
        numbered(post, first_index, count),
        turn.next matches Next::End(Ok(result)) ==> reports_numbered(result, first_index, count),
{
}

/// As long as every made-up player joins, each step gives them the next number and names them in
/// order.
pub proof fn fillings_number_in_order(
    pre: FakeFlow,
    event: Event,
    post: FakeFlow,
    turn: Turn<Filled>,
    config: LobbyRuntimeConfig,
    first_index: int,
    count: int,
)
    requires
        fake_step(pre, event, post, turn, config),
        numbered(pre.at, first_index, count),
        !turns_away(pre.at, event),
    ensures
        numbered(post.at, first_index, count),
        turn.next matches Next::End(Ok(result)) ==> reports_numbered(result, first_index, count),
{
    match (pre.at, event) {
        (FakeAt::Clocking { first_index: i, count: c }, Event::Clock(Ok(now))) => {
            let job = choose|job: FakeJob| #[trigger]
                fake_begins(job, now, i, c) && fake_goes_on(pre.guild_id, job, post.at, turn);
            going_on_keeps_numbers(pre.guild_id, job, post.at, turn, first_index, count);
        },
        (FakeAt::Joining { job, seat }, Event::Joined(Ok(outcome))) => {
            let after = choose|after: FakeJob| #[trigger]
                fake_counted(job, seat, pre.requested, after) && fake_goes_on(
                    pre.guild_id,
                    after,
                    post.at,
                    turn,
                );
            assert(after.names@ =~= job.names@.push(after.names@.last()));
            going_on_keeps_numbers(pre.guild_id, after, post.at, turn, first_index, count);
        },
        _ => {},
    }
}

/// A run of filling a lobby: it starts, and every turn follows from what came of the one before.
pub open spec fn fake_run(
    guild_id: i64,
    requested: Option<usize>,
    first: Turn<Filled>,
    states: Seq<FakeFlow>,
    events: Seq<Event>,
    turns: Seq<Turn<Filled>>,
    config: LobbyRuntimeConfig,
) -> bool {
    &&& states.len() == events.len() + 1
    &&& turns.len() == events.len()
    &&& fake_starts(guild_id, requested, states[0], first)
    &&& forall|n: int|
        0 <= n < events.len() ==> fake_step(
            states[n],
            #[trigger] events[n],
            states[n + 1],
            turns[n],
            config,
        )
}

/// Turn `c` of the run is the one in which the lobby was read or created.
pub open spec fn reads_lobby(
    states: Seq<FakeFlow>,
    events: Seq<Event>,
    c: int,
    lobby: LobbySnapshot,
) -> bool {
    &&& 0 <= c < events.len()
    &&& states[c].at is Creating
    &&& events[c] == Event::Created(Ok::<LobbySnapshot, CreationFailure>(lobby))
}

proof fn runs_number_in_order(
    guild_id: i64,
    requested: Option<usize>,
    first: Turn<Filled>,
    states: Seq<FakeFlow>,
    events: Seq<Event>,
    turns: Seq<Turn<Filled>>,
    config: LobbyRuntimeConfig,
    lobby: LobbySnapshot,
    c: int,
    n: int,
    first_index: i64,
    count: usize,
)
    requires
        fake_run(guild_id, requested, first, states, events, turns, config),
        reads_lobby(states, events, c, lobby),
        crate::fakes::fake_count(requested, lobby.players@.len() as int, config) == FakeCount::Add(
            count,
        ),
        crate::fakes::next_number(lobby.players@, first_index),
        forall|m: int| 0 <= m < events.len() ==> !turns_away(states[m].at, #[trigger] events[m]),
        c < n < states.len(),
    ensures
        numbered(states[n].at, first_index as int, count as int),
    decreases n,
{
    assert(fake_step(states[n - 1], events[n - 1], states[n], turns[n - 1], config));
    if n == c + 1 {
        runs_keep_their_request(guild_id, requested, first, states, events, turns, config, c);
        if let FakeAt::Clocking { first_index: i, .. } = states[n].at {
            crate::fakes::next_number_is_one(lobby.players@, first_index, i);
        }
    } else {
        runs_number_in_order(
            guild_id,
            requested,
            first,
            states,
            events,
            turns,
            config,
            lobby,
            c,
            n - 1,
            first_index,
            count,
        );
        fillings_number_in_order(
            states[n - 1],
            events[n - 1],
            states[n],
            turns[n - 1],
            config,
            first_index as int,
            count as int,
        );
    }
}

proof fn runs_keep_their_request(
    guild_id: i64,
    requested: Option<usize>,
    first: Turn<Filled>,
    states: Seq<FakeFlow>,
    events: Seq<Event>,
    turns: Seq<Turn<Filled>>,
    config: LobbyRuntimeConfig,
    n: int,
)
    requires
        fake_run(guild_id, requested, first, states, events, turns, config),
        0 <= n < states.len(),
    ensures
        states[n].guild_id == guild_id,
        states[n].requested == requested,
    decreases n,
{
    if n > 0 {
        runs_keep_their_request(guild_id, requested, first, states, events, turns, config, n - 1);
        assert(fake_step(states[n - 1], events[n - 1], states[n], turns[n - 1], config));
    }
}

/// Where every made-up player joins, a run that succeeds made up exactly as many as was decided
/// for the lobby that was read, and the player at place `k` of the report is the one whose number
/// is the lobby's next one plus `k`.
pub proof fn fillings_report_whom_they_made_up(
    guild_id: i64,
    requested: Option<usize>,
    first: Turn<Filled>,
    states: Seq<FakeFlow>,
    events: Seq<Event>,
    turns: Seq<Turn<Filled>>,
    config: LobbyRuntimeConfig,
    lobby: LobbySnapshot,
    c: int,
    n: int,
    first_index: i64,
    count: usize,
    result: AdminFakeLobbyResult,
)
    requires
        fake_run(guild_id, requested, first, states, events, turns, config),
        reads_lobby(states, events, c, lobby),
        crate::fakes::fake_count(requested, lobby.players@.len() as int, config) == FakeCount::Add(
            count,
        ),
        crate::fakes::next_number(lobby.players@, first_index),
        forall|m: int| 0 <= m < events.len() ==> !turns_away(states[m].at, #[trigger] events[m]),
        c < n < events.len(),
        turns[n].next == Next::<Filled>::End(Ok(result)),
    ensures
        result.users_added == count,
        result.user_names@.len() == count,
        forall|k: int|
            0 <= k < count ==> (#[trigger] result.user_names@[k])@ == crate::fakes::fake_name(
                first_index + k,
            ),
        result.already_at_threshold is None,
{
    runs_number_in_order(
        guild_id,
        requested,
        first,
        states,
        events,
        turns,
        config,
        lobby,
        c,
        n,
        first_index,
        count,
    );
    assert(fake_step(states[n], events[n], states[n + 1], turns[n], config));
    fillings_number_in_order(
        states[n],
        events[n],
        states[n + 1],
        turns[n],
        config,
        first_index as int,
        count as int,
    );
}

impl FakeFlow {
    /// What is waited for: the answer to this question.
    pub open spec fn awaits(self, action: Action) -> bool {
        match self.at {
            FakeAt::Creating => action is CreateLobby,
            FakeAt::Clocking { .. } => action is ReadClock,
            FakeAt::Loading { .. } => action is LoadPlayer,
            FakeAt::Adding { .. } => action is AddFakePlayer,
            FakeAt::Joining { .. } => action is Join,
            FakeAt::Backdating { .. } => action is Backdate,
            FakeAt::Over => false,
        }
    }
}

/// Filling a lobby is never left waiting by the answer to what it asked for: it goes on to its end
/// or to its next question, and waits for the answer to that.
pub proof fn fillings_go_on_when_answered(
    pre: FakeFlow,
    asked: Action,
    event: Event,
    post: FakeFlow,
    turn: Turn<Filled>,
    config: LobbyRuntimeConfig,
)
    requires
        fake_step(pre, event, post, turn, config),
        pre.awaits(asked),
        asked.answered_by(event),
    ensures
        turn.goes_on(|action: Action| post.awaits(action)),
{
}

/// Filling a lobby concerns the open lobby of its own guild alone, and puts nobody into it but the
/// made-up player whose turn it is; the lobby is made by nobody if it is not there.
pub proof fn fillings_stay_in_the_open_lobby(
    guild_id: i64,
    requested: Option<usize>,
    start: FakeFlow,
    first: Turn<Filled>,
    pre: FakeFlow,
    event: Event,
    post: FakeFlow,
    turn: Turn<Filled>,
    config: LobbyRuntimeConfig,
    action: Action,
)
    requires
        fake_starts(guild_id, requested, start, first),
        pre.guild_id == guild_id,
        fake_step(pre, event, post, turn, config),
        turn.does(action),
    ensures
        start.guild_id == guild_id && start.requested == requested,
        post.guild_id == guild_id && post.requested == pre.requested,
        first.next == Next::<Filled>::Ask(
            Action::CreateLobby {
                creator: None,
                scope: LobbyScope { guild_id, kind: LobbyKind::Open },
            },
        ),
        action.lobby() matches Some(scope) ==> scope == (LobbyScope {
            guild_id,
            kind: LobbyKind::Open,
        }),
        action.player() matches Some(player) ==> match post.at {
            FakeAt::Loading { seat, .. } => player == seat.id && seat.id == -seat.index,
            FakeAt::Adding { seat, .. } => player == seat.id,
            FakeAt::Joining { seat, .. } => player == seat.id,
            _ => false,
        },
        action.guild() matches Some(guild) ==> guild == guild_id,
        action matches Action::AddFakePlayer { player } ==> player.guild_id == guild_id && (
        post.at matches FakeAt::Adding { seat, .. } && player.discord_id == seat.id
            && crate::text::contains_text(
            player.name@,
            crate::text::signed_decimal(seat.index as int),
        )),
{
    if let Action::AddFakePlayer { player } = action {
        if let FakeAt::Adding { seat, .. } = post.at {
            crate::fakes::made_up_players_are_who_they_should_be(
                player,
                seat.id,
                seat.index,
                guild_id,
            );
        }
    }
}

/// A made-up player who is stored already is put into the lobby at once, and one who is not is
/// stored first; storing one that is there by now is as good. When all are in, the ready check and
/// the message of the lobby follow. A failure is reported in its own words.
pub proof fn fillings_go_through(
    pre: FakeFlow,
    event: Event,
    post: FakeFlow,
    turn: Turn<Filled>,
    config: LobbyRuntimeConfig,
)
    requires
        fake_step(pre, event, post, turn, config),
    ensures
        pre.at matches FakeAt::Loading { seat, .. } ==> (event matches Event::PlayerLoaded(Ok(found))
            ==> (if found is Some {
            turn.next == Next::<Filled>::Ask(
                Action::Join {
                    player_id: seat.id,
                    scope: LobbyScope { guild_id: pre.guild_id, kind: LobbyKind::Open },
                },
            )
        } else {
            turn.next matches Next::Ask(Action::AddFakePlayer { .. })
        })),
        pre.at matches FakeAt::Adding { seat, .. } ==> (event matches Event::FakeAdded(added) ==> (!(
        added is Failed) ==> turn.next == Next::<Filled>::Ask(
            Action::Join {
                player_id: seat.id,
                scope: LobbyScope { guild_id: pre.guild_id, kind: LobbyKind::Open },
            },
        ))),
        turn.next matches Next::End(Ok(result)) ==> (!(pre.at is Creating) ==> {
            let scope = LobbyScope { guild_id: pre.guild_id, kind: LobbyKind::Open };
            &&& turn.does(Action::SyncReadyLobby { scope })
            &&& turn.does(Action::RefreshDisplay { scope })
            &&& result.users_added == result.user_names@.len()
            &&& result.already_at_threshold is None
        }),
        pre.at matches FakeAt::Backdating { names, expected } ==> (event matches Event::Backdated(
            Ok(updated),
        ) ==> ((turn.next matches Next::End(Ok(_))) <==> updated == expected)),
        pre.at matches FakeAt::Backdating { names, .. } ==> (turn.next matches Next::End(Ok(result))
            ==> result.user_names@ == names@),
        event matches Event::Joined(Err(error)) ==> (pre.at is Joining ==> (
        turn.next matches Next::End(Err(said)) && said@ == error@)),
        event matches Event::PlayerLoaded(Err(error)) ==> (pre.at is Loading ==> (
        turn.next matches Next::End(Err(said)) && said@ == error@)),
        event matches Event::Backdated(Err(error)) ==> (pre.at is Backdating ==> (
        turn.next matches Next::End(Err(said)) && said@ == error@)),
        event matches Event::Created(Err(failure)) ==> (pre.at is Creating ==> (
        turn.next matches Next::End(Err(said)) && said@ == failure.report@)),
        event matches Event::Created(Ok(lobby)) ==> (pre.at is Creating && pre.requested is None
            && lobby.players@.len() >= config.ready_threshold ==> (turn.next matches Next::End(
            Ok(result),
        ) && result.users_added == 0 && (result.already_at_threshold matches Some((there, wanted))
            && there == lobby.players@.len() && wanted == config.ready_threshold))),
{
    if turn.next matches Next::End(Ok(_)) && !(pre.at is Creating) {
        assert(turn.before@.contains(turn.before@[0]));
        assert(turn.before@.contains(turn.before@[1]));
    }
}

/// A player who was let in is counted under their name; only where no number was asked for is their
/// join time set back, each by the time that is due to their place. What was noted of others stays.
pub proof fn seated_players_are_counted(
    job: FakeJob,
    seat: FakeSeat,
    requested: Option<usize>,
    after: FakeJob,
    other: i64,
)
    requires
        fake_counted(job, seat, requested, after),
    ensures
        after.names@.len() == job.names@.len() + 1,
        forall|k: int| 0 <= k < job.names@.len() ==> #[trigger] after.names@[k] == job.names@[k],
        crate::text::contains_text(
            after.names@.last()@,
            crate::text::signed_decimal(seat.index as int),
        ),
        requested is None ==> after.backdated@.dom().contains(seat.id) && after.backdated@[seat.id]
            == crate::fakes::backdate_seconds(job.names@.len() as int),
        requested is Some ==> after.backdated@ == job.backdated@,
        other != seat.id ==> after.backdated@.dom().contains(other) == job.backdated@.dom().contains(
            other,
        ),
        other != seat.id && job.backdated@.dom().contains(other) ==> after.backdated@[other]
            == job.backdated@[other],
        after.now == job.now && after.count == job.count,
{
    crate::text::middles_stand(
        "FakeUser"@,
        crate::text::signed_decimal(seat.index as int),
        Seq::empty(),
    );
    assert forall|k: int| 0 <= k < job.names@.len() implies #[trigger] after.names@[k]
        == job.names@[k] by {
        assert(after.names@.drop_last()[k] == after.names@[k]);
    }
}

} // verus!
