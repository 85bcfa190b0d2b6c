//! Made-up players that fill a lobby for maintenance: how many, under which numbers, and what
//! they look like.
use vstd::prelude::*;
use std::collections::BTreeSet;
use crate::config::LobbyRuntimeConfig;
use crate::protocol::FakePlayer;
use crate::sets::members;
use crate::text::contents;
use crate::text::decimal_i64;
use crate::text::decimal_u64;
use crate::text::text2;

verus! {

/// The most players that are made up at once to fill a lobby.
pub const FILL_LIMIT: usize = 10;

/// What a request for made-up players comes to.
#[derive(Clone, Copy, Debug, PartialEq, Eq, Structural)]
pub enum FakeCount {
    /// This many are made up.
    Add(usize),
    /// So many would not fit.
    TooMany(usize),
    /// The lobby has enough players already.
    Enough,
}

/// A size, or the largest there is where it is beyond that.
pub open spec fn saturated(size: int) -> int {
    if size > usize::MAX {
        usize::MAX as int
    } else {
        size
    }
}

/// What a request comes to: a number that was asked for has to fit, and a lobby that is to be
/// filled is filled up to where a match can be made.
pub open spec fn fake_count(
    requested: Option<usize>,
    current: int,
    config: LobbyRuntimeConfig,
) -> FakeCount {
    match requested {
        Some(count) => if saturated(current + count) > config.max_players {
            FakeCount::TooMany(count)
        } else {
            FakeCount::Add(count)
        },
        None => if current >= config.ready_threshold {
            FakeCount::Enough
        } else if config.ready_threshold - current > FILL_LIMIT {
            FakeCount::Add(FILL_LIMIT)
        } else {
            FakeCount::Add((config.ready_threshold - current) as usize)
        },
    }
}

/// What a request for made-up players comes to.
pub fn decide_count(requested: Option<usize>, current: usize, config: &LobbyRuntimeConfig) -> (r:
    FakeCount)
    ensures
        r == fake_count(requested, current as int, *config),
{
    match requested {
        Some(count) => {
            let total: usize = match current.checked_add(count) {
                Some(total) => total,
                None => usize::MAX,
            };
            if total > config.max_players {
                FakeCount::TooMany(count)
            } else {
                FakeCount::Add(count)
            }
        },
        None => {
            if current >= config.ready_threshold {
                FakeCount::Enough
            } else {
                let missing: usize = config.ready_threshold - current;
                if missing > FILL_LIMIT {
                    FakeCount::Add(FILL_LIMIT)
                } else {
                    FakeCount::Add(missing)
                }
            }
        },
    }
}

/// What is said of a request that would not fit.
pub open spec fn too_many_text(count: int, current: int, max_players: int) -> Seq<char> {
    "Adding "@ + crate::text::decimal(count as nat) + " users would exceed "@
        + crate::text::decimal(max_players as nat) + " players. Currently "@
        + crate::text::decimal(current as nat) + "/"@ + crate::text::decimal(max_players as nat)
        + "."@
}

/// What is said of a request that would not fit.
pub fn too_many(count: usize, current: usize, max_players: usize) -> (r: String)
    ensures
        r@ == too_many_text(count as int, current as int, max_players as int),
{
    let most = decimal_u64(max_players as u64);
    let mut text = text2("Adding ", decimal_u64(count as u64).as_str());
    text.append(" users would exceed ");
    text.append(most.as_str());
    text.append(" players. Currently ");
    text.append(decimal_u64(current as u64).as_str());
    text.append("/");
    text.append(most.as_str());
    text.append(".");
    text
}

/// `number` is the highest number of a made-up player in the lobby, or zero.
pub open spec fn highest_number(players: Set<i64>, number: i64) -> bool {
    &&& number >= 0
    &&& number > 0 ==> players.contains((-number) as i64)
    &&& forall|id: i64| #[trigger] players.contains(id) && i64::MIN < id < 0 ==> -id <= number
}

/// `number` follows the highest number of a made-up player in the lobby.
pub open spec fn next_number(players: Set<i64>, number: i64) -> bool {
    exists|highest: i64| #[trigger]
        highest_number(players, highest) && number == if highest == i64::MAX {
            i64::MAX as int
        } else {
            highest + 1
        }
}

/// A lobby has one next number.
pub proof fn next_number_is_one(players: Set<i64>, number: i64, other: i64)
    requires
        next_number(players, number),
        next_number(players, other),
    ensures
        number == other,
{
    let a = choose|a: i64| #[trigger]
        highest_number(players, a) && number == if a == i64::MAX {
            i64::MAX as int
        } else {
            a + 1
        };
    let b = choose|b: i64| #[trigger]
        highest_number(players, b) && other == if b == i64::MAX {
            i64::MAX as int
        } else {
            b + 1
        };
    assert(a > 0 ==> players.contains((-a) as i64));
    assert(b > 0 ==> players.contains((-b) as i64));
}

/// The number of the next made-up player.
pub fn next_index(players: &BTreeSet<i64>) -> (r: i64)
    ensures
        next_number(players@, r),
{
    let ids = members(players);
    let mut highest: i64 = 0;
    let mut i: usize = 0;
    while i < ids.len()
        invariant
            i <= ids.len(),
            crate::sets::lists(ids@, players@),
            highest >= 0,
            highest > 0 ==> players@.contains((-highest) as i64),
            forall|k: int| 0 <= k < i && i64::MIN < #[trigger] ids@[k] < 0 ==> -ids@[k] <= highest,
        decreases ids.len() - i,
    {
        let id: i64 = ids[i];
        assert(ids@.contains(ids@[i as int]));
        if id < 0 && id > i64::MIN && -id > highest {
            highest = -id;
        }
        i = i + 1;
    }
    assert(highest_number(players@, highest)) by {
        assert forall|id: i64| #[trigger] players@.contains(id) && i64::MIN < id < 0 implies -id
            <= highest by {
            assert(ids@.contains(id));
            let k = choose|k: int| 0 <= k < ids@.len() && ids@[k] == id;
            assert(-ids@[k] <= highest);
        }
    }
    if highest == i64::MAX {
        highest
    } else {
        highest + 1
    }
}

/// How long ago the made-up player who joined as number `position` is said to have joined, in
/// seconds.
pub open spec fn backdate_seconds(position: int) -> u64 {
    let turn = position % 10;
    if turn == 0 {
        60
    } else if turn == 1 {
        300
    } else if turn == 2 {
        900
    } else if turn == 3 {
        1_800
    } else if turn == 4 {
        3_600
    } else if turn == 5 {
        7_200
    } else if turn == 6 {
        14_400
    } else if turn == 7 {
        28_800
    } else if turn == 8 {
        43_200
    } else {
        86_400
    }
}

/// How long ago a made-up player is said to have joined.
pub fn backdate_offset(position: usize) -> (r: u64)
    ensures
        r == backdate_seconds(position as int),
{
    match position % 10 {
        0 => 60,
        1 => 300,
        2 => 900,
        3 => 1_800,
        4 => 3_600,
        5 => 7_200,
        6 => 14_400,
        7 => 28_800,
        8 => 43_200,
        _ => 86_400,
    }
}

/// `fastrand::shuffle`: the items stay the same, in whatever order comes up.
#[verifier::external_body]
fn shuffle(items: &mut Vec<u64>)
    ensures
        final(items)@.to_multiset() == old(items)@.to_multiset(),
{
    fastrand::shuffle(items);
}

/// `fastrand::usize` over `..bound`: some number below the bound, which is not zero.
#[verifier::external_body]
fn draw_below(bound: usize) -> (r: usize)
    requires
        bound > 0,
    ensures
        r < bound,
{
    fastrand::usize(..bound)
}

/// `fastrand::u16` over `low..high`: some number from `low` up to but not including `high`.
#[verifier::external_body]
fn draw_between(low: u16, high: u16) -> (r: u16)
    requires
        low < high,
    ensures
        low <= r < high,
{
    fastrand::u16(low..high)
}

/// The roles of a made-up player: the first few of an order of the roles.
pub open spec fn role_texts(order: Seq<u64>, count: int) -> Seq<Seq<char>> {
    order.take(count).map_values(|role: u64| crate::text::decimal(role as nat))
}

/// The name of a made-up player.
pub open spec fn fake_name(index: int) -> Seq<char> {
    "FakeUser"@ + crate::text::signed_decimal(index)
}

/// The name of a made-up player.
pub fn name_fake(index: i64) -> (r: String)
    ensures
        r@ == fake_name(index as int),
{
    text2("FakeUser", decimal_i64(index).as_str())
}

/// A made-up player with what was drawn for them.
pub open spec fn drawn_player(
    player: FakePlayer,
    id: i64,
    index: i64,
    guild_id: i64,
    order: Seq<u64>,
    count: int,
    rating: u16,
) -> bool {
    &&& player.discord_id == id
    &&& player.name@ == fake_name(index as int)
    &&& player.guild_id == guild_id
    &&& player.rating == rating
    &&& contents(player.preferred_roles@) == role_texts(order, count)
}

/// Puts a made-up player together from an order of the roles, how many of them count, and a
/// rating.
pub fn assemble_player(
    id: i64,
    index: i64,
    guild_id: i64,
    order: &Vec<u64>,
    count: usize,
    rating: u16,
) -> (r: FakePlayer)
    requires
        count <= order@.len(),
    ensures
        drawn_player(r, id, index, guild_id, order@, count as int, rating),
{
    let mut preferred_roles: Vec<String> = Vec::new();
    let mut i: usize = 0;
    while i < count
        invariant
            i <= count <= order@.len(),
            preferred_roles@.len() == i,
            forall|k: int|
                0 <= k < i ==> (#[trigger] preferred_roles@[k])@ == crate::text::decimal(
                    order@[k] as nat,
                ),
        decreases count - i,
    {
        preferred_roles.push(decimal_u64(order[i]));
        i = i + 1;
    }
    assert(contents(preferred_roles@) =~= role_texts(order@, count as int));
    FakePlayer { discord_id: id, name: name_fake(index), guild_id, rating, preferred_roles }
}

/// The five roles.
pub open spec fn all_roles() -> Seq<u64> {
    seq![1u64, 2u64, 3u64, 4u64, 5u64]
}

/// A made-up player as chance may make them: at least one of the five roles, in some order, and
/// a rating from 1000 to 2000.
pub open spec fn made_up(player: FakePlayer, id: i64, index: i64, guild_id: i64) -> bool {
    exists|order: Seq<u64>, count: int, rating: u16|
        {
            &&& order.to_multiset() == all_roles().to_multiset()
            &&& 1 <= count <= 5
            &&& 1_000 <= rating <= 2_000
            &&& #[trigger] drawn_player(player, id, index, guild_id, order, count, rating)
        }
}

/// Makes a player up.
pub fn make_up(id: i64, index: i64, guild_id: i64) -> (r: FakePlayer)
    ensures
        made_up(r, id, index, guild_id),
{
    let mut order: Vec<u64> = vec![1, 2, 3, 4, 5];
    assert(order@ =~= all_roles());
    shuffle(&mut order);
    proof {
        order@.to_multiset_ensures();
        all_roles().to_multiset_ensures();
    }
    let count = 1 + draw_below(5);
    let rating = draw_between(1_000, 2_001);
    assemble_player(id, index, guild_id, &order, count, rating)
}

/// No made-up player gets a number that one in the lobby has: from the next number on, every id
/// is new to the lobby. (Where the highest number there can be is taken, there is no next one.)
pub proof fn next_numbers_are_new(players: Set<i64>, number: i64, index: i64)
    requires
        next_number(players, number),
        !players.contains((-i64::MAX) as i64),
        index >= number,
    ensures
        number > 0,
        !players.contains((-index) as i64),
{
    let highest = choose|highest: i64| #[trigger]
        highest_number(players, highest) && number == if highest == i64::MAX {
            i64::MAX as int
        } else {
            highest + 1
        };
    assert(highest_number(players, highest));
    if players.contains((-index) as i64) {
        assert(-((-index) as i64) <= highest);
    }
}

/// A lobby is never overfilled: a number that was asked for is granted only where it fits, and a
/// lobby is filled no further than to where a match can be made, and by ten at the most.
pub proof fn lobbies_are_not_overfilled(
    requested: Option<usize>,
    current: int,
    config: LobbyRuntimeConfig,
    count: usize,
)
    requires
        0 <= current,
        current + count <= usize::MAX,
        fake_count(requested, current, config) == FakeCount::Add(count),
    ensures
        requested matches Some(asked) ==> count == asked && current + count <= config.max_players,
        requested is None ==> 0 < count <= 10 && current + count <= config.ready_threshold,
{
}

/// A made-up player has between one and five roles, and none of them twice.
pub proof fn made_up_players_have_roles(order: Seq<u64>, count: int)
    requires
        order.to_multiset() == all_roles().to_multiset(),
        1 <= count <= 5,
    ensures
        order.len() == 5,
        order.no_duplicates(),
        forall|i: int| 0 <= i < order.len() ==> 1 <= #[trigger] order[i] <= 5,
        role_texts(order, count).len() == count,
{
    order.to_multiset_ensures();
    all_roles().to_multiset_ensures();
    all_roles().lemma_multiset_has_no_duplicates();
    order.lemma_multiset_has_no_duplicates_conv();
    assert forall|i: int| 0 <= i < order.len() implies 1 <= #[trigger] order[i] <= 5 by {
        assert(order.contains(order[i]));
        assert(order.to_multiset().count(order[i]) > 0);
        assert(all_roles().to_multiset().count(order[i]) > 0);
        assert(all_roles().contains(order[i]));
    }
}

/// Join times are set back the further the later a player was made up, from a minute to a day, and
/// begin again after ten players.
pub proof fn later_players_joined_earlier(position: int, later: int)
    requires
        0 <= position,
    ensures
        60 <= backdate_seconds(position) <= 86_400,
        backdate_seconds(position + 10) == backdate_seconds(position),
        position < later < 10 ==> backdate_seconds(position) < backdate_seconds(later),
        backdate_seconds(0) == 60,
        backdate_seconds(9) == 86_400,
{
}

/// As many players are made up as were asked for, if they fit; without a number the lobby is filled
/// up to the players it waits for, by ten at most; and a lobby that has those gets none.
pub proof fn lobbies_are_filled_as_asked(
    requested: Option<usize>,
    current: int,
    config: LobbyRuntimeConfig,
)
    requires
        0 <= current,
    ensures
        requested matches Some(count) ==> {
            &&& current + count <= config.max_players ==> fake_count(requested, current, config)
                == FakeCount::Add(count)
            &&& config.max_players < current + count <= usize::MAX ==> fake_count(
                requested,
                current,
                config,
            ) == FakeCount::TooMany(count)
        },
        requested is None ==> {
            &&& current >= config.ready_threshold ==> fake_count(requested, current, config)
                == FakeCount::Enough
            &&& 0 < config.ready_threshold - current <= 10 ==> fake_count(requested, current, config)
                == FakeCount::Add((config.ready_threshold - current) as usize)
            &&& config.ready_threshold - current > 10 ==> fake_count(requested, current, config)
                == FakeCount::Add(10)
        },
{
}

/// A made-up player has the given id, the number of it in their name, the given guild, a rating
/// between one and two thousand, and one to five roles.
pub proof fn made_up_players_are_who_they_should_be(
    player: FakePlayer,
    id: i64,
    index: i64,
    guild_id: i64,
)
    requires
        made_up(player, id, index, guild_id),
    ensures
        player.discord_id == id,
        player.guild_id == guild_id,
        crate::text::contains_text(player.name@, crate::text::signed_decimal(index as int)),
        1_000 <= player.rating <= 2_000,
        1 <= player.preferred_roles@.len() <= 5,
{
    let (order, count, rating) = choose|order: Seq<u64>, count: int, rating: u16|
        {
            &&& order.to_multiset() == all_roles().to_multiset()
            &&& 1 <= count <= 5
            &&& 1_000 <= rating <= 2_000
            &&& #[trigger] drawn_player(player, id, index, guild_id, order, count, rating)
        };
    made_up_players_have_roles(order, count);
    assert(contents(player.preferred_roles@).len() == player.preferred_roles@.len());
    crate::text::middles_stand(
        "FakeUser"@,
        crate::text::signed_decimal(index as int),
        Seq::empty(),
    );
}

} // verus!
