//! Players and matches as the database stores them, and as the lobby sees them.
use vstd::prelude::*;
use crate::joining::Player;
use crate::kinds::LobbyKind;
use crate::kinds::parse_lobby_kind;
use crate::text::decimal_i64;
use crate::text::text2;

verus! {

/// A rating: the bit pattern of the number, carried unread.
#[derive(Clone, Copy, Debug, PartialEq, Eq, Structural)]
pub struct Rating {
    pub bits: u64,
}

/// A player as the database stores them.
#[derive(Clone, Debug, PartialEq, Eq)]
pub struct PlayerRow {
    pub discord_id: Option<i64>,
    pub name: String,
    pub glicko_rating: Option<Rating>,
    pub mmr: Option<i64>,
    pub preferred_roles: Option<Vec<String>>,
    pub guild_id: Option<i64>,
    pub preferred_region: Option<String>,
    pub inferred_region: Option<String>,
}

/// A player as a lobby shows them.
#[derive(Clone, Debug, PartialEq, Eq)]
pub struct LobbyPlayer {
    pub discord_id: i64,
    pub name: String,
    pub glicko_rating: Option<Rating>,
    pub mmr: Option<i32>,
    pub preferred_roles: Vec<u8>,
    pub guild_id: Option<i64>,
    pub preferred_region: Option<String>,
    pub inferred_region: Option<String>,
}

/// The value of a decimal digit.
pub open spec fn digit_value(c: char) -> Option<int> {
    if '0' <= c && c <= '9' {
        Some(c as int - '0' as int)
    } else {
        None
    }
}

/// The number that a row of digits stands for.
pub open spec fn digits_value(digits: Seq<char>) -> Option<int>
    decreases digits.len(),
{
    if digits.len() == 0 {
        Some(0)
    } else {
        match (digits_value(digits.drop_last()), digit_value(digits.last())) {
            (Some(high), Some(low)) => Some(10 * high + low),
            _ => None,
        }
    }
}

/// The small number that a text stands for: digits, at least one, after an optional plus sign.
pub open spec fn small_number(text: Seq<char>) -> Option<u8> {
    let digits = if text.len() > 0 && text[0] == '+' {
        text.drop_first()
    } else {
        text
    };
    if digits.len() == 0 {
        None
    } else {
        match digits_value(digits) {
            Some(value) => if value <= u8::MAX {
                Some(value as u8)
            } else {
                None
            },
            None => None,
        }
    }
}

proof fn digits_only_grow(digits: Seq<char>, n: int)
    requires
        0 <= n <= digits.len(),
        digits_value(digits) is Some,
    ensures
        digits_value(digits.take(n)) is Some,
        0 <= digits_value(digits.take(n))->0 <= digits_value(digits)->0,
    decreases digits.len(),
{
    if n < digits.len() {
        digits_only_grow(digits.drop_last(), n);
        assert(digits.take(n) =~= digits.drop_last().take(n));
    } else {
        assert(digits.take(n) =~= digits);
        if digits.len() > 0 {
            digits_only_grow(digits.drop_last(), digits.len() - 1);
            assert(digits.drop_last().take(digits.len() - 1) =~= digits.drop_last());
        }
    }
}

fn digit_of(c: char) -> (r: Option<u64>)
    ensures
        match digit_value(c) {
            Some(value) => r matches Some(digit) && digit == value && digit <= 9,
            None => r is None,
        },
{
    if '0' <= c && c <= '9' {
        let code: u32 = c as u32;
        Some((code - 48) as u64)
    } else {
        None
    }
}

/// Reads a small number.
pub fn parse_small(text: &str) -> (r: Option<u8>)
    ensures
        r == small_number(text@),
{
    let length = text.unicode_len();
    let start: usize = if length > 0 && text.get_char(0) == '+' {
        1
    } else {
        0
    };
    let ghost digits = if start == 1 {
        text@.drop_first()
    } else {
        text@
    };
    if start == length {
        return None;
    }
    let mut value: u64 = 0;
    let mut i: usize = start;
    assert(digits.take(0) =~= Seq::empty());
    while i < length
        invariant
            start <= i <= length,
            start <= 1,
            length == text@.len(),
            start < length,
            digits == (if start == 1 {
                text@.drop_first()
            } else {
                text@
            }),
            (start == 1) == (text@.len() > 0 && text@[0] == '+'),
            digits_value(digits.take(i - start)) == Some(value as int),
            value <= u8::MAX,
        decreases length - i,
    {
        let c = text.get_char(i);
        assert(digits[i - start] == c);
        assert(digits.take(i - start + 1).drop_last() =~= digits.take(i - start));
        assert(digits.take(i - start + 1).last() == c);
        match digit_of(c) {
            None => {
                proof {
                    if digits_value(digits) is Some {
                        digits_only_grow(digits, i - start + 1);
                    }
                }
                return None;
            },
            Some(digit) => {
                value = 10 * value + digit;
                if value > 255 {
                    proof {
                        if digits_value(digits) is Some {
                            digits_only_grow(digits, i - start + 1);
                        }
                    }
                    return None;
                }
            },
        }
        i = i + 1;
    }
    assert(digits.take(digits.len() as int) =~= digits);
    Some(value as u8)
}

/// The roles that are numbers, in order.
pub open spec fn role_numbers(roles: Seq<String>) -> Seq<u8>
    decreases roles.len(),
{
    if roles.len() == 0 {
        Seq::empty()
    } else {
        match small_number(roles.last()@) {
            Some(role) => role_numbers(roles.drop_last()).push(role),
            None => role_numbers(roles.drop_last()),
        }
    }
}

/// The roles of a player: those that are numbers, or none.
pub open spec fn roles_of(roles: Option<Vec<String>>) -> Seq<u8> {
    match roles {
        Some(roles) => role_numbers(roles@),
        None => Seq::empty(),
    }
}

fn numbered_roles(roles: &Vec<String>) -> (r: Vec<u8>)
    ensures
        r@ == role_numbers(roles@),
{
    let mut r: Vec<u8> = Vec::new();
    let mut i: usize = 0;
    assert(roles@.take(0) =~= Seq::empty());
    while i < roles.len()
        invariant
            i <= roles.len(),
            r@ == role_numbers(roles@.take(i as int)),
        decreases roles.len() - i,
    {
        assert(roles@.take(i + 1).drop_last() =~= roles@.take(i as int));
        assert(roles@.take(i + 1).last() == roles@[i as int]);
        if let Some(role) = parse_small(roles[i].as_str()) {
            r.push(role);
        }
        i = i + 1;
    }
    assert(roles@.take(roles@.len() as int) =~= roles@);
    r
}

/// A number of matchmaking points, if it fits.
pub open spec fn small_mmr(mmr: Option<i64>) -> Option<i32> {
    match mmr {
        Some(mmr) => if i32::MIN <= mmr <= i32::MAX {
            Some(mmr as i32)
        } else {
            None
        },
        None => None,
    }
}

/// The player as a lobby shows them.
pub open spec fn shows_player(player: LobbyPlayer, row: PlayerRow) -> bool {
    &&& row.discord_id == Some(player.discord_id)
    &&& player.name == row.name
    &&& player.glicko_rating == row.glicko_rating
    &&& player.mmr == small_mmr(row.mmr)
    &&& player.preferred_roles@ == roles_of(row.preferred_roles)
    &&& player.guild_id == row.guild_id
    &&& player.preferred_region == row.preferred_region
    &&& player.inferred_region == row.inferred_region
}

/// The player as a lobby shows them; a row without a Discord id shows nobody.
pub fn lobby_player(row: &PlayerRow) -> (r: Option<LobbyPlayer>)
    ensures
        r is Some <==> row.discord_id is Some,
        r matches Some(player) ==> shows_player(player, *row),
{
    let discord_id = match row.discord_id {
        Some(discord_id) => discord_id,
        None => {
            return None;
        },
    };
    let mmr = match row.mmr {
        Some(mmr) => if i32::MIN as i64 <= mmr && mmr <= i32::MAX as i64 {
            Some(mmr as i32)
        } else {
            None
        },
        None => None,
    };
    let preferred_roles = match &row.preferred_roles {
        Some(roles) => numbered_roles(roles),
        None => Vec::new(),
    };
    Some(
        LobbyPlayer {
            discord_id,
            name: row.name.clone(),
            glicko_rating: row.glicko_rating,
            mmr,
            preferred_roles,
            guild_id: row.guild_id,
            preferred_region: copy_text(&row.preferred_region),
            inferred_region: copy_text(&row.inferred_region),
        },
    )
}

/// The players that a lobby shows: those of the rows with a Discord id, in order.
pub open spec fn shows_players(players: Seq<LobbyPlayer>, rows: Seq<PlayerRow>) -> bool
    decreases rows.len(),
{
    if rows.len() == 0 {
        players.len() == 0
    } else if rows.last().discord_id is Some {
        players.len() > 0 && shows_player(players.last(), rows.last()) && shows_players(
            players.drop_last(),
            rows.drop_last(),
        )
    } else {
        shows_players(players, rows.drop_last())
    }
}

fn copy_text(text: &Option<String>) -> (r: Option<String>)
    ensures
        r == *text,
{
    match text {
        Some(text) => Some(text.clone()),
        None => None,
    }
}

/// The players that a lobby shows. Rows that could not be read show nobody.
pub fn lobby_players(rows: &Result<Vec<PlayerRow>, String>) -> (r: Vec<LobbyPlayer>)
    ensures
        match *rows {
            Ok(rows) => shows_players(r@, rows@),
            Err(_) => r@.len() == 0,
        },
{
    let mut r: Vec<LobbyPlayer> = Vec::new();
    if let Ok(rows) = rows {
        let mut i: usize = 0;
        assert(rows@.take(0) =~= Seq::empty());
        while i < rows.len()
            invariant
                i <= rows.len(),
                shows_players(r@, rows@.take(i as int)),
            decreases rows.len() - i,
        {
            assert(rows@.take(i + 1).drop_last() =~= rows@.take(i as int));
            assert(rows@.take(i + 1).last() == rows@[i as int]);
            let ghost before = r@;
            if let Some(player) = lobby_player(&rows[i]) {
                r.push(player);
                assert(r@.drop_last() =~= before);
            }
            i = i + 1;
        }
        assert(rows@.take(rows@.len() as int) =~= rows@);
    }
    r
}

/// The name that a player goes by who cannot be asked: the stored one, or one made of the id.
pub open spec fn stored_name(found: Result<Option<Player>, String>, player_id: i64) -> Seq<char> {
    match found {
        Ok(Some(player)) => player.name@,
        _ => "User "@ + crate::text::signed_decimal(player_id as int),
    }
}

/// The name that a player goes by who cannot be asked.
pub fn fallback_name(found: Result<Option<Player>, String>, player_id: i64) -> (r: String)
    ensures
        r@ == stored_name(found, player_id),
{
    match found {
        Ok(Some(player)) => player.name,
        _ => text2("User ", decimal_i64(player_id).as_str()),
    }
}

/// A pending match as the database stores it.
#[derive(Clone, Debug, PartialEq, Eq)]
pub struct PendingRow {
    pub lobby_kind: Option<String>,
    pub shuffle_message_jump_url: Option<String>,
}

/// A pending match of a guild, with the lobby it was made in where that is known.
#[derive(Clone, Debug, PartialEq, Eq)]
pub struct ScopedPendingMatch {
    pub lobby_kind: Option<LobbyKind>,
    pub shuffle_message_jump_url: Option<String>,
}

/// The lobby that a stored value names.
pub open spec fn stored_kind(value: Option<String>) -> Option<LobbyKind> {
    match value {
        Some(value) => crate::kinds::kind_of_value(value@),
        None => None,
    }
}

/// The pending matches of a guild, in order.
pub fn scoped_matches(rows: &Vec<PendingRow>) -> (r: Vec<ScopedPendingMatch>)
    ensures
        r@.len() == rows@.len(),
        forall|i: int|
            0 <= i < rows@.len() ==> (#[trigger] r@[i]).lobby_kind == stored_kind(rows@[i].lobby_kind)
                && r@[i].shuffle_message_jump_url == rows@[i].shuffle_message_jump_url,
{
    let mut r: Vec<ScopedPendingMatch> = Vec::new();
    let mut i: usize = 0;
    while i < rows.len()
        invariant
            i <= rows.len(),
            r@.len() == i,
            forall|k: int|
                0 <= k < i ==> (#[trigger] r@[k]).lobby_kind == stored_kind(rows@[k].lobby_kind)
                    && r@[k].shuffle_message_jump_url == rows@[k].shuffle_message_jump_url,
        decreases rows.len() - i,
    {
        let lobby_kind = match &rows[i].lobby_kind {
            Some(value) => parse_lobby_kind(value.as_str()),
            None => None,
        };
        r.push(
            ScopedPendingMatch {
                lobby_kind,
                shuffle_message_jump_url: copy_text(&rows[i].shuffle_message_jump_url),
            },
        );
        i = i + 1;
    }
    r
}

/// What the two lobbies would pay for the first game of the day.
#[derive(Clone, Copy, Debug, PartialEq, Eq, Structural)]
pub struct FirstGamePoolPreviews {
    pub open: i64,
    pub low_skill: i64,
}

/// What the lobbies would pay; nothing where that could not be read.
pub fn previews_or_nothing(previews: Result<FirstGamePoolPreviews, String>) -> (r:
    FirstGamePoolPreviews)
    ensures
        r == match previews {
            Ok(previews) => previews,
            Err(_) => FirstGamePoolPreviews { open: 0, low_skill: 0 },
        },
{
    match previews {
        Ok(previews) => previews,
        Err(_) => FirstGamePoolPreviews { open: 0, low_skill: 0 },
    }
}

/// The time zone that a player set; none where that could not be read.
pub fn zone_or_none(zone: Result<Option<String>, String>) -> (r: Option<String>)
    ensures
        r == match zone {
            Ok(zone) => zone,
            Err(_) => None,
        },
{
    match zone {
        Ok(zone) => zone,
        Err(_) => None,
    }
}

/// A lobby shows a player as they are stored; only the numbers that do not fit are left out.
pub proof fn players_are_shown_as_stored(player: LobbyPlayer, row: PlayerRow)
    requires
        shows_player(player, row),
    ensures
        row.discord_id == Some(player.discord_id),
        player.name == row.name,
        player.glicko_rating == row.glicko_rating,
        player.guild_id == row.guild_id,
        player.preferred_region == row.preferred_region,
        player.inferred_region == row.inferred_region,
        row.mmr matches Some(mmr) ==> (i32::MIN <= mmr <= i32::MAX ==> player.mmr == Some(
            mmr as i32,
        )),
        row.mmr is None ==> player.mmr is None,
        row.preferred_roles is None ==> player.preferred_roles@.len() == 0,
        row.preferred_roles matches Some(roles) ==> player.preferred_roles@.len() <= roles@.len(),
{
    if let Some(roles) = row.preferred_roles {
        roles_only_get_fewer(roles@);
    }
}

proof fn roles_only_get_fewer(roles: Seq<String>)
    ensures
        role_numbers(roles).len() <= roles.len(),
    decreases roles.len(),
{
    if roles.len() > 0 {
        roles_only_get_fewer(roles.drop_last());
    }
}

/// A role that is written as one digit is read as that digit, and what is not a number is not read.
pub proof fn single_digits_are_read(digit: int)
    requires
        0 <= digit <= 9,
    ensures
        small_number(seq![('0' as int + digit) as char]) == Some(digit as u8),
        small_number(Seq::empty()) is None,
{
    let c = ('0' as int + digit) as char;
    let text = seq![c];
    reveal_with_fuel(digits_value, 3);
    assert(text.drop_last() =~= Seq::empty());
    assert(text.last() == c);
    assert(digits_value(text) == Some(digit));
}

/// A player who cannot be asked goes by the stored name, and by their id where there is none.
pub proof fn stored_names_are_used(player: Player, player_id: i64)
    ensures
        stored_name(Ok(Some(player)), player_id) == player.name@,
        crate::text::contains_text(
            stored_name(Ok(None), player_id),
            crate::text::signed_decimal(player_id as int),
        ),
{
    crate::text::middles_stand(
        "User "@,
        crate::text::signed_decimal(player_id as int),
        Seq::empty(),
    );
}

/// A stored match belongs to the lobby whose value it holds, and to none where it holds no such value.
pub proof fn matches_belong_to_their_lobby(value: String)
    ensures
        value@ == "open"@ ==> stored_kind(Some(value)) == Some(LobbyKind::Open),
        value@ == "lowskill"@ ==> stored_kind(Some(value)) == Some(LobbyKind::LowSkill),
        value@ != "open"@ && value@ != "lowskill"@ ==> stored_kind(Some(value)) is None,
        stored_kind(None) is None,
{
    crate::kinds::kinds_have_words_of_their_own(arbitrary());
}

/// A lobby shows everybody whose row has an id, in the order of the rows.
pub proof fn everybody_with_an_id_is_shown(players: Seq<LobbyPlayer>, rows: Seq<PlayerRow>, i: int)
    requires
        shows_players(players, rows),
        forall|k: int| 0 <= k < rows.len() ==> (#[trigger] rows[k]).discord_id is Some,
    ensures
        players.len() == rows.len(),
        0 <= i < rows.len() ==> rows[i].discord_id == Some(players[i].discord_id) && players[i].name
            == rows[i].name,
    decreases rows.len(),
{
    if rows.len() > 0 {
        assert(rows[rows.len() - 1].discord_id is Some);
        let before = rows.drop_last();
        assert forall|k: int| 0 <= k < before.len() implies (#[trigger] before[k]).discord_id is Some by {
            assert(before[k] == rows[k]);
        }
        everybody_with_an_id_is_shown(players.drop_last(), before, i);
        if 0 <= i < before.len() {
            assert(before[i] == rows[i]);
            assert(players.drop_last()[i] == players[i]);
        }
    }
}

} // verus!
