//! Ready checks: what their message shows, whom they call, and how they follow the lobby.
use vstd::prelude::*;
use std::collections::BTreeMap;
use std::collections::BTreeSet;
use crate::ids::to_u64;
use crate::kinds::LobbyKind;
use crate::kinds::Wording;
use crate::message::DiscordMessage;
use crate::message::DiscordMessageContentMode;
use crate::message::InteractionEmbed;
use crate::message::InteractionEmbedField;
use crate::message::InteractionResponse;
use crate::message::call_out;
use crate::presence::ReadinessGroup;
use crate::sets::common;
use crate::sets::key_list;
use crate::sets::members;
use crate::sets::valid_ids;
use crate::text::contents;
use crate::text::decimal_u64;
use crate::text::join_texts;
use crate::text::joined;
use crate::text::tag_i64;
use crate::text::tag_u64;
use crate::text::text2;
use crate::text::text3;
use crate::text::text4;
use crate::text::text5;

verus! {

/// What a ready check knows of a player.
#[derive(Clone, Debug, PartialEq, Eq)]
pub struct ReadycheckPlayerData {
    pub name: String,
    pub group: ReadinessGroup,
}

/// A ready check in progress.
#[derive(Clone, Debug, PartialEq, Eq)]
pub struct ReadycheckGeneration {
    pub channel_id: i64,
    pub message_id: i64,
    pub lobby_ids: BTreeSet<i64>,
    pub player_data: BTreeMap<i64, ReadycheckPlayerData>,
    pub reacted: BTreeMap<i64, String>,
    pub declined: BTreeSet<i64>,
}

/// What the message of a ready check shows: the roster, and who has confirmed.
#[derive(Clone, Debug, PartialEq, Eq)]
pub struct ReadycheckBoard {
    pub kind: LobbyKind,
    pub players: BTreeMap<i64, ReadycheckPlayerData>,
    pub reacted: BTreeMap<i64, String>,
}

/// The line of a player who has not confirmed.
pub open spec fn player_line(id: i64, data: ReadycheckPlayerData) -> Seq<char> {
    match data.group {
        ReadinessGroup::Ready => data.name@ + " 🟢"@,
        ReadinessGroup::PlayingDota => data.name@ + " 🎮"@,
        ReadinessGroup::Recent => data.name@ + " 🆕"@,
        ReadinessGroup::Afk => crate::text::tag(id as int) + " 🔴"@,
    }
}

/// The lines of the players among `ids` who have not confirmed and are away, or are not.
pub open spec fn player_lines(
    ids: Seq<i64>,
    players: Map<i64, ReadycheckPlayerData>,
    reacted: Set<i64>,
    away: bool,
) -> Seq<Seq<char>>
    decreases ids.len(),
{
    if ids.len() == 0 {
        Seq::empty()
    } else {
        let rest = player_lines(ids.drop_last(), players, reacted, away);
        let id = ids.last();
        if !reacted.contains(id) && (players[id].group == ReadinessGroup::Afk) == away {
            rest.push(player_line(id, players[id]))
        } else {
            rest
        }
    }
}

/// The marks of the players who have confirmed.
pub open spec fn confirmation_lines(ids: Seq<i64>, reacted: Map<i64, String>) -> Seq<Seq<char>> {
    ids.map_values(|id: i64| reacted[id]@)
}

/// A titled list with its length, left out if it is empty.
pub open spec fn section(title: Seq<char>, lines: Seq<Seq<char>>) -> Seq<(Seq<char>, Seq<char>)> {
    if lines.len() == 0 {
        Seq::empty()
    } else {
        seq![(title + crate::text::decimal(lines.len()) + ")"@, joined(lines, "\n"@))]
    }
}

/// The sections of a ready-check message: the active, the away, and those who confirmed.
pub open spec fn board_sections(board: ReadycheckBoard) -> Seq<(Seq<char>, Seq<char>)> {
    let ids = crate::sets::listing(board.players@.dom());
    let reacted = board.reacted@.dom();
    section("✅ Likely Active ("@, player_lines(ids, board.players@, reacted, false)) + section(
        "⚠️ Possibly AFK ("@,
        player_lines(ids, board.players@, reacted, true),
    ) + section(
        "✅ Reacted to Ready Check ("@,
        confirmation_lines(crate::sets::listing(reacted), board.reacted@),
    )
}

/// The fields hold these sections, each across the full width.
pub open spec fn fields_are(
    fields: Seq<InteractionEmbedField>,
    sections: Seq<(Seq<char>, Seq<char>)>,
) -> bool {
    &&& fields.len() == sections.len()
    &&& forall|i: int|
        0 <= i < fields.len() ==> (#[trigger] fields[i]).name@ == sections[i].0 && fields[i].value@
            == sections[i].1 && !fields[i].inline
}

/// The color of a ready-check message.
pub const READYCHECK_COLOR: u32 = 0x34_98_db;

/// The card shows this board under this description.
pub open spec fn shows_board(
    embed: InteractionEmbed,
    board: ReadycheckBoard,
    description: Seq<char>,
    wording: Wording,
) -> bool {
    &&& crate::commands::optional_string(embed.title) == Some(
        wording.label_of(board.kind) + " Ready Check"@,
    )
    &&& crate::commands::optional_string(embed.description) == Some(description)
    &&& embed.color == Some(READYCHECK_COLOR)
    &&& crate::commands::optional_string(embed.footer) == Some(
        "React with ✅ to confirm you are ready"@,
    )
    &&& fields_are(embed.fields@, board_sections(board))
}

fn player_line_text(id: i64, data: &ReadycheckPlayerData) -> (r: String)
    ensures
        r@ == player_line(id, *data),
{
    match data.group {
        ReadinessGroup::Ready => text2(data.name.as_str(), " 🟢"),
        ReadinessGroup::PlayingDota => text2(data.name.as_str(), " 🎮"),
        ReadinessGroup::Recent => text2(data.name.as_str(), " 🆕"),
        ReadinessGroup::Afk => text2(tag_i64(id).as_str(), " 🔴"),
    }
}

fn player_line_texts(
    ids: &Vec<i64>,
    players: &BTreeMap<i64, ReadycheckPlayerData>,
    reacted: &BTreeMap<i64, String>,
    away: bool,
) -> (r: Vec<String>)
    requires
        forall|i: int| 0 <= i < ids@.len() ==> players@.dom().contains(#[trigger] ids@[i]),
    ensures
        contents(r@) == player_lines(ids@, players@, reacted@.dom(), away),
{
    let mut r: Vec<String> = Vec::new();
    let mut i: usize = 0;
    assert(ids@.take(0) =~= Seq::empty());
    assert(contents(r@) =~= Seq::empty());
    while i < ids.len()
        invariant
            i <= ids.len(),
            forall|i: int| 0 <= i < ids@.len() ==> players@.dom().contains(#[trigger] ids@[i]),
            contents(r@) == player_lines(ids@.take(i as int), players@, reacted@.dom(), away),
        decreases ids.len() - i,
    {
        let id: i64 = ids[i];
        assert(ids@.take(i + 1).drop_last() =~= ids@.take(i as int));
        assert(ids@.take(i + 1).last() == id);
        assert(players@.dom().contains(ids@[i as int]));
        if !reacted.contains_key(&id) {
            if let Some(data) = players.get(&id) {
                if (data.group == ReadinessGroup::Afk) == away {
                    let ghost before = r@;
                    let line = player_line_text(id, data);
                    let ghost shown = line@;
                    r.push(line);
                    assert(contents(r@) =~= contents(before).push(shown));
                }
            }
        }
        i = i + 1;
    }
    assert(ids@.take(ids@.len() as int) =~= ids@);
    r
}

fn confirmation_texts(ids: &Vec<i64>, reacted: &BTreeMap<i64, String>) -> (r: Vec<String>)
    requires
        forall|i: int| 0 <= i < ids@.len() ==> reacted@.dom().contains(#[trigger] ids@[i]),
    ensures
        contents(r@) == confirmation_lines(ids@, reacted@),
{
    let mut r: Vec<String> = Vec::new();
    let mut i: usize = 0;
    while i < ids.len()
        invariant
            i <= ids.len(),
            forall|i: int| 0 <= i < ids@.len() ==> reacted@.dom().contains(#[trigger] ids@[i]),
            r@.len() == i,
            forall|k: int| 0 <= k < i ==> (#[trigger] r@[k])@ == reacted@[ids@[k]]@,
        decreases ids.len() - i,
    {
        let id: i64 = ids[i];
        assert(reacted@.dom().contains(ids@[i as int]));
        match reacted.get(&id) {
            Some(mark) => r.push(mark.clone()),
            None => r.push(String::new()),
        }
        i = i + 1;
    }
    assert(contents(r@) =~= confirmation_lines(ids@, reacted@));
    r
}

fn add_section(fields: &mut Vec<InteractionEmbedField>, title: &str, lines: &Vec<String>)
    ensures
        lines@.len() == 0 ==> final(fields)@ == old(fields)@,
        lines@.len() > 0 ==> {
            &&& final(fields)@.len() == old(fields)@.len() + 1
            &&& final(fields)@.drop_last() == old(fields)@
            &&& final(fields)@.last().name@ == title@ + crate::text::decimal(lines@.len()) + ")"@
            &&& final(fields)@.last().value@ == joined(contents(lines@), "\n"@)
            &&& !final(fields)@.last().inline
        },
{
    if lines.len() > 0 {
        let count = decimal_u64(lines.len() as u64);
        fields.push(
            InteractionEmbedField {
                name: text3(title, count.as_str(), ")"),
                value: join_texts(lines, "\n"),
                inline: false,
            },
        );
        assert(fields@.drop_last() =~= old(fields)@);
    }
}

fn board_fields(board: &ReadycheckBoard) -> (r: Vec<InteractionEmbedField>)
    ensures
        fields_are(r@, board_sections(*board)),
{
    let ids = key_list(&board.players);
    let confirmed = key_list(&board.reacted);
    assert forall|i: int| 0 <= i < ids@.len() implies board.players@.dom().contains(
        #[trigger] ids@[i],
    ) by {
        assert(ids@.contains(ids@[i]));
    }
    assert forall|i: int| 0 <= i < confirmed@.len() implies board.reacted@.dom().contains(
        #[trigger] confirmed@[i],
    ) by {
        assert(confirmed@.contains(confirmed@[i]));
    }
    let active = player_line_texts(&ids, &board.players, &board.reacted, false);
    let away = player_line_texts(&ids, &board.players, &board.reacted, true);
    let marks = confirmation_texts(&confirmed, &board.reacted);
    let ghost first = section("✅ Likely Active ("@, contents(active@));
    let ghost second = section("⚠️ Possibly AFK ("@, contents(away@));
    let ghost third = section("✅ Reacted to Ready Check ("@, contents(marks@));
    let mut fields: Vec<InteractionEmbedField> = Vec::new();
    add_section(&mut fields, "✅ Likely Active (", &active);
    assert(fields_are(fields@, first));
    let ghost one = fields@;
    add_section(&mut fields, "⚠️ Possibly AFK (", &away);
    assert(fields_are(fields@, first + second)) by {
        assert(forall|i: int| 0 <= i < one.len() ==> #[trigger] fields@[i] == one[i]);
    }
    let ghost two = fields@;
    add_section(&mut fields, "✅ Reacted to Ready Check (", &marks);
    assert(fields_are(fields@, first + second + third)) by {
        assert(forall|i: int| 0 <= i < two.len() ==> #[trigger] fields@[i] == two[i]);
    }
    fields
}

/// The card of a ready check.
pub fn readycheck_embed(board: &ReadycheckBoard, description: String, wording: &Wording) -> (r:
    InteractionEmbed)
    ensures
        shows_board(r, *board, description@, *wording),
{
    InteractionEmbed {
        title: Some(text2(wording.label(board.kind), " Ready Check")),
        description: Some(description),
        color: Some(READYCHECK_COLOR),
        footer: Some("React with ✅ to confirm you are ready".to_owned()),
        fields: board_fields(board),
    }
}

/// The message of a ready check: a card that notifies nobody.
pub open spec fn board_message_is(
    m: DiscordMessage,
    board: ReadycheckBoard,
    description: Seq<char>,
    mode: DiscordMessageContentMode,
    wording: Wording,
) -> bool {
    &&& m.response.embed matches Some(embed) && shows_board(embed, board, description, wording)
        && crate::message::card_message(m, embed, mode)
}

/// The message of a ready check, posted or repainted.
pub fn board_message(
    board: &ReadycheckBoard,
    description: String,
    mode: DiscordMessageContentMode,
    wording: &Wording,
) -> (r: DiscordMessage)
    ensures
        board_message_is(r, *board, description@, mode, *wording),
{
    let embed = readycheck_embed(board, description, wording);
    let ghost shown = embed;
    let message = DiscordMessage::card(embed, mode);
    proof {
        let card = message.response.embed->0;
        assert(crate::message::same_card(card, shown));
        assert(crate::message::same_card(card, card));
    }
    message
}

/// Why a ready check is refused.
#[derive(Clone, Copy, Debug, PartialEq, Eq, Structural)]
pub enum ReadycheckCommandFailure {
    NoGuild,
    NoLobby,
    NotMember,
    NoThread,
    Cooldown,
    PublicationInFlight,
}

/// What the invoker of a refused ready check is told.
pub open spec fn failure_text(failure: ReadycheckCommandFailure) -> Seq<char> {
    match failure {
        ReadycheckCommandFailure::NoGuild => "❌ Ready checks can only run in a server."@,
        ReadycheckCommandFailure::NoLobby
            => "❌ Ready check failed — make sure a lobby exists, then try again."@,
        ReadycheckCommandFailure::NotMember => "❌ Join that lobby before running a ready check."@,
        ReadycheckCommandFailure::NoThread
            => "❌ Lobby thread not found. Use `/lobby` to repair or recreate the lobby."@,
        ReadycheckCommandFailure::Cooldown
            => "⏳ A ready check was just sent. Please wait before trying again."@,
        ReadycheckCommandFailure::PublicationInFlight
            => "⏳ A ready check is already being published. Please try again in a moment."@,
    }
}

/// What the invoker of a refused ready check is told.
pub fn readycheck_failure_message(failure: ReadycheckCommandFailure) -> (r: &'static str)
    ensures
        r@ == failure_text(failure),
{
    match failure {
        ReadycheckCommandFailure::NoGuild => "❌ Ready checks can only run in a server.",
        ReadycheckCommandFailure::NoLobby =>
            "❌ Ready check failed — make sure a lobby exists, then try again.",
        ReadycheckCommandFailure::NotMember => "❌ Join that lobby before running a ready check.",
        ReadycheckCommandFailure::NoThread =>
            "❌ Lobby thread not found. Use `/lobby` to repair or recreate the lobby.",
        ReadycheckCommandFailure::Cooldown =>
            "⏳ A ready check was just sent. Please wait before trying again.",
        ReadycheckCommandFailure::PublicationInFlight =>
            "⏳ A ready check is already being published. Please try again in a moment.",
    }
}

/// The address of a message, for its readers.
pub open spec fn jump_url(guild_id: i64, channel_id: i64, message_id: i64) -> Seq<char> {
    "https://discord.com/channels/"@ + crate::text::decimal(guild_id as nat) + "/"@
        + crate::text::decimal(channel_id as nat) + "/"@ + crate::text::decimal(message_id as nat)
}

/// The address of a message, for its readers; ids that Discord cannot have issued are refused.
pub fn discord_jump_url(guild_id: i64, channel_id: i64, message_id: i64) -> (r: Result<
    String,
    String,
>)
    ensures
        match crate::lobby::first_bad_id(guild_id, channel_id, message_id) {
            Some(bad) => r matches Err(text) && text@ == crate::ids::bad_snowflake_text(bad as int),
            None => r matches Ok(url) && url@ == jump_url(guild_id, channel_id, message_id),
        },
{
    let guild = to_u64(guild_id)?;
    let channel = to_u64(channel_id)?;
    let message = to_u64(message_id)?;
    let mut url = "https://discord.com/channels/".to_owned();
    url.append(decimal_u64(guild).as_str());
    url.append("/");
    url.append(decimal_u64(channel).as_str());
    url.append("/");
    url.append(decimal_u64(message).as_str());
    Ok(url)
}

/// The tags of these users.
pub open spec fn tags(users: Seq<u64>) -> Seq<Seq<char>> {
    users.map_values(|user: u64| crate::text::tag(user as int))
}

/// The call to a ready check, with the way to it where it is made elsewhere.
pub open spec fn ping_text(
    kind: LobbyKind,
    users: Seq<u64>,
    url: Option<Seq<char>>,
    wording: Wording,
) -> Seq<char> {
    let call = "⚔️ **"@ + wording.label_of(kind) + " ready check!** "@ + joined(tags(users), " "@);
    match url {
        Some(url) => call + "\n[React in the lobby thread]("@ + url + ")"@,
        None => call,
    }
}

fn tag_texts(users: &Vec<u64>) -> (r: Vec<String>)
    ensures
        contents(r@) == tags(users@),
{
    let mut r: Vec<String> = Vec::new();
    let mut i: usize = 0;
    while i < users.len()
        invariant
            i <= users.len(),
            r@.len() == i,
            forall|k: int| 0 <= k < i ==> (#[trigger] r@[k])@ == crate::text::tag(users@[k] as int),
        decreases users.len() - i,
    {
        r.push(tag_u64(users[i]));
        i = i + 1;
    }
    assert(contents(r@) =~= tags(users@));
    r
}

fn call_text(kind: LobbyKind, users: &Vec<u64>, url: Option<&str>, wording: &Wording) -> (r: String)
    ensures
        r@ == ping_text(kind, users@, crate::commands::optional_text(url), *wording),
{
    let tags = join_texts(&tag_texts(users), " ");
    let mut text = text4("⚔️ **", wording.label(kind), " ready check!** ", tags.as_str());
    if let Some(url) = url {
        text.append("\n[React in the lobby thread](");
        text.append(url);
        text.append(")");
    }
    text
}

/// The players whom a ready check calls by their Discord ids, in ascending order.
pub open spec fn called(mention_ids: Set<i64>, mentionable: Set<i64>) -> Seq<u64> {
    crate::sets::snowflakes(crate::sets::listing(mention_ids.intersect(mentionable)))
}

/// The message that calls the awaited players who can be mentioned; none, if there is nobody to
/// call.
pub fn readycheck_ping(
    kind: LobbyKind,
    mention_ids: &BTreeSet<i64>,
    mentionable: &BTreeSet<i64>,
    url: Option<&str>,
    wording: &Wording,
) -> (r: Option<DiscordMessage>)
    ensures
        r is None <==> called(mention_ids@, mentionable@).len() == 0,
        r matches Some(message) ==> crate::message::calling_text(
            message,
            ping_text(
                kind,
                called(mention_ids@, mentionable@),
                crate::commands::optional_text(url),
                *wording,
            ),
            called(mention_ids@, mentionable@),
        ),
{
    let users = valid_ids(&members(&common(mention_ids, mentionable)));
    if users.len() == 0 {
        return None;
    }
    let text = call_text(kind, &users, url, wording);
    Some(DiscordMessage::calling(text, users))
}

/// A ready check that was carried out.
#[derive(Clone, Debug, PartialEq, Eq)]
pub struct ReadycheckRunResult {
    pub jump_url: String,
    pub is_refresh: bool,
    pub pruned_count: usize,
    pub mention_ids: BTreeSet<i64>,
    pub readycheck_channel_id: i64,
}

/// Why a ready check was not carried out.
#[derive(Clone, Debug, PartialEq, Eq)]
pub enum ReadycheckRunError {
    Policy(ReadycheckCommandFailure),
    Transport(String),
}

/// The error is this report of a failed delivery.
pub open spec fn transport_error(error: ReadycheckRunError, text: Seq<char>) -> bool {
    error matches ReadycheckRunError::Transport(message) && message@ == text
}

/// The players called by the answer to a ready check made elsewhere.
pub open spec fn answered_calls(result: ReadycheckRunResult) -> Seq<u64> {
    crate::sets::snowflakes(crate::sets::listing(result.mention_ids@))
}

/// The answer to a ready check that calls players to another channel: it is made elsewhere and
/// somebody is awaited.
pub open spec fn calls_elsewhere(result: ReadycheckRunResult, channel_id: i64) -> bool {
    !result.mention_ids@.is_empty() && channel_id != result.readycheck_channel_id
}

/// The plain answer to a ready check.
pub open spec fn readycheck_answer(
    kind: LobbyKind,
    result: ReadycheckRunResult,
    wording: Wording,
) -> Seq<char> {
    let verb = if result.is_refresh {
        " ready check refreshed! [View]("@
    } else {
        " ready check posted! [View]("@
    };
    let answer = "✅ "@ + wording.label_of(kind) + verb + result.jump_url@ + ")"@;
    if result.pruned_count != 0 {
        answer + " Removed "@ + crate::text::decimal(result.pruned_count as nat)
            + " away player(s); they can rejoin with `/join`."@
    } else {
        answer
    }
}

/// The reply to the invoker of a ready check.
pub open spec fn answers_readycheck(
    r: InteractionResponse,
    kind: LobbyKind,
    channel_id: i64,
    result: ReadycheckRunResult,
    wording: Wording,
) -> bool {
    if calls_elsewhere(result, channel_id) {
        crate::message::public_call(
            r,
            ping_text(kind, answered_calls(result), Some(result.jump_url@), wording),
            answered_calls(result),
        )
    } else {
        crate::message::private_reply(r, readycheck_answer(kind, result, wording))
    }
}

/// The reply to the invoker of a ready check.
pub fn answer_readycheck(
    kind: LobbyKind,
    channel_id: i64,
    result: &ReadycheckRunResult,
    wording: &Wording,
) -> (r: InteractionResponse)
    ensures
        answers_readycheck(r, kind, channel_id, *result, *wording),
{
    if !result.mention_ids.is_empty() && channel_id != result.readycheck_channel_id {
        let users = valid_ids(&members(&result.mention_ids));
        let text = call_text(kind, &users, Some(result.jump_url.as_str()), wording);
        return call_out(text, users);
    }
    let verb = if result.is_refresh {
        " ready check refreshed! [View]("
    } else {
        " ready check posted! [View]("
    };
    let mut answer = text5("✅ ", wording.label(kind), verb, result.jump_url.as_str(), ")");
    if result.pruned_count != 0 {
        answer.append(" Removed ");
        answer.append(decimal_u64(result.pruned_count as u64).as_str());
        answer.append(" away player(s); they can rejoin with `/join`.");
    }
    crate::message::whisper(answer)
}

/// Whichever form the answer to a check takes, it names the lobby by its label and gives the
/// address of the check.
pub proof fn answers_lead_to_the_check(
    kind: LobbyKind,
    channel_id: i64,
    result: ReadycheckRunResult,
    wording: Wording,
)
    ensures
        forall|r: InteractionResponse| #[trigger]
            answers_readycheck(r, kind, channel_id, result, wording) ==> {
                &&& crate::text::contains_text(r.content@, result.jump_url@)
                &&& crate::text::contains_text(r.content@, wording.label_of(kind))
                &&& r.embed is None
            },
{
    let label = wording.label_of(kind);
    let url = result.jump_url@;
    let users = answered_calls(result);
    calls_name_the_lobby(kind, users, Some(url), wording);
    let verb = if result.is_refresh {
        " ready check refreshed! [View]("@
    } else {
        " ready check posted! [View]("@
    };
    let answer = "✅ "@ + label + verb + url + ")"@;
    let whole = readycheck_answer(kind, result, wording);
    let from = "✅ "@.len() as int;
    let at = ("✅ "@ + label + verb).len() as int;
    assert(whole.subrange(from, from + label.len()) =~= label);
    assert(whole.subrange(at, at + url.len()) =~= url);
}

/// A call to a check names its lobby by its label, tags everybody it calls, and gives the address
/// of the check where it is made elsewhere.
pub proof fn calls_name_the_lobby(
    kind: LobbyKind,
    users: Seq<u64>,
    url: Option<Seq<char>>,
    wording: Wording,
)
    ensures
        crate::text::contains_text(ping_text(kind, users, url, wording), wording.label_of(kind)),
        url matches Some(url) ==> crate::text::contains_text(
            ping_text(kind, users, Some(url), wording),
            url,
        ),
        forall|i: int|
            0 <= i < users.len() ==> crate::text::contains_text(
                ping_text(kind, users, url, wording),
                #[trigger] crate::text::tag(users[i] as int),
            ),
{
    let label = wording.label_of(kind);
    let whole = ping_text(kind, users, url, wording);
    let from = "⚔️ **"@.len() as int;
    assert(whole.subrange(from, from + label.len()) =~= label);
    let head = "⚔️ **"@ + label + " ready check!** "@;
    let list = joined(tags(users), " "@);
    if let Some(url) = url {
        let before = head + list + "\n[React in the lobby thread]("@;
        let at = before.len() as int;
        assert(whole.subrange(at, at + url.len()) =~= url);
    }
    assert forall|i: int| 0 <= i < users.len() implies crate::text::contains_text(
        whole,
        #[trigger] crate::text::tag(users[i] as int),
    ) by {
        let tag = crate::text::tag(users[i] as int);
        assert(tags(users)[i] == tag);
        crate::text::joined_texts_hold_their_parts(tags(users), " "@, i);
        let behind = match url {
            Some(url) => "\n[React in the lobby thread]("@ + url + ")"@,
            None => Seq::empty(),
        };
        crate::text::parts_stay(head, list, behind, tag);
        assert(whole =~= head + list + behind);
    }
}

/// A check calls exactly the awaited players who can be mentioned and whom Discord can know.
pub proof fn exactly_the_awaited_are_called(mention_ids: Set<i64>, mentionable: Set<i64>, user: u64)
    requires
        mention_ids.finite(),
    ensures
        called(mention_ids, mentionable).contains(user) <==> user <= i64::MAX
            && mention_ids.contains(user as i64) && mentionable.contains(user as i64),
{
    let both = mention_ids.intersect(mentionable);
    vstd::set_lib::lemma_set_subset_finite(mention_ids, both);
    crate::sets::finite_sets_can_be_listed(both);
    let listed = crate::sets::listing(both);
    crate::sets::snowflakes_are_the_valid_ids(listed);
    assert(listed.contains(user as i64) <==> both.contains(user as i64));
}

/// A section whose title begins so lists this line.
pub open spec fn lists_under(
    sections: Seq<(Seq<char>, Seq<char>)>,
    title: Seq<char>,
    line: Seq<char>,
) -> bool {
    exists|i: int|
        {
            &&& 0 <= i < sections.len()
            &&& title.is_prefix_of((#[trigger] sections[i]).0)
            &&& crate::text::contains_text(sections[i].1, line)
        }
}

proof fn waiting_players_have_a_line(
    ids: Seq<i64>,
    players: Map<i64, ReadycheckPlayerData>,
    reacted: Set<i64>,
    away: bool,
    id: i64,
) -> (k: int)
    requires
        ids.contains(id),
        !reacted.contains(id),
        (players[id].group is Afk) == away,
    ensures
        0 <= k < player_lines(ids, players, reacted, away).len(),
        player_lines(ids, players, reacted, away)[k] == player_line(id, players[id]),
    decreases ids.len(),
{
    let rest = player_lines(ids.drop_last(), players, reacted, away);
    if ids.last() == id {
        rest.len() as int
    } else {
        let i = choose|i: int| 0 <= i < ids.len() && ids[i] == id;
        assert(ids.drop_last()[i] == id);
        waiting_players_have_a_line(ids.drop_last(), players, reacted, away, id)
    }
}

proof fn sections_list_their_lines(title: Seq<char>, lines: Seq<Seq<char>>, k: int)
    requires
        0 <= k < lines.len(),
    ensures
        section(title, lines).len() == 1,
        title.is_prefix_of(section(title, lines)[0].0),
        crate::text::contains_text(section(title, lines)[0].1, lines[k]),
{
    crate::text::joined_texts_hold_their_parts(lines, "\n"@, k);
    let name = title + crate::text::decimal(lines.len()) + ")"@;
    assert(name.subrange(0int, title.len() as int) =~= title);
}

/// Everybody is on the board: a player who confirmed, by their mark, under the heading of those who
/// did; anybody else under that of the active or of the away, by their name, or by their tag if
/// they are away.
pub proof fn boards_list_everybody(board: ReadycheckBoard, id: i64)
    requires
        board.players@.dom().finite(),
        board.reacted@.dom().finite(),
    ensures
        board.reacted@.dom().contains(id) ==> lists_under(
            board_sections(board),
            "✅ Reacted to Ready Check ("@,
            board.reacted@[id]@,
        ),
        board.players@.dom().contains(id) && !board.reacted@.dom().contains(id) ==> (if (
        board.players@[id].group is Afk) {
            lists_under(
                board_sections(board),
                "⚠️ Possibly AFK ("@,
                crate::text::tag(id as int),
            )
        } else {
            lists_under(board_sections(board), "✅ Likely Active ("@, board.players@[id].name@)
        }),
{
    let ids = crate::sets::listing(board.players@.dom());
    let reacted = board.reacted@.dom();
    let marked = crate::sets::listing(reacted);
    crate::sets::finite_sets_can_be_listed(board.players@.dom());
    crate::sets::finite_sets_can_be_listed(reacted);
    let active = player_lines(ids, board.players@, reacted, false);
    let away = player_lines(ids, board.players@, reacted, true);
    let marks = confirmation_lines(marked, board.reacted@);
    let sections = board_sections(board);
    let first = section("✅ Likely Active ("@, active);
    let second = section("⚠️ Possibly AFK ("@, away);
    let third = section("✅ Reacted to Ready Check ("@, marks);
    assert(sections == first + second + third);
    assert(ids.contains(id) <==> board.players@.dom().contains(id));
    assert(marked.contains(id) <==> reacted.contains(id));
    if reacted.contains(id) {
        let k = choose|k: int| 0 <= k < marked.len() && marked[k] == id;
        assert(marks[k] == board.reacted@[id]@);
        sections_list_their_lines("✅ Reacted to Ready Check ("@, marks, k);
        assert(sections[(first + second).len() as int] == third[0]);
    } else if board.players@.dom().contains(id) {
        let data = board.players@[id];
        if data.group is Afk {
            let k = waiting_players_have_a_line(ids, board.players@, reacted, true, id);
            sections_list_their_lines("⚠️ Possibly AFK ("@, away, k);
            assert(sections[first.len() as int] == second[0]);
            let tag = crate::text::tag(id as int);
            crate::text::middles_stand(Seq::empty(), tag, " 🔴"@);
            holds_through(second[0].1, away[k], tag);
        } else {
            let k = waiting_players_have_a_line(ids, board.players@, reacted, false, id);
            sections_list_their_lines("✅ Likely Active ("@, active, k);
            assert(sections[0] == first[0]);
            crate::text::middles_stand(Seq::empty(), data.name@, " 🟢"@);
            crate::text::middles_stand(Seq::empty(), data.name@, " 🎮"@);
            crate::text::middles_stand(Seq::empty(), data.name@, " 🆕"@);
            holds_through(first[0].1, active[k], data.name@);
        }
    }
}

proof fn holds_through(text: Seq<char>, line: Seq<char>, part: Seq<char>)
    requires
        crate::text::contains_text(text, line),
        crate::text::contains_text(line, part),
    ensures
        crate::text::contains_text(text, part),
{
    let i = choose|i: int|
        0 <= i && i + line.len() <= text.len() && #[trigger] text.subrange(i, i + line.len())
            == line;
    let before = text.subrange(0, i);
    let behind = text.subrange(i + line.len(), text.len() as int);
    assert(text =~= before + line + behind);
    crate::text::parts_stay(before, line, behind, part);
}

proof fn waiting_lists_pass_over_the_confirmed(
    ids: Seq<i64>,
    one: Map<i64, ReadycheckPlayerData>,
    other: Map<i64, ReadycheckPlayerData>,
    reacted: Set<i64>,
    away: bool,
)
    requires
        forall|id: i64| ids.contains(id) && !reacted.contains(id) ==> #[trigger] one[id] == other[id],
    ensures
        player_lines(ids, one, reacted, away) == player_lines(ids, other, reacted, away),
    decreases ids.len(),
{
    if ids.len() > 0 {
        let last = ids.last();
        assert(ids.contains(ids[ids.len() - 1]));
        if !reacted.contains(last) {
            assert(one[last] == other[last]);
        }
        assert forall|id: i64| ids.drop_last().contains(id) && !reacted.contains(
            id,
        ) implies #[trigger] one[id] == other[id] by {
            let i = choose|i: int| 0 <= i < ids.drop_last().len() && ids.drop_last()[i] == id;
            assert(ids[i] == id);
        }
        waiting_lists_pass_over_the_confirmed(ids.drop_last(), one, other, reacted, away);
    }
}

proof fn waiting_lists_count_the_unconfirmed(
    ids: Seq<i64>,
    players: Map<i64, ReadycheckPlayerData>,
    reacted: Set<i64>,
)
    ensures
        player_lines(ids, players, reacted, false).len() + player_lines(
            ids,
            players,
            reacted,
            true,
        ).len() == ids.filter(|id: i64| !reacted.contains(id)).len(),
    decreases ids.len(),
{
    reveal(Seq::filter);
    if ids.len() > 0 {
        waiting_lists_count_the_unconfirmed(ids.drop_last(), players, reacted);
    }
}

/// A player who confirmed is in no list of those who are waited for: the lists hold as many lines
/// as players have not confirmed, and what is known of those who have makes no difference to them.
pub proof fn confirmed_players_are_waited_for_no_longer(
    one: ReadycheckBoard,
    other: ReadycheckBoard,
    away: bool,
)
    requires
        one.players@.dom() == other.players@.dom(),
        one.reacted@.dom() == other.reacted@.dom(),
        forall|id: i64|
            one.players@.dom().contains(id) && !one.reacted@.dom().contains(id) ==> #[trigger]
            one.players@[id] == other.players@[id],
        one.players@.dom().finite(),
    ensures
        ({
            let ids = crate::sets::listing(one.players@.dom());
            let reacted = one.reacted@.dom();
            &&& player_lines(ids, one.players@, reacted, away) == player_lines(
                ids,
                other.players@,
                reacted,
                away,
            )
            &&& player_lines(ids, one.players@, reacted, false).len() + player_lines(
                ids,
                one.players@,
                reacted,
                true,
            ).len() == ids.filter(|id: i64| !reacted.contains(id)).len()
        }),
        one.reacted@ == other.reacted@ ==> board_sections(one) == board_sections(other),
{
    let ids = crate::sets::listing(one.players@.dom());
    crate::sets::finite_sets_can_be_listed(one.players@.dom());
    let reacted = one.reacted@.dom();
    waiting_lists_pass_over_the_confirmed(ids, one.players@, other.players@, reacted, false);
    waiting_lists_pass_over_the_confirmed(ids, one.players@, other.players@, reacted, true);
    waiting_lists_count_the_unconfirmed(ids, one.players@, reacted);
}

/// The address of a message leads through its guild and its channel to the message itself, in this
/// order.
pub proof fn addresses_lead_to_their_message(guild_id: i64, channel_id: i64, message_id: i64)
    ensures
        ({
            let url = jump_url(guild_id, channel_id, message_id);
            let guild = crate::text::decimal(guild_id as nat);
            let channel = crate::text::decimal(channel_id as nat);
            let message = crate::text::decimal(message_id as nat);
            let start = "https://discord.com/channels/"@.len() as int;
            let middle = start + guild.len() + 1;
            let end = middle + channel.len() + 1;
            &&& url.len() == end + message.len()
            &&& url.subrange(0, start) == "https://discord.com/channels/"@
            &&& url.subrange(start, start + guild.len()) == guild
            &&& url.subrange(middle, middle + channel.len()) == channel
            &&& url.subrange(end, end + message.len()) == message
        }),
{
    let url = jump_url(guild_id, channel_id, message_id);
    let guild = crate::text::decimal(guild_id as nat);
    let channel = crate::text::decimal(channel_id as nat);
    let message = crate::text::decimal(message_id as nat);
    let start = "https://discord.com/channels/"@.len() as int;
    reveal_strlit("/");
    let middle = start + guild.len() + 1;
    let end = middle + channel.len() + 1;
    assert(url.subrange(0, start) =~= "https://discord.com/channels/"@);
    assert(url.subrange(start, start + guild.len()) =~= guild);
    assert(url.subrange(middle, middle + channel.len()) =~= channel);
    assert(url.subrange(end, end + message.len()) =~= message);
}

/// The answer to a check tells a refreshed check from a new one, and tells how many players were
/// taken out exactly if any were.
pub proof fn answers_tell_what_was_done(
    kind: LobbyKind,
    result: ReadycheckRunResult,
    wording: Wording,
)
    ensures
        result.is_refresh ==> crate::text::contains_text(
            readycheck_answer(kind, result, wording),
            " ready check refreshed! [View]("@,
        ),
        !result.is_refresh ==> crate::text::contains_text(
            readycheck_answer(kind, result, wording),
            " ready check posted! [View]("@,
        ),
        result.pruned_count != 0 ==> crate::text::contains_text(
            readycheck_answer(kind, result, wording),
            " Removed "@ + crate::text::decimal(result.pruned_count as nat) + " away player(s)"@,
        ),
{
    let label = wording.label_of(kind);
    let verb = if result.is_refresh {
        " ready check refreshed! [View]("@
    } else {
        " ready check posted! [View]("@
    };
    let whole = readycheck_answer(kind, result, wording);
    let from = ("✅ "@ + label).len() as int;
    assert(whole.subrange(from, from + verb.len()) =~= verb);
    if result.pruned_count != 0 {
        let count = crate::text::decimal(result.pruned_count as nat);
        let part = " Removed "@ + count + " away player(s)"@;
        let at = ("✅ "@ + label + verb + result.jump_url@ + ")"@).len() as int;
        reveal_strlit(" away player(s); they can rejoin with `/join`.");
        reveal_strlit(" away player(s)");
        assert(whole.subrange(at, at + part.len()) =~= part);
    }
}

/// An answer that is made elsewhere than the check calls whom the check awaits, in public; any other
/// answer goes to the invoker alone.
pub proof fn answers_call_only_from_elsewhere(
    r: InteractionResponse,
    kind: LobbyKind,
    channel_id: i64,
    result: ReadycheckRunResult,
    wording: Wording,
    user: u64,
)
    requires
        answers_readycheck(r, kind, channel_id, result, wording),
        result.mention_ids@.finite(),
    ensures
        r.ephemeral <==> result.mention_ids@.is_empty() || channel_id == result.readycheck_channel_id,
        !r.ephemeral ==> (r.allowed_mentions matches crate::message::InteractionAllowedMentions::Users(
            users,
        ) && (users@.contains(user) <==> user <= i64::MAX && result.mention_ids@.contains(
            user as i64,
        ))),
        r.ephemeral ==> r.allowed_mentions is Nobody,
{
    crate::sets::finite_sets_can_be_listed(result.mention_ids@);
    let listed = crate::sets::listing(result.mention_ids@);
    crate::sets::snowflakes_are_the_valid_ids(listed);
    assert(listed.contains(user as i64) <==> result.mention_ids@.contains(user as i64));
}

/// The card of a check has the label of the lobby in its title, the given description, the sections of
/// the board as its fields, each across the full width, and tells how to confirm.
pub proof fn cards_of_checks_show_the_board(
    m: DiscordMessage,
    board: ReadycheckBoard,
    description: Seq<char>,
    mode: DiscordMessageContentMode,
    wording: Wording,
    i: int,
)
    requires
        board_message_is(m, board, description, mode, wording),
    ensures
        m.allowed_mentions is Nobody && m.content_mode == mode,
        m.response.embed matches Some(card) && {
            &&& card.title matches Some(title) && crate::text::contains_text(
                title@,
                wording.label_of(board.kind),
            )
            &&& card.description matches Some(text) && text@ == description
            &&& card.footer matches Some(text) && crate::text::contains_text(text@, "✅"@)
            &&& card.color == Some(0x34_98_dbu32)
            &&& card.fields@.len() == board_sections(board).len()
            &&& 0 <= i < card.fields@.len() ==> card.fields@[i].name@ == board_sections(board)[i].0
                && card.fields@[i].value@ == board_sections(board)[i].1 && !card.fields@[i].inline
        },
{
    crate::text::middles_stand(Seq::empty(), wording.label_of(board.kind), " Ready Check"@);
    let footer = "React with ✅ to confirm you are ready"@;
    reveal_strlit("React with ✅ to confirm you are ready");
    reveal_strlit("✅");
    let width = "✅"@.len() as int;
    assert(footer.subrange(11, 11 + width) =~= "✅"@);
}

} // verus!
