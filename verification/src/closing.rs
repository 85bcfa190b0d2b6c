//! What a reset does to the Discord objects of a lobby.
use vstd::prelude::*;
use std::collections::BTreeSet;
use crate::ids::to_u64;
use crate::kinds::LobbyKind;
use crate::kinds::Wording;
use crate::lobby::LobbyMessageIds;
use crate::message::DiscordAllowedMentions;
use crate::message::DiscordMessage;
use crate::message::DiscordMessageContentMode;
use crate::message::InteractionAllowedMentions;
use crate::message::InteractionEmbed;
use crate::message::InteractionResponse;
use crate::text::text3;

verus! {

/// Whom a message of the reset may notify: nobody, or whom its channel lets it.
#[derive(Clone, Copy, Debug, PartialEq, Eq, Structural)]
pub enum AllowedMentions {
    Nobody,
    Default,
}

/// The color of a closed lobby.
pub const CLOSED_COLOR: u32 = 0xe7_4c_3c;

/// The title of a closed lobby, and the name of its archived thread.
pub open spec fn closed_title(kind: LobbyKind, reason: Seq<char>, wording: Wording) -> Seq<char> {
    wording.label_of(kind) + " — "@ + reason
}

/// The title of a closed lobby, and the name of its archived thread.
pub fn closed_name(kind: LobbyKind, reason: &str, wording: &Wording) -> (r: String)
    ensures
        r@ == closed_title(kind, reason@, *wording),
{
    text3(wording.label(kind), " — ", reason)
}

/// The card of a closed lobby.
pub open spec fn shows_closed(embed: InteractionEmbed, title: Seq<char>) -> bool {
    &&& crate::commands::optional_string(embed.title) == Some(title)
    &&& crate::commands::optional_string(embed.description) == Some("This lobby is closed."@)
    &&& embed.color == Some(CLOSED_COLOR)
    &&& embed.footer is None
    &&& embed.fields@.len() == 0
}

/// A message to be replaced, with what replaces it.
#[derive(Debug, PartialEq, Eq)]
pub struct Replacement {
    pub channel_id: u64,
    pub message_id: u64,
    pub message: DiscordMessage,
}

/// The message of a lobby is closed: its card says so, and its text stays. A lobby without a
/// message has nothing to close; an id that Discord cannot have issued is refused.
pub fn close_lobby_message(
    kind: LobbyKind,
    ids: &LobbyMessageIds,
    reason: &str,
    wording: &Wording,
) -> (r: Result<Option<Replacement>, String>)
    ensures
        match (ids.channel_id, ids.message_id) {
            (Some(channel_id), Some(message_id)) => match crate::lobby::first_bad_id(
                channel_id,
                message_id,
                0,
            ) {
                Some(bad) => r matches Err(text) && text@ == crate::ids::bad_snowflake_text(
                    bad as int,
                ),
                None => r matches Ok(Some(new)) && new.channel_id == channel_id && new.message_id
                    == message_id && (new.message.response.embed matches Some(embed)
                    && shows_closed(embed, closed_title(kind, reason@, *wording))
                    && crate::message::card_message(
                    new.message,
                    embed,
                    DiscordMessageContentMode::Preserve,
                )),
            },
            _ => r matches Ok(None),
        },
{
    match (ids.channel_id, ids.message_id) {
        (Some(channel_id), Some(message_id)) => {
            let channel_id = to_u64(channel_id)?;
            let message_id = to_u64(message_id)?;
            let embed = InteractionEmbed {
                title: Some(closed_name(kind, reason, wording)),
                description: Some("This lobby is closed.".to_owned()),
                color: Some(CLOSED_COLOR),
                footer: None,
                fields: Vec::new(),
            };
            let ghost shown = embed;
            let message = DiscordMessage::card(embed, DiscordMessageContentMode::Preserve);
            proof {
                let card = message.response.embed->0;
                assert(crate::message::same_card(card, shown));
                assert(crate::message::same_card(card, card));
            }
            Ok(Some(Replacement { channel_id, message_id, message }))
        },
        _ => Ok(None),
    }
}

/// The message to be unpinned, as channel and message: in the lobby's channel, or else in the
/// given one. A lobby without a message has nothing to unpin.
pub fn unpin_lobby_message(
    channel_id: Option<i64>,
    message_id: Option<i64>,
    fallback_channel_id: i64,
) -> (r: Result<Option<(u64, u64)>, String>)
    ensures
        match message_id {
            None => r == Ok::<Option<(u64, u64)>, String>(None),
            Some(message_id) => {
                let channel = match channel_id {
                    Some(channel_id) => channel_id,
                    None => fallback_channel_id,
                };
                match crate::lobby::first_bad_id(channel, message_id, 0) {
                    Some(bad) => r matches Err(text) && text@ == crate::ids::bad_snowflake_text(
                        bad as int,
                    ),
                    None => r == Ok::<Option<(u64, u64)>, String>(
                        Some((channel as u64, message_id as u64)),
                    ),
                }
            },
        },
{
    let message_id = match message_id {
        Some(message_id) => message_id,
        None => {
            return Ok(None);
        },
    };
    let channel_id = match channel_id {
        Some(channel_id) => channel_id,
        None => fallback_channel_id,
    };
    let channel = to_u64(channel_id)?;
    let message = to_u64(message_id)?;
    Ok(Some((channel, message)))
}

/// A text for the thread of a lobby: it may notify nobody, or only whom it is let to, which is
/// nobody by name.
pub fn thread_message(text: String, mentions: AllowedMentions) -> (r: DiscordMessage)
    ensures
        match mentions {
            AllowedMentions::Nobody => crate::message::silent_text(r, text@),
            AllowedMentions::Default => crate::message::mentioning_text(
                r,
                text@,
                Set::<u64>::empty(),
            ),
        },
{
    match mentions {
        AllowedMentions::Nobody => DiscordMessage::silent(text),
        AllowedMentions::Default => DiscordMessage {
            response: InteractionResponse {
                content: text,
                embed: None,
                ephemeral: false,
                allowed_mentions: InteractionAllowedMentions::Default,
            },
            allowed_mentions: DiscordAllowedMentions::Users(BTreeSet::new()),
            content_mode: DiscordMessageContentMode::Replace,
        },
    }
}

/// An answer for the invoker of a reset alone.
pub fn private_answer(text: String, mentions: AllowedMentions) -> (r: InteractionResponse)
    ensures
        r.content@ == text@,
        r.embed is None,
        r.ephemeral,
        r.allowed_mentions == match mentions {
            AllowedMentions::Nobody => InteractionAllowedMentions::Nobody,
            AllowedMentions::Default => InteractionAllowedMentions::Default,
        },
{
    let allowed_mentions = match mentions {
        AllowedMentions::Nobody => InteractionAllowedMentions::Nobody,
        AllowedMentions::Default => InteractionAllowedMentions::Default,
    };
    InteractionResponse { content: text, embed: None, ephemeral: true, allowed_mentions }
}

/// The card of a closed lobby names the lobby by its label and gives the reason it was closed for; it
/// says that the lobby is closed and holds nothing else.
pub proof fn closed_lobbies_are_named(
    embed: InteractionEmbed,
    kind: LobbyKind,
    reason: Seq<char>,
    wording: Wording,
)
    requires
        shows_closed(embed, closed_title(kind, reason, wording)),
    ensures
        embed.title matches Some(title) && crate::text::contains_text(
            title@,
            wording.label_of(kind),
        ) && crate::text::contains_text(title@, reason),
        embed.description matches Some(text) && text@ == "This lobby is closed."@,
        embed.fields@.len() == 0 && embed.footer is None,
        embed.color == Some(0xe7_4c_3cu32),
{
    let label = wording.label_of(kind);
    crate::text::middles_stand(label + " — "@, reason, Seq::empty());
    crate::text::middles_stand(Seq::empty(), label, " — "@ + reason);
    assert(label + " — "@ + reason =~= label + (" — "@ + reason));
}

} // verus!
