//! What is posted to Discord: replies, messages, embeds and emoji.
use vstd::prelude::*;
use std::collections::BTreeSet;

verus! {

/// A titled paragraph of an embed.
#[derive(Clone, Debug, PartialEq, Eq)]
pub struct InteractionEmbedField {
    pub name: String,
    pub value: String,
    pub inline: bool,
}

/// A card attached to a message.
#[derive(Clone, Debug, PartialEq, Eq)]
pub struct InteractionEmbed {
    pub title: Option<String>,
    pub description: Option<String>,
    pub color: Option<u32>,
    pub footer: Option<String>,
    pub fields: Vec<InteractionEmbedField>,
}

/// A card as the lobby renderer hands it over.
#[derive(Clone, Debug, PartialEq, Eq)]
pub struct EmbedModel {
    pub title: Option<String>,
    pub description: Option<String>,
    pub footer: Option<String>,
    pub fields: Vec<InteractionEmbedField>,
}

/// Two cards show the same.
pub open spec fn same_card(a: InteractionEmbed, b: InteractionEmbed) -> bool {
    &&& a.title == b.title
    &&& a.description == b.description
    &&& a.color == b.color
    &&& a.footer == b.footer
    &&& a.fields@ == b.fields@
}

/// A rendered card shows what the renderer handed over, without a color of its own.
pub open spec fn shows_model(embed: InteractionEmbed, model: EmbedModel) -> bool {
    &&& embed.title == model.title
    &&& embed.description == model.description
    &&& embed.footer == model.footer
    &&& embed.fields == model.fields
    &&& embed.color is None
}

/// A card shows what the renderer handed over, field by field, without a color of its own.
pub open spec fn shows_fields(embed: InteractionEmbed, model: EmbedModel) -> bool {
    &&& embed.title == model.title
    &&& embed.description == model.description
    &&& embed.footer == model.footer
    &&& embed.fields@ == model.fields@
    &&& embed.color is None
}

/// The card of a rendered lobby.
pub fn interaction_embed(model: EmbedModel) -> (r: InteractionEmbed)
    ensures
        shows_model(r, model),
{
    InteractionEmbed {
        title: model.title,
        description: model.description,
        color: None,
        footer: model.footer,
        fields: model.fields,
    }
}

impl InteractionEmbed {
    /// A copy of the card.
    pub fn duplicate(&self) -> (r: InteractionEmbed)
        ensures
            same_card(r, *self),
    {
        let mut fields: Vec<InteractionEmbedField> = Vec::new();
        let mut i: usize = 0;
        while i < self.fields.len()
            invariant
                i <= self.fields.len(),
                fields@ =~= self.fields@.take(i as int),
            decreases self.fields.len() - i,
        {
            let field = &self.fields[i];
            fields.push(
                InteractionEmbedField {
                    name: field.name.clone(),
                    value: field.value.clone(),
                    inline: field.inline,
                },
            );
            i = i + 1;
        }
        assert(self.fields@.take(self.fields@.len() as int) =~= self.fields@);
        let title = match &self.title {
            Some(title) => Some(title.clone()),
            None => None,
        };
        let description = match &self.description {
            Some(description) => Some(description.clone()),
            None => None,
        };
        let footer = match &self.footer {
            Some(footer) => Some(footer.clone()),
            None => None,
        };
        InteractionEmbed { title, description, color: self.color, footer, fields }
    }
}

/// Whom a reply to a command may notify.
#[derive(Clone, Debug, PartialEq, Eq)]
pub enum InteractionAllowedMentions {
    Default,
    Nobody,
    Users(Vec<u64>),
}

/// Whom a message may notify.
#[derive(Clone, Debug, PartialEq, Eq)]
pub enum DiscordAllowedMentions {
    Nobody,
    Users(BTreeSet<u64>),
}

/// Whether an edit replaces the text of a message or leaves it as it is.
#[derive(Clone, Copy, Debug, PartialEq, Eq, Structural)]
pub enum DiscordMessageContentMode {
    Replace,
    Preserve,
}

/// The body of a reply or of a message.
#[derive(Clone, Debug, PartialEq, Eq)]
pub struct InteractionResponse {
    pub content: String,
    pub embed: Option<InteractionEmbed>,
    pub ephemeral: bool,
    pub allowed_mentions: InteractionAllowedMentions,
}

/// A message with its delivery rules.
#[derive(Clone, Debug, PartialEq, Eq)]
pub struct DiscordMessage {
    pub response: InteractionResponse,
    pub allowed_mentions: DiscordAllowedMentions,
    pub content_mode: DiscordMessageContentMode,
}

/// A reaction: a unicode emoji, or a custom one with its id.
#[derive(Clone, Debug, PartialEq, Eq)]
pub struct DiscordEmoji {
    pub name: String,
    pub id: Option<u64>,
}

/// Where a posted message stands.
#[derive(Clone, Debug, PartialEq, Eq)]
pub struct DiscordMessageReceipt {
    pub channel_id: u64,
    pub message_id: u64,
    pub jump_url: String,
}

/// A message as it was fetched.
#[derive(Clone, Debug, PartialEq, Eq)]
pub struct DiscordMessageSnapshot {
    pub receipt: DiscordMessageReceipt,
    pub reactions: Vec<DiscordEmoji>,
}

/// The unicode emoji of this name.
pub open spec fn is_unicode(emoji: DiscordEmoji, name: Seq<char>) -> bool {
    emoji.name@ == name && emoji.id is None
}

/// The custom emoji of this name and id.
pub open spec fn is_custom(emoji: DiscordEmoji, name: Seq<char>, id: u64) -> bool {
    emoji.name@ == name && emoji.id == Some(id)
}

impl DiscordEmoji {
    /// A unicode emoji.
    pub fn unicode(name: &str) -> (r: DiscordEmoji)
        ensures
            is_unicode(r, name@),
    {
        DiscordEmoji { name: name.to_owned(), id: None }
    }

    /// A custom emoji.
    pub fn custom(name: &str, id: u64) -> (r: DiscordEmoji)
        ensures
            is_custom(r, name@, id),
    {
        DiscordEmoji { name: name.to_owned(), id: Some(id) }
    }
}

/// A reply that only the invoker sees, with this text, notifying nobody.
pub open spec fn private_reply(r: InteractionResponse, text: Seq<char>) -> bool {
    &&& r.content@ == text
    &&& r.embed is None
    &&& r.ephemeral
    &&& r.allowed_mentions == InteractionAllowedMentions::Nobody
}

/// A reply that the channel sees, with this text, notifying exactly these users.
pub open spec fn public_call(r: InteractionResponse, text: Seq<char>, users: Seq<u64>) -> bool {
    &&& r.content@ == text
    &&& r.embed is None
    &&& !r.ephemeral
    &&& r.allowed_mentions matches InteractionAllowedMentions::Users(ids) && ids@ == users
}

/// A message with this text that notifies nobody.
pub open spec fn silent_text(m: DiscordMessage, text: Seq<char>) -> bool {
    &&& m.response.content@ == text
    &&& m.response.embed is None
    &&& !m.response.ephemeral
    &&& m.response.allowed_mentions == InteractionAllowedMentions::Default
    &&& m.allowed_mentions == DiscordAllowedMentions::Nobody
    &&& m.content_mode == DiscordMessageContentMode::Replace
}

/// A message with this text for one reader alone, that notifies nobody in either of its forms.
pub open spec fn secret_text(m: DiscordMessage, text: Seq<char>) -> bool {
    &&& m.response.content@ == text
    &&& m.response.embed is None
    &&& !m.response.ephemeral
    &&& m.response.allowed_mentions == InteractionAllowedMentions::Nobody
    &&& m.allowed_mentions == DiscordAllowedMentions::Nobody
    &&& m.content_mode == DiscordMessageContentMode::Replace
}

/// A message with this text that may notify exactly these users.
pub open spec fn mentioning_text(m: DiscordMessage, text: Seq<char>, users: Set<u64>) -> bool {
    &&& m.response.content@ == text
    &&& m.response.embed is None
    &&& !m.response.ephemeral
    &&& m.response.allowed_mentions == InteractionAllowedMentions::Default
    &&& m.allowed_mentions matches DiscordAllowedMentions::Users(ids) && ids@ == users
    &&& m.content_mode == DiscordMessageContentMode::Replace
}

/// A message with this text that calls exactly these users, in this order.
pub open spec fn calling_text(m: DiscordMessage, text: Seq<char>, users: Seq<u64>) -> bool {
    &&& public_call(m.response, text, users)
    &&& m.allowed_mentions matches DiscordAllowedMentions::Users(ids) && ids@ == users.to_set()
    &&& m.content_mode == DiscordMessageContentMode::Replace
}

/// A message that consists of a card and notifies nobody.
pub open spec fn card_message(
    m: DiscordMessage,
    embed: InteractionEmbed,
    mode: DiscordMessageContentMode,
) -> bool {
    &&& m.response.content@ == ""@
    &&& m.response.embed matches Some(card) && same_card(card, embed)
    &&& !m.response.ephemeral
    &&& m.response.allowed_mentions == InteractionAllowedMentions::Default
    &&& m.allowed_mentions == DiscordAllowedMentions::Nobody
    &&& m.content_mode == mode
}

/// A reply for the invoker alone.
pub fn whisper(text: String) -> (r: InteractionResponse)
    ensures
        private_reply(r, text@),
{
    InteractionResponse {
        content: text,
        embed: None,
        ephemeral: true,
        allowed_mentions: InteractionAllowedMentions::Nobody,
    }
}

/// A reply to the channel that calls the given users.
pub fn call_out(text: String, users: Vec<u64>) -> (r: InteractionResponse)
    ensures
        public_call(r, text@, users@),
{
    InteractionResponse {
        content: text,
        embed: None,
        ephemeral: false,
        allowed_mentions: InteractionAllowedMentions::Users(users),
    }
}

impl DiscordMessage {
    /// A text that notifies nobody.
    pub fn silent(text: String) -> (r: DiscordMessage)
        ensures
            silent_text(r, text@),
    {
        DiscordMessage {
            response: InteractionResponse {
                content: text,
                embed: None,
                ephemeral: false,
                allowed_mentions: InteractionAllowedMentions::Default,
            },
            allowed_mentions: DiscordAllowedMentions::Nobody,
            content_mode: DiscordMessageContentMode::Replace,
        }
    }

    /// A text for one reader alone.
    pub fn secret(text: String) -> (r: DiscordMessage)
        ensures
            secret_text(r, text@),
    {
        DiscordMessage {
            response: InteractionResponse {
                content: text,
                embed: None,
                ephemeral: false,
                allowed_mentions: InteractionAllowedMentions::Nobody,
            },
            allowed_mentions: DiscordAllowedMentions::Nobody,
            content_mode: DiscordMessageContentMode::Replace,
        }
    }

    /// A text that may notify one user.
    pub fn mentioning(text: String, user: u64) -> (r: DiscordMessage)
        ensures
            mentioning_text(r, text@, set![user]),
    {
        let mut users: BTreeSet<u64> = BTreeSet::new();
        users.insert(user);
        assert(users@ =~= set![user]);
        DiscordMessage {
            response: InteractionResponse {
                content: text,
                embed: None,
                ephemeral: false,
                allowed_mentions: InteractionAllowedMentions::Default,
            },
            allowed_mentions: DiscordAllowedMentions::Users(users),
            content_mode: DiscordMessageContentMode::Replace,
        }
    }

    /// A text that calls the given users.
    pub fn calling(text: String, users: Vec<u64>) -> (r: DiscordMessage)
        ensures
            calling_text(r, text@, users@),
    {
        let ids = crate::sets::id_set(&users);
        DiscordMessage {
            response: call_out(text, users),
            allowed_mentions: DiscordAllowedMentions::Users(ids),
            content_mode: DiscordMessageContentMode::Replace,
        }
    }

    /// A card, posted or repainted.
    pub fn card(embed: InteractionEmbed, content_mode: DiscordMessageContentMode) -> (r:
        DiscordMessage)
        ensures
            card_message(r, embed, content_mode),
    {
        DiscordMessage {
            response: InteractionResponse {
                content: "".to_owned(),
                embed: Some(embed),
                ephemeral: false,
                allowed_mentions: InteractionAllowedMentions::Default,
            },
            allowed_mentions: DiscordAllowedMentions::Nobody,
            content_mode,
        }
    }
}

/// What is said to one reader is seen by nobody else and notifies nobody; what is posted silently is
/// seen by all and notifies nobody; what calls users notifies exactly those. A text is delivered as
/// it was given, in every form.
pub proof fn messages_reach_whom_they_should(
    reply: InteractionResponse,
    call: InteractionResponse,
    silent: DiscordMessage,
    secret: DiscordMessage,
    mentioning: DiscordMessage,
    calling: DiscordMessage,
    text: Seq<char>,
    users: Seq<u64>,
    user: u64,
)
    requires
        private_reply(reply, text),
        public_call(call, text, users),
        silent_text(silent, text),
        secret_text(secret, text),
        mentioning_text(mentioning, text, set![user]),
        calling_text(calling, text, users),
    ensures
        reply.ephemeral && reply.allowed_mentions is Nobody && reply.content@ == text,
        !call.ephemeral && call.content@ == text && (
        call.allowed_mentions matches InteractionAllowedMentions::Users(ids) && ids@ == users),
        silent.response.content@ == text && silent.allowed_mentions is Nobody,
        secret.response.content@ == text && secret.allowed_mentions is Nobody
            && secret.response.allowed_mentions is Nobody,
        mentioning.response.content@ == text && (
        mentioning.allowed_mentions matches DiscordAllowedMentions::Users(ids) && ids@.contains(user)
            && forall|other: u64| #[trigger] ids@.contains(other) ==> other == user),
        calling.response.content@ == text && (
        calling.allowed_mentions matches DiscordAllowedMentions::Users(ids) && forall|other: u64|
            #[trigger] ids@.contains(other) <==> users.contains(other)),
        silent.content_mode is Replace && secret.content_mode is Replace
            && mentioning.content_mode is Replace && calling.content_mode is Replace,
        reply.embed is None && call.embed is None && silent.response.embed is None
            && secret.response.embed is None && mentioning.response.embed is None
            && calling.response.embed is None,
        !silent.response.ephemeral && !secret.response.ephemeral && !mentioning.response.ephemeral
            && !calling.response.ephemeral,
{
}

/// A card shows what the renderer handed over, all of it, and a copy of a card shows the same; the
/// message that carries one has no text of its own and notifies nobody.
pub proof fn cards_show_what_was_rendered(
    embed: InteractionEmbed,
    model: EmbedModel,
    m: DiscordMessage,
    mode: DiscordMessageContentMode,
)
    requires
        shows_fields(embed, model),
        card_message(m, embed, mode),
    ensures
        m.response.embed matches Some(card) && card.title == model.title && card.description
            == model.description && card.footer == model.footer && card.fields@ == model.fields@
            && card.color is None,
        m.response.content@.len() == 0 && m.allowed_mentions is Nobody && m.content_mode == mode,
        !m.response.ephemeral,
{
    reveal_strlit("");
}

} // verus!
