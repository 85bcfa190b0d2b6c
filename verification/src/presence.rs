//! Reading a member's presence: who is likely to be at the keyboard.
use vstd::prelude::*;

verus! {

/// The status a member shows.
#[derive(Clone, Copy, Debug, PartialEq, Eq, Structural)]
pub enum DiscordPresence {
    Online,
    DoNotDisturb,
    Idle,
    Offline,
}

/// A member of a server.
#[derive(Clone, Debug, PartialEq, Eq)]
pub struct GuildMember {
    pub display_name: String,
    pub activities: Vec<String>,
    pub in_voice: bool,
    pub presence: DiscordPresence,
}

/// How ready a player looks.
#[derive(Clone, Copy, Debug, PartialEq, Eq, Structural)]
pub enum ReadinessGroup {
    Ready,
    PlayingDota,
    Recent,
    Afk,
}

/// The lower-case form of a text.
pub uninterp spec fn lowercase_of(text: Seq<char>) -> Seq<char>;

/// `str::to_lowercase`: the lower-case form is a function of the text alone.
#[verifier::external_body]
fn lowercase(text: &str) -> (r: String)
    ensures
        r@ == lowercase_of(text@),
{
    text.to_lowercase()
}

/// `word` stands in `text` at position `i`.
pub open spec fn stands_at(text: Seq<char>, word: Seq<char>, i: int) -> bool {
    0 <= i && i + word.len() <= text.len() && text.subrange(i, i + word.len()) == word
}

/// `word` stands somewhere in `text`.
pub open spec fn occurs(text: Seq<char>, word: Seq<char>) -> bool {
    exists|i: int| stands_at(text, word, i)
}

fn stands_here(text: &str, word: &str, at: usize, total: usize, length: usize) -> (r: bool)
    requires
        total == text@.len(),
        length == word@.len(),
        at + length <= total,
    ensures
        r == stands_at(text@, word@, at as int),
{
    let mut k: usize = 0;
    while k < length
        invariant
            k <= length,
            total == text@.len(),
            length == word@.len(),
            at + length <= total,
            forall|j: int| 0 <= j < k ==> text@[at + j] == word@[j],
        decreases length - k,
    {
        if text.get_char(at + k) != word.get_char(k) {
            assert(text@.subrange(at as int, at + length)[k as int] == text@[at + k]);
            return false;
        }
        k = k + 1;
    }
    assert(text@.subrange(at as int, at + length) =~= word@);
    true
}

/// Whether a word stands somewhere in a text.
pub fn contains_word(text: &str, word: &str) -> (r: bool)
    ensures
        r == occurs(text@, word@),
{
    let total = text.unicode_len();
    let length = word.unicode_len();
    if length > total {
        return false;
    }
    let last = total - length;
    let mut i: usize = 0;
    while i < last
        invariant
            total == text@.len(),
            length == word@.len(),
            length <= total,
            last == total - length,
            i <= last,
            forall|j: int| 0 <= j < i ==> !stands_at(text@, word@, j),
        decreases last - i,
    {
        if stands_here(text, word, i, total, length) {
            return true;
        }
        i = i + 1;
    }
    stands_here(text, word, last, total, length)
}

/// A lower-cased activity names the game.
pub open spec fn names_dota(lowered: Seq<char>) -> bool {
    occurs(lowered, "dota"@)
}

/// One of the activities is the game, in whatever case it is written.
pub open spec fn plays_dota(activities: Seq<String>) -> bool {
    exists|i: int|
        0 <= i < activities.len() && names_dota(lowercase_of((#[trigger] activities[i])@))
}

/// Whether one of the activities is the game, in whatever case it is written.
pub fn playing_dota(activities: &Vec<String>) -> (r: bool)
    ensures
        r == plays_dota(activities@),
{
    let mut i: usize = 0;
    while i < activities.len()
        invariant
            i <= activities.len(),
            forall|j: int|
                0 <= j < i ==> !names_dota(lowercase_of((#[trigger] activities@[j])@)),
        decreases activities.len() - i,
    {
        if contains_word(lowercase(activities[i].as_str()).as_str(), "dota") {
            return true;
        }
        i = i + 1;
    }
    false
}

/// How ready a player looks, given whether they joined recently, and of a member whether they
/// play, are in a voice channel, and what status they show. A player who is not on the server
/// is away unless they joined recently.
pub open spec fn group_of(recent: bool, member: Option<(bool, bool, DiscordPresence)>) -> ReadinessGroup {
    if recent {
        ReadinessGroup::Recent
    } else {
        match member {
            Some((playing, in_voice, presence)) => if playing {
                ReadinessGroup::PlayingDota
            } else if in_voice || presence == DiscordPresence::Online || presence
                == DiscordPresence::DoNotDisturb {
                ReadinessGroup::Ready
            } else {
                ReadinessGroup::Afk
            },
            None => ReadinessGroup::Afk,
        }
    }
}

/// How ready a member looks, given whether they play.
pub fn member_group(recent: bool, playing: bool, in_voice: bool, presence: DiscordPresence) -> (r:
    ReadinessGroup)
    ensures
        r == group_of(recent, Some((playing, in_voice, presence))),
{
    if recent {
        ReadinessGroup::Recent
    } else if playing {
        ReadinessGroup::PlayingDota
    } else if in_voice || presence == DiscordPresence::Online || presence
        == DiscordPresence::DoNotDisturb {
        ReadinessGroup::Ready
    } else {
        ReadinessGroup::Afk
    }
}

/// How ready a player looks who is not on the server.
pub fn absent_group(recent: bool) -> (r: ReadinessGroup)
    ensures
        r == group_of(recent, None),
{
    if recent {
        ReadinessGroup::Recent
    } else {
        ReadinessGroup::Afk
    }
}

/// What is read off a member.
pub open spec fn seen(member: GuildMember) -> (bool, bool, DiscordPresence) {
    (plays_dota(member.activities@), member.in_voice, member.presence)
}

/// How ready a member looks.
pub fn readiness(recent: bool, member: &GuildMember) -> (r: ReadinessGroup)
    ensures
        r == group_of(recent, Some(seen(*member))),
{
    member_group(recent, playing_dota(&member.activities), member.in_voice, member.presence)
}

/// Who joined recently counts as recent whatever they do; of the others, who plays counts as playing,
/// who is in voice, online or not to be disturbed as ready, and whoever is not on the server, idle
/// or offline as away.
pub proof fn players_are_grouped_by_what_they_do(
    recent: bool,
    playing: bool,
    in_voice: bool,
    presence: DiscordPresence,
)
    ensures
        recent ==> group_of(recent, Some((playing, in_voice, presence))) is Recent && group_of(
            recent,
            None,
        ) is Recent,
        !recent ==> group_of(recent, None) is Afk,
        !recent && playing ==> group_of(recent, Some((playing, in_voice, presence))) is PlayingDota,
        !recent && !playing && (in_voice || presence is Online || presence is DoNotDisturb)
            ==> group_of(recent, Some((playing, in_voice, presence))) is Ready,
        !recent && !playing && !in_voice && (presence is Idle || presence is Offline) ==> group_of(
            recent,
            Some((playing, in_voice, presence)),
        ) is Afk,
{
}

/// What a member is judged by is their own: their activities, their voice and their presence; and
/// they play exactly if one of their activities names the game, whatever its case.
pub proof fn members_are_judged_by_their_own(member: GuildMember)
    ensures
        seen(member).1 == member.in_voice,
        seen(member).2 == member.presence,
        seen(member).0 <==> exists|i: int|
            0 <= i < member.activities@.len() && crate::text::contains_text(
                lowercase_of((#[trigger] member.activities@[i])@),
                "dota"@,
            ),
{
    let word = "dota"@;
    assert forall|text: Seq<char>| #[trigger] names_dota(text) <==> crate::text::contains_text(
        text,
        word,
    ) by {
        if names_dota(text) {
            let i = choose|i: int| stands_at(text, word, i);
            assert(text.subrange(i, i + word.len()) == word);
        }
        if crate::text::contains_text(text, word) {
            let i = choose|i: int|
                0 <= i && i + word.len() <= text.len() && #[trigger] text.subrange(
                    i,
                    i + word.len(),
                ) == word;
            assert(stands_at(text, word, i));
        }
    }
}

} // verus!
