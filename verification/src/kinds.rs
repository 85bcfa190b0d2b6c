//! The two kinds of lobby, the place a lobby lives in, and the names players read.
use vstd::prelude::*;
use crate::text::same_text;

verus! {

/// The kinds of matchmaking lobby.
#[derive(Clone, Copy, Debug, PartialEq, Eq, Structural)]
pub enum LobbyKind {
    Open,
    LowSkill,
}

/// One lobby: a guild and the kind of lobby within it.
#[derive(Clone, Copy, Debug, PartialEq, Eq, Structural)]
pub struct LobbyScope {
    pub guild_id: i64,
    pub kind: LobbyKind,
}

/// The stored value of a lobby kind, which is also its option value.
pub open spec fn kind_value(kind: LobbyKind) -> Seq<char> {
    match kind {
        LobbyKind::Open => "open"@,
        LobbyKind::LowSkill => "lowskill"@,
    }
}

/// The kind that a stored value stands for.
pub open spec fn kind_of_value(value: Seq<char>) -> Option<LobbyKind> {
    if value == "open"@ {
        Some(LobbyKind::Open)
    } else if value == "lowskill"@ {
        Some(LobbyKind::LowSkill)
    } else {
        None
    }
}

/// The kind of the other lobby of the same guild.
pub open spec fn sibling(kind: LobbyKind) -> LobbyKind {
    match kind {
        LobbyKind::Open => LobbyKind::LowSkill,
        LobbyKind::LowSkill => LobbyKind::Open,
    }
}

impl LobbyScope {
    /// The lobby of a kind in a guild.
    pub fn new(guild_id: i64, kind: LobbyKind) -> (r: LobbyScope)
        ensures
            r == (LobbyScope { guild_id, kind }),
    {
        LobbyScope { guild_id, kind }
    }
}

/// Reads a stored lobby kind; anything else is no kind.
pub fn parse_lobby_kind(value: &str) -> (r: Option<LobbyKind>)
    ensures
        r == kind_of_value(value@),
{
    if same_text(value, "open") {
        Some(LobbyKind::Open)
    } else if same_text(value, "lowskill") {
        Some(LobbyKind::LowSkill)
    } else {
        None
    }
}

/// The stored value of a lobby kind.
pub fn lobby_kind_value(kind: LobbyKind) -> (r: &'static str)
    ensures
        r@ == kind_value(kind),
{
    match kind {
        LobbyKind::Open => "open",
        LobbyKind::LowSkill => "lowskill",
    }
}

/// The kind of the other lobby of the same guild.
pub fn sibling_kind(kind: LobbyKind) -> (r: LobbyKind)
    ensures
        r == sibling(kind),
{
    match kind {
        LobbyKind::Open => LobbyKind::LowSkill,
        LobbyKind::LowSkill => LobbyKind::Open,
    }
}

/// Reading the stored value of a kind gives that kind back.
pub proof fn stored_kind_reads_back(kind: LobbyKind)
    ensures
        kind_of_value(kind_value(kind)) == Some(kind),
{
    reveal_strlit("open");
    reveal_strlit("lowskill");
    assert("open"@.len() != "lowskill"@.len());
}

/// Only the stored values of the two kinds are read as a kind.
pub proof fn only_stored_values_read(value: Seq<char>)
    ensures
        forall|kind: LobbyKind| kind_of_value(value) == Some(kind) ==> value == kind_value(kind),
{
}

/// The sibling of the sibling is the lobby itself, and never the lobby alone.
pub proof fn sibling_is_an_involution(kind: LobbyKind)
    ensures
        sibling(sibling(kind)) == kind,
        sibling(kind) != kind,
{
}

/// The words that the bot's wider catalogue supplies: lobby labels, lobby names and the
/// jopacoin emoji.
#[derive(Clone, Debug, PartialEq, Eq)]
pub struct Wording {
    pub open_label: String,
    pub open_name: String,
    pub low_skill_label: String,
    pub low_skill_name: String,
    pub jopacoin_emoji_id: u64,
    pub jopacoin_emote: String,
}

impl Wording {
    /// The decorated label of a kind.
    pub open spec fn label_of(&self, kind: LobbyKind) -> Seq<char> {
        match kind {
            LobbyKind::Open => self.open_label@,
            LobbyKind::LowSkill => self.low_skill_label@,
        }
    }

    /// The plain name of a kind.
    pub open spec fn name_of(&self, kind: LobbyKind) -> Seq<char> {
        match kind {
            LobbyKind::Open => self.open_name@,
            LobbyKind::LowSkill => self.low_skill_name@,
        }
    }

    /// The decorated label of a kind.
    pub fn label(&self, kind: LobbyKind) -> (r: &str)
        ensures
            r@ == self.label_of(kind),
    {
        match kind {
            LobbyKind::Open => self.open_label.as_str(),
            LobbyKind::LowSkill => self.low_skill_label.as_str(),
        }
    }

    /// The plain name of a kind.
    pub fn display_name(&self, kind: LobbyKind) -> (r: &str)
        ensures
            r@ == self.name_of(kind),
    {
        match kind {
            LobbyKind::Open => self.open_name.as_str(),
            LobbyKind::LowSkill => self.low_skill_name.as_str(),
        }
    }
}

/// A copy of a list of kinds.
pub fn copy_kinds(kinds: &Vec<LobbyKind>) -> (r: Vec<LobbyKind>)
    ensures
        r@ == kinds@,
{
    let mut r: Vec<LobbyKind> = Vec::new();
    let mut i: usize = 0;
    while i < kinds.len()
        invariant
            i <= kinds.len(),
            r@ =~= kinds@.take(i as int),
        decreases kinds.len() - i,
    {
        r.push(kinds[i]);
        i = i + 1;
    }
    assert(kinds@.take(kinds@.len() as int) =~= kinds@);
    r
}

/// Takes the first kind off a list.
pub fn first_kind(kinds: Vec<LobbyKind>) -> (r: (Option<LobbyKind>, Vec<LobbyKind>))
    ensures
        kinds@.len() == 0 ==> r.0 is None && r.1@.len() == 0,
        kinds@.len() > 0 ==> r.0 == Some(kinds@[0]) && r.1@ == kinds@.drop_first(),
{
    let mut kinds = kinds;
    if kinds.len() == 0 {
        return (None, kinds);
    }
    let ghost all = kinds@;
    let first = kinds.remove(0);
    assert(kinds@ =~= all.drop_first());
    (Some(first), kinds)
}

/// Each kind goes by its own words, and stands in storage under its own value.
pub proof fn kinds_have_words_of_their_own(wording: Wording)
    ensures
        wording.label_of(LobbyKind::Open) == wording.open_label@,
        wording.label_of(LobbyKind::LowSkill) == wording.low_skill_label@,
        wording.name_of(LobbyKind::Open) == wording.open_name@,
        wording.name_of(LobbyKind::LowSkill) == wording.low_skill_name@,
        kind_value(LobbyKind::Open) == "open"@,
        kind_value(LobbyKind::LowSkill) == "lowskill"@,
        kind_of_value("open"@) == Some(LobbyKind::Open),
        kind_of_value("lowskill"@) == Some(LobbyKind::LowSkill),
{
    stored_kind_reads_back(LobbyKind::Open);
    stored_kind_reads_back(LobbyKind::LowSkill);
}

} // verus!
