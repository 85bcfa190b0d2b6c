//! Suspensions from lobbies: what they cover and what the suspended player is told.
use vstd::prelude::*;
use crate::kinds::LobbyKind;
use crate::kinds::Wording;
use crate::text::decimal_i64;
use crate::text::text2;
use crate::text::text3;
use crate::text::text5;

verus! {

/// The lobbies that a suspension covers.
#[derive(Clone, Copy, Debug, PartialEq, Eq, Structural)]
pub enum SuspensionScope {
    All,
    Open,
    Lowskill,
}

/// What ends a suspension: its time, its matches, whichever comes first, or both together.
#[derive(Clone, Copy, Debug, PartialEq, Eq, Structural)]
pub enum SuspensionCompletion {
    Time,
    Matches,
    Either,
    Both,
}

/// A suspension in force.
#[derive(Clone, Debug, PartialEq, Eq)]
pub struct LobbySuspension {
    pub scope: SuspensionScope,
    pub expires_at: Option<i64>,
    pub matches_remaining: Option<i64>,
    pub completion: SuspensionCompletion,
    pub reason: String,
}

/// On whose authority a player was removed.
#[derive(Clone, Copy, Debug, PartialEq, Eq, Structural)]
pub enum ModerationSource {
    Admin,
    Creator,
}

/// The suspension scope that covers the lobbies of this kind alone.
pub open spec fn scope_of_kind(kind: LobbyKind) -> SuspensionScope {
    match kind {
        LobbyKind::Open => SuspensionScope::Open,
        LobbyKind::LowSkill => SuspensionScope::Lowskill,
    }
}

/// The suspension scope that covers the lobbies of this kind alone.
pub fn suspension_scope(kind: LobbyKind) -> (r: SuspensionScope)
    ensures
        r == scope_of_kind(kind),
{
    match kind {
        LobbyKind::Open => SuspensionScope::Open,
        LobbyKind::LowSkill => SuspensionScope::Lowskill,
    }
}

/// The scope covers the lobbies of this kind.
pub open spec fn covers(scope: SuspensionScope, kind: LobbyKind) -> bool {
    scope == SuspensionScope::All || scope == scope_of_kind(kind)
}

/// The kinds among `kinds` that the scope covers, in order.
pub open spec fn covered(scope: SuspensionScope, kinds: Seq<LobbyKind>) -> Seq<LobbyKind>
    decreases kinds.len(),
{
    if kinds.len() == 0 {
        Seq::empty()
    } else if covers(scope, kinds.last()) {
        covered(scope, kinds.drop_last()).push(kinds.last())
    } else {
        covered(scope, kinds.drop_last())
    }
}

/// The kinds that a suspension applies to.
pub fn applicable_kinds(scope: SuspensionScope, kinds: &Vec<LobbyKind>) -> (r: Vec<LobbyKind>)
    ensures
        r@ == covered(scope, kinds@),
{
    let mut r: Vec<LobbyKind> = Vec::new();
    let mut i: usize = 0;
    assert(kinds@.take(0) =~= Seq::empty());
    while i < kinds.len()
        invariant
            i <= kinds.len(),
            r@ == covered(scope, kinds@.take(i as int)),
        decreases kinds.len() - i,
    {
        let kind = kinds[i];
        assert(kinds@.take(i + 1).drop_last() =~= kinds@.take(i as int));
        assert(kinds@.take(i + 1).last() == kind);
        if scope == SuspensionScope::All || scope == suspension_scope(kind) {
            r.push(kind);
        }
        i = i + 1;
    }
    assert(kinds@.take(kinds@.len() as int) =~= kinds@);
    r
}

/// The words for what a suspension covers.
pub open spec fn scope_words(scope: SuspensionScope, wording: Wording) -> Seq<char> {
    match scope {
        SuspensionScope::All => "all matchmaking lobbies"@,
        SuspensionScope::Open => wording.label_of(LobbyKind::Open),
        SuspensionScope::Lowskill => wording.label_of(LobbyKind::LowSkill),
    }
}

/// The words for a suspension that lasts until a moment.
pub open spec fn expiry_words(expires_at: int) -> Seq<char> {
    "until <t:"@ + crate::text::signed_decimal(expires_at) + ":F> (<t:"@
        + crate::text::signed_decimal(expires_at) + ":R>)"@
}

/// The words for a suspension that lasts for a number of matches.
pub open spec fn matches_words(remaining: int) -> Seq<char> {
    if remaining == 1 {
        crate::text::signed_decimal(remaining) + " completed match remaining"@
    } else {
        crate::text::signed_decimal(remaining) + " completed matches remaining"@
    }
}

/// The words for the terms of a suspension.
pub open spec fn terms_words(suspension: LobbySuspension) -> Seq<char> {
    match (suspension.expires_at, suspension.matches_remaining) {
        (None, None) => "temporarily"@,
        (Some(expires_at), None) => expiry_words(expires_at as int),
        (None, Some(remaining)) => matches_words(remaining as int),
        (Some(expires_at), Some(remaining)) => expiry_words(expires_at as int)
            + if suspension.completion == SuspensionCompletion::Either {
            " or "@
        } else {
            " and "@
        } + matches_words(remaining as int),
    }
}

/// What a suspended player is told in private.
pub open spec fn suspension_notice(suspension: LobbySuspension, wording: Wording) -> Seq<char> {
    "You are suspended from "@ + scope_words(suspension.scope, wording) + " "@ + terms_words(
        suspension,
    ) + ". Reason: "@ + suspension.reason@
}

fn expiry_text(expires_at: i64) -> (r: String)
    ensures
        r@ == expiry_words(expires_at as int),
{
    let at = decimal_i64(expires_at);
    text5("until <t:", at.as_str(), ":F> (<t:", at.as_str(), ":R>)")
}

fn matches_text(remaining: i64) -> (r: String)
    ensures
        r@ == matches_words(remaining as int),
{
    let count = decimal_i64(remaining);
    if remaining == 1 {
        text2(count.as_str(), " completed match remaining")
    } else {
        text2(count.as_str(), " completed matches remaining")
    }
}

fn terms_text(suspension: &LobbySuspension) -> (r: String)
    ensures
        r@ == terms_words(*suspension),
{
    match (suspension.expires_at, suspension.matches_remaining) {
        (None, None) => "temporarily".to_owned(),
        (Some(expires_at), None) => expiry_text(expires_at),
        (None, Some(remaining)) => matches_text(remaining),
        (Some(expires_at), Some(remaining)) => {
            let word = if suspension.completion == SuspensionCompletion::Either {
                " or "
            } else {
                " and "
            };
            text3(expiry_text(expires_at).as_str(), word, matches_text(remaining).as_str())
        },
    }
}

/// What a suspended player is told in private.
pub fn private_suspension_message(suspension: &LobbySuspension, wording: &Wording) -> (r: String)
    ensures
        r@ == suspension_notice(*suspension, *wording),
{
    let scope = match suspension.scope {
        SuspensionScope::All => "all matchmaking lobbies",
        SuspensionScope::Open => wording.label(LobbyKind::Open),
        SuspensionScope::Lowskill => wording.label(LobbyKind::LowSkill),
    };
    let mut notice = "You are suspended from ".to_owned();
    notice.append(scope);
    notice.append(" ");
    notice.append(terms_text(suspension).as_str());
    notice.append(". Reason: ");
    notice.append(suspension.reason.as_str());
    notice
}

/// A suspension applies to the kinds it covers and to no others.
pub proof fn suspensions_apply_where_they_cover(
    scope: SuspensionScope,
    kinds: Seq<LobbyKind>,
    kind: LobbyKind,
)
    ensures
        covered(scope, kinds).contains(kind) <==> kinds.contains(kind) && covers(scope, kind),
    decreases kinds.len(),
{
    if kinds.len() > 0 {
        let rest = kinds.drop_last();
        suspensions_apply_where_they_cover(scope, rest, kind);
        assert(kinds =~= rest.push(kinds.last()));
        assert(kinds.contains(kind) <==> rest.contains(kind) || kind == kinds.last()) by {
            if rest.contains(kind) {
                let i = choose|i: int| 0 <= i < rest.len() && rest[i] == kind;
                assert(kinds[i] == kind);
            }
            if kind == kinds.last() {
                assert(kinds[kinds.len() - 1] == kind);
            }
        }
        let head = covered(scope, rest);
        if covers(scope, kinds.last()) {
            let all = head.push(kinds.last());
            if head.contains(kind) {
                let i = choose|i: int| 0 <= i < head.len() && head[i] == kind;
                assert(all[i] == kind);
            }
            assert(all[all.len() - 1] == kinds.last());
            if all.contains(kind) {
                let i = choose|i: int| 0 <= i < all.len() && all[i] == kind;
                assert(i == head.len() || head[i] == kind);
            }
        }
    }
}

/// A suspension from all lobbies covers each of them, and one from a lobby covers that lobby and no
/// other.
pub proof fn suspensions_cover_what_they_name(kind: LobbyKind)
    ensures
        covers(SuspensionScope::All, kind),
        covers(SuspensionScope::Open, kind) <==> kind == LobbyKind::Open,
        covers(SuspensionScope::Lowskill, kind) <==> kind == LobbyKind::LowSkill,
        kind == LobbyKind::Open ==> scope_of_kind(kind) is Open,
        kind == LobbyKind::LowSkill ==> scope_of_kind(kind) is Lowskill,
{
}

/// The notice of a suspension gives its reason, the lobby it is from by its label, the moment it ends
/// and the matches that remain; both terms are joined as alternatives exactly if either is enough.
pub proof fn notices_state_the_suspension(suspension: LobbySuspension, wording: Wording)
    ensures
        crate::text::contains_text(suspension_notice(suspension, wording), suspension.reason@),
        suspension.scope is Open ==> crate::text::contains_text(
            suspension_notice(suspension, wording),
            wording.label_of(LobbyKind::Open),
        ),
        suspension.scope is Lowskill ==> crate::text::contains_text(
            suspension_notice(suspension, wording),
            wording.label_of(LobbyKind::LowSkill),
        ),
        suspension.scope is All ==> crate::text::contains_text(
            suspension_notice(suspension, wording),
            "all matchmaking lobbies"@,
        ),
        suspension.expires_at matches Some(moment) ==> crate::text::contains_text(
            suspension_notice(suspension, wording),
            expiry_words(moment as int),
        ) && crate::text::contains_text(
            expiry_words(moment as int),
            crate::text::signed_decimal(moment as int),
        ),
        suspension.matches_remaining matches Some(remaining) ==> crate::text::contains_text(
            suspension_notice(suspension, wording),
            matches_words(remaining as int),
        ) && crate::text::contains_text(
            matches_words(remaining as int),
            crate::text::signed_decimal(remaining as int),
        ),
        suspension.expires_at matches Some(moment) ==> (
        suspension.matches_remaining matches Some(remaining) ==> terms_words(suspension)
            == expiry_words(moment as int) + (if suspension.completion is Either {
            " or "@
        } else {
            " and "@
        }) + matches_words(remaining as int)),
{
    let from = scope_words(suspension.scope, wording);
    let terms = terms_words(suspension);
    crate::text::texts_contain_themselves(terms);
    frames_hold_their_parts(from, terms, suspension.reason@, terms);
    if let Some(moment) = suspension.expires_at {
        expiries_stand_in_the_terms(suspension, moment);
        frames_hold_their_parts(from, terms, suspension.reason@, expiry_words(moment as int));
    }
    if let Some(remaining) = suspension.matches_remaining {
        matches_stand_in_the_terms(suspension, remaining);
        frames_hold_their_parts(from, terms, suspension.reason@, matches_words(remaining as int));
    }
}

proof fn frames_hold_their_parts(
    from: Seq<char>,
    terms: Seq<char>,
    reason: Seq<char>,
    part: Seq<char>,
)
    requires
        crate::text::contains_text(terms, part),
    ensures
        ({
            let notice = "You are suspended from "@ + from + " "@ + terms + ". Reason: "@ + reason;
            &&& crate::text::contains_text(notice, from)
            &&& crate::text::contains_text(notice, reason)
            &&& crate::text::contains_text(notice, part)
        }),
{
    let head = "You are suspended from "@;
    let notice = head + from + " "@ + terms + ". Reason: "@ + reason;
    let behind = " "@ + terms + ". Reason: "@ + reason;
    let tail = ". Reason: "@ + reason;
    assert(notice =~= head + from + behind);
    assert(notice =~= (head + from + " "@) + terms + tail);
    crate::text::middles_stand(head + from + " "@ + terms + ". Reason: "@, reason, Seq::empty());
    crate::text::middles_stand(head, from, behind);
    crate::text::parts_stay(head + from + " "@, terms, tail, part);
}

proof fn expiries_stand_in_the_terms(suspension: LobbySuspension, moment: i64)
    requires
        suspension.expires_at == Some(moment),
    ensures
        crate::text::contains_text(terms_words(suspension), expiry_words(moment as int)),
        crate::text::contains_text(
            expiry_words(moment as int),
            crate::text::signed_decimal(moment as int),
        ),
{
    let number = crate::text::signed_decimal(moment as int);
    let words = expiry_words(moment as int);
    let tail = ":F> (<t:"@ + number + ":R>)"@;
    crate::text::middles_stand("until <t:"@, number, tail);
    assert(words =~= "until <t:"@ + number + tail);
    match suspension.matches_remaining {
        Some(remaining) => {
            let link = if suspension.completion == SuspensionCompletion::Either {
                " or "@
            } else {
                " and "@
            };
            let rest = matches_words(remaining as int);
            crate::text::middles_stand(Seq::empty(), words, link + rest);
            assert(terms_words(suspension) =~= words + (link + rest));
        },
        None => {
            crate::text::texts_contain_themselves(words);
        },
    }
}

proof fn matches_stand_in_the_terms(suspension: LobbySuspension, remaining: i64)
    requires
        suspension.matches_remaining == Some(remaining),
    ensures
        crate::text::contains_text(terms_words(suspension), matches_words(remaining as int)),
        crate::text::contains_text(
            matches_words(remaining as int),
            crate::text::signed_decimal(remaining as int),
        ),
{
    let number = crate::text::signed_decimal(remaining as int);
    let words = matches_words(remaining as int);
    crate::text::middles_stand(Seq::empty(), number, " completed match remaining"@);
    crate::text::middles_stand(Seq::empty(), number, " completed matches remaining"@);
    match suspension.expires_at {
        Some(moment) => {
            let link = if suspension.completion == SuspensionCompletion::Either {
                " or "@
            } else {
                " and "@
            };
            crate::text::middles_stand(expiry_words(moment as int) + link, words, Seq::empty());
        },
        None => {
            crate::text::texts_contain_themselves(words);
        },
    }
}

} // verus!
