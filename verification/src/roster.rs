//! How a ready check follows the roster of its lobby.
use vstd::prelude::*;
use std::collections::BTreeMap;
use std::collections::BTreeSet;
use crate::kinds::LobbyKind;
use crate::presence::ReadinessGroup;
use crate::readycheck::ReadycheckGeneration;
use crate::readycheck::ReadycheckPlayerData;
use crate::sets::key_list;
use crate::text::tag_i64;

verus! {

/// A player who joined recently confirms without a reaction, unless they withdrew.
pub open spec fn confirms_itself(
    players: Map<i64, ReadycheckPlayerData>,
    declined: Set<i64>,
    id: i64,
) -> bool {
    players[id].group == ReadinessGroup::Recent && !declined.contains(id)
}

/// The players who are confirmed without a reaction, in ascending order.
pub open spec fn auto_confirmed(
    players: Map<i64, ReadycheckPlayerData>,
    declined: Set<i64>,
) -> Seq<i64> {
    crate::sets::listing(players.dom()).filter(|id: i64| confirms_itself(players, declined, id))
}

/// The players who confirmed and are no longer in the lobby, in ascending order.
pub open spec fn departed(reacted: Set<i64>, players: Set<i64>) -> Seq<i64> {
    crate::sets::listing(reacted).filter(|id: i64| !players.contains(id))
}

/// The players who came after the check began and have to confirm by themselves, in ascending
/// order.
pub open spec fn newcomers(
    previous: ReadycheckGeneration,
    players: Map<i64, ReadycheckPlayerData>,
) -> Seq<i64> {
    crate::sets::listing(players.dom()).filter(
        |id: i64|
            !previous.lobby_ids@.contains(id) && !previous.reacted@.dom().contains(id)
                && !confirms_itself(players, previous.declined@, id),
    )
}

/// The players whose reaction on the ready check no longer stands: first those who left, then
/// the newcomers.
pub open spec fn stale_reactions(
    previous: ReadycheckGeneration,
    players: Map<i64, ReadycheckPlayerData>,
) -> Seq<i64> {
    departed(previous.reacted@.dom(), players.dom()) + newcomers(previous, players)
}

proof fn filter_step(v: Seq<i64>, i: int, keep: spec_fn(i64) -> bool)
    requires
        0 <= i < v.len(),
    ensures
        v.take(i + 1).filter(keep) == if keep(v[i]) {
            v.take(i).filter(keep).push(v[i])
        } else {
            v.take(i).filter(keep)
        },
{
    reveal(Seq::filter);
    assert(v.take(i + 1).drop_last() =~= v.take(i));
    assert(v.take(i + 1).last() == v[i]);
}

proof fn filter_nothing(v: Seq<i64>, keep: spec_fn(i64) -> bool)
    ensures
        v.take(0).filter(keep) == Seq::<i64>::empty(),
{
    reveal(Seq::filter);
    assert(v.take(0) =~= Seq::empty());
}

/// The players who are confirmed without a reaction.
pub fn self_confirmed(
    players: &BTreeMap<i64, ReadycheckPlayerData>,
    declined: &BTreeSet<i64>,
) -> (r: Vec<i64>)
    ensures
        r@ == auto_confirmed(players@, declined@),
{
    let ids = key_list(players);
    let ghost keep = |id: i64| confirms_itself(players@, declined@, id);
    let mut r: Vec<i64> = Vec::new();
    let mut i: usize = 0;
    proof {
        filter_nothing(ids@, keep);
    }
    while i < ids.len()
        invariant
            i <= ids.len(),
            ids@ == crate::sets::listing(players@.dom()),
            crate::sets::lists(ids@, players@.dom()),
            keep == (|id: i64| confirms_itself(players@, declined@, id)),
            r@ == ids@.take(i as int).filter(keep),
        decreases ids.len() - i,
    {
        let id: i64 = ids[i];
        proof {
            filter_step(ids@, i as int, keep);
            assert(ids@.contains(ids@[i as int]));
        }
        if let Some(data) = players.get(&id) {
            if data.group == ReadinessGroup::Recent && !declined.contains(&id) {
                r.push(id);
            }
        }
        i = i + 1;
    }
    assert(ids@.take(ids@.len() as int) =~= ids@);
    r
}

fn departed_players(
    reacted: &BTreeMap<i64, String>,
    players: &BTreeMap<i64, ReadycheckPlayerData>,
) -> (r: Vec<i64>)
    ensures
        r@ == departed(reacted@.dom(), players@.dom()),
{
    let ids = key_list(reacted);
    let ghost keep = |id: i64| !players@.dom().contains(id);
    let mut r: Vec<i64> = Vec::new();
    let mut i: usize = 0;
    proof {
        filter_nothing(ids@, keep);
    }
    while i < ids.len()
        invariant
            i <= ids.len(),
            ids@ == crate::sets::listing(reacted@.dom()),
            keep == (|id: i64| !players@.dom().contains(id)),
            r@ == ids@.take(i as int).filter(keep),
        decreases ids.len() - i,
    {
        let id: i64 = ids[i];
        proof {
            filter_step(ids@, i as int, keep);
        }
        if !players.contains_key(&id) {
            r.push(id);
        }
        i = i + 1;
    }
    assert(ids@.take(ids@.len() as int) =~= ids@);
    r
}

fn newcomer_players(
    previous: &ReadycheckGeneration,
    players: &BTreeMap<i64, ReadycheckPlayerData>,
) -> (r: Vec<i64>)
    ensures
        r@ == newcomers(*previous, players@),
{
    let ids = key_list(players);
    let ghost keep = |id: i64|
        !previous.lobby_ids@.contains(id) && !previous.reacted@.dom().contains(id)
            && !confirms_itself(players@, previous.declined@, id);
    let mut r: Vec<i64> = Vec::new();
    let mut i: usize = 0;
    proof {
        filter_nothing(ids@, keep);
    }
    while i < ids.len()
        invariant
            i <= ids.len(),
            ids@ == crate::sets::listing(players@.dom()),
            crate::sets::lists(ids@, players@.dom()),
            keep == (|id: i64|
                !previous.lobby_ids@.contains(id) && !previous.reacted@.dom().contains(id)
                    && !confirms_itself(players@, previous.declined@, id)),
            r@ == ids@.take(i as int).filter(keep),
        decreases ids.len() - i,
    {
        let id: i64 = ids[i];
        proof {
            filter_step(ids@, i as int, keep);
            assert(ids@.contains(ids@[i as int]));
        }
        if let Some(data) = players.get(&id) {
            if !previous.lobby_ids.contains(&id) && !previous.reacted.contains_key(&id) && !(
            data.group == ReadinessGroup::Recent && !previous.declined.contains(&id)) {
                r.push(id);
            }
        }
        i = i + 1;
    }
    assert(ids@.take(ids@.len() as int) =~= ids@);
    r
}

/// The players whose reaction on the ready check no longer stands.
pub fn withdrawn_reactions(
    previous: &ReadycheckGeneration,
    players: &BTreeMap<i64, ReadycheckPlayerData>,
) -> (r: Vec<i64>)
    ensures
        r@ == stale_reactions(*previous, players@),
{
    let mut r = departed_players(&previous.reacted, players);
    let mut more = newcomer_players(previous, players);
    r.append(&mut more);
    r
}

/// A player who is confirmed from the start: one who joined recently, or the invoker of a check
/// that confirms its invoker.
pub open spec fn starts_confirmed(
    players: Map<i64, ReadycheckPlayerData>,
    invoker_id: i64,
    confirm_invoker: bool,
    id: i64,
) -> bool {
    players.dom().contains(id) && (players[id].group == ReadinessGroup::Recent || (id == invoker_id
        && confirm_invoker))
}

/// The players who are confirmed from the start, each marked by their tag.
pub open spec fn starting_marks(
    marks: Map<i64, String>,
    players: Map<i64, ReadycheckPlayerData>,
    invoker_id: i64,
    confirm_invoker: bool,
) -> bool {
    &&& forall|id: i64| #[trigger]
        marks.dom().contains(id) <==> starts_confirmed(players, invoker_id, confirm_invoker, id)
    &&& forall|id: i64| #[trigger]
        marks.dom().contains(id) ==> marks[id]@ == crate::text::tag(id as int)
}

/// The players who are confirmed from the start, each marked by their tag.
pub fn initial_reacted(
    players: &BTreeMap<i64, ReadycheckPlayerData>,
    invoker_id: i64,
    confirm_invoker: bool,
) -> (r: BTreeMap<i64, String>)
    ensures
        starting_marks(r@, players@, invoker_id, confirm_invoker),
{
    let ids = key_list(players);
    let mut r: BTreeMap<i64, String> = BTreeMap::new();
    let mut i: usize = 0;
    while i < ids.len()
        invariant
            i <= ids.len(),
            crate::sets::lists(ids@, players@.dom()),
            forall|id: i64| #[trigger]
                r@.dom().contains(id) <==> starts_confirmed(
                    players@,
                    invoker_id,
                    confirm_invoker,
                    id,
                ) && ids@.take(i as int).contains(id),
            forall|id: i64| #[trigger]
                r@.dom().contains(id) ==> r@[id]@ == crate::text::tag(id as int),
        decreases ids.len() - i,
    {
        let id: i64 = ids[i];
        proof {
            crate::sets::prefix_grows_by_one(ids@, i as int);
            assert(ids@.contains(ids@[i as int]));
        }
        if let Some(data) = players.get(&id) {
            if data.group == ReadinessGroup::Recent || (invoker_id == id && confirm_invoker) {
                r.insert(id, tag_i64(id));
            }
        }
        i = i + 1;
    }
    proof {
        assert(ids@.take(ids@.len() as int) =~= ids@);
        assert forall|id: i64| #[trigger] r@.dom().contains(id) <==> starts_confirmed(
            players@,
            invoker_id,
            confirm_invoker,
            id,
        ) by {
            assert(ids@.contains(id) <==> players@.dom().contains(id));
        }
    }
    r
}

/// `held` are the players among `players` whom a shuffle or draft of this lobby holds, given
/// for each the lobby that holds them.
pub open spec fn held_players(
    held: Set<i64>,
    players: Seq<i64>,
    holders: Seq<Option<LobbyKind>>,
    kind: LobbyKind,
) -> bool {
    forall|id: i64| #[trigger]
        held.contains(id) <==> exists|i: int|
            0 <= i < players.len() && i < holders.len() && players[i] == id && #[trigger] holders[i]
                == Some(kind)
}

/// The players whom a shuffle or draft of this lobby holds.
pub fn reserved_players(
    players: &Vec<i64>,
    holders: &Vec<Option<LobbyKind>>,
    kind: LobbyKind,
) -> (r: BTreeSet<i64>)
    ensures
        held_players(r@, players@, holders@, kind),
{
    let mut r: BTreeSet<i64> = BTreeSet::new();
    let mut i: usize = 0;
    while i < players.len() && i < holders.len()
        invariant
            i <= players.len(),
            i <= holders.len(),
            forall|id: i64| #[trigger]
                r@.contains(id) <==> exists|k: int|
                    0 <= k < i && players@[k] == id && #[trigger] holders@[k] == Some(kind),
        decreases players.len() - i,
    {
        let held = match holders[i] {
            Some(holder) => holder == kind,
            None => false,
        };
        let ghost before = r@;
        let id: i64 = players[i];
        if held {
            r.insert(id);
        }
        proof {
            assert(held == (holders@[i as int] == Some(kind)));
            assert forall|x: i64| #[trigger] r@.contains(x) <==> exists|k: int|
                0 <= k < i + 1 && players@[k] == x && #[trigger] holders@[k] == Some(kind) by {
                if before.contains(x) {
                    let k = choose|k: int|
                        0 <= k < i && players@[k] == x && #[trigger] holders@[k] == Some(kind);
                    assert(holders@[k] == Some(kind));
                }
                if exists|k: int|
                    0 <= k < i + 1 && players@[k] == x && #[trigger] holders@[k] == Some(kind) {
                    let k = choose|k: int|
                        0 <= k < i + 1 && players@[k] == x && #[trigger] holders@[k] == Some(kind);
                    assert(k == i || before.contains(x));
                }
            }
        }
        i = i + 1;
    }
    r
}

/// Following the roster is fair. A player who is still in the lobby keeps a confirmation, and
/// no player who is confirmed without a reaction loses one; a player who confirmed and left
/// always loses theirs.
pub proof fn following_the_roster_is_fair(
    previous: ReadycheckGeneration,
    players: Map<i64, ReadycheckPlayerData>,
    id: i64,
)
    requires
        players.dom().finite(),
        previous.reacted@.dom().finite(),
    ensures
        players.dom().contains(id) && previous.reacted@.dom().contains(id) ==> !stale_reactions(
            previous,
            players,
        ).contains(id),
        auto_confirmed(players, previous.declined@).contains(id) ==> !stale_reactions(
            previous,
            players,
        ).contains(id),
        !players.dom().contains(id) && previous.reacted@.dom().contains(id) ==> stale_reactions(
            previous,
            players,
        ).contains(id),
        auto_confirmed(players, previous.declined@).contains(id) <==> players.dom().contains(id)
            && confirms_itself(players, previous.declined@, id),
{
    crate::sets::finite_sets_can_be_listed(players.dom());
    crate::sets::finite_sets_can_be_listed(previous.reacted@.dom());
    let reacted = crate::sets::listing(previous.reacted@.dom());
    let roster = crate::sets::listing(players.dom());
    let gone = |x: i64| !players.dom().contains(x);
    let itself = |x: i64| confirms_itself(players, previous.declined@, x);
    let fresh = |x: i64|
        !previous.lobby_ids@.contains(x) && !previous.reacted@.dom().contains(x)
            && !confirms_itself(players, previous.declined@, x);
    kept_members(reacted, gone, id);
    kept_members(roster, itself, id);
    kept_members(roster, fresh, id);
    let a = reacted.filter(gone);
    let b = roster.filter(fresh);
    assert((a + b).contains(id) <==> a.contains(id) || b.contains(id)) by {
        if a.contains(id) {
            let k = choose|k: int| 0 <= k < a.len() && a[k] == id;
            assert((a + b)[k] == id);
        }
        if b.contains(id) {
            let k = choose|k: int| 0 <= k < b.len() && b[k] == id;
            assert((a + b)[a.len() + k] == id);
        }
        if (a + b).contains(id) {
            let k = choose|k: int| 0 <= k < (a + b).len() && (a + b)[k] == id;
            assert(if k < a.len() {
                a[k] == id
            } else {
                b[k - a.len()] == id
            });
        }
    }
    assert(reacted.contains(id) <==> previous.reacted@.dom().contains(id));
    assert(roster.contains(id) <==> players.dom().contains(id));
}

proof fn kept_members(v: Seq<i64>, keep: spec_fn(i64) -> bool, x: i64)
    ensures
        v.filter(keep).contains(x) <==> v.contains(x) && keep(x),
    decreases v.len(),
{
    reveal(Seq::filter);
    if v.len() > 0 {
        let head = v.drop_last();
        kept_members(head, keep, x);
        assert(v =~= head.push(v.last()));
        if head.contains(x) {
            let k = choose|k: int| 0 <= k < head.len() && head[k] == x;
            assert(v[k] == x);
        }
        if v.contains(x) {
            let k = choose|k: int| 0 <= k < v.len() && v[k] == x;
            assert(k == head.len() || head[k] == x);
        }
        if keep(v.last()) {
            let part = head.filter(keep);
            let all = part.push(v.last());
            assert(v.filter(keep) == all);
            if part.contains(x) {
                let k = choose|k: int| 0 <= k < part.len() && part[k] == x;
                assert(all[k] == x);
            }
            assert(all[all.len() - 1] == v.last());
            if all.contains(x) {
                let k = choose|k: int| 0 <= k < all.len() && all[k] == x;
                assert(k == part.len() || part[k] == x);
            }
        }
    }
}

/// Who is ready from the start: whoever joined recently, the invoker where that was asked for, and
/// nobody else; each only while on the roster, and under their own tag.
pub proof fn recent_players_and_invokers_start_ready(
    marks: Map<i64, String>,
    players: Map<i64, ReadycheckPlayerData>,
    invoker_id: i64,
    confirm_invoker: bool,
    id: i64,
)
    requires
        starting_marks(marks, players, invoker_id, confirm_invoker),
    ensures
        players.dom().contains(id) && players[id].group is Recent ==> marks.dom().contains(id),
        players.dom().contains(invoker_id) && confirm_invoker ==> marks.dom().contains(invoker_id),
        marks.dom().contains(id) ==> players.dom().contains(id) && (players[id].group is Recent || (
        confirm_invoker && id == invoker_id)) && marks[id]@ == crate::text::tag(id as int),
{
}

/// A player confirms without a reaction exactly if they joined recently and did not withdraw.
pub proof fn recent_players_confirm_themselves(
    players: Map<i64, ReadycheckPlayerData>,
    declined: Set<i64>,
    id: i64,
)
    requires
        players.dom().finite(),
    ensures
        auto_confirmed(players, declined).contains(id) <==> players.dom().contains(id)
            && players[id].group is Recent && !declined.contains(id),
{
    crate::sets::finite_sets_can_be_listed(players.dom());
    let listed = crate::sets::listing(players.dom());
    assert(listed.contains(id) <==> players.dom().contains(id));
    kept_members(listed, |x: i64| confirms_itself(players, declined, x), id);
}

/// A reaction no longer stands exactly if its player confirmed and has left the roster since, or
/// came after the check began, never confirmed, and does not confirm without a reaction.
pub proof fn reactions_go_stale_with_the_roster(
    previous: ReadycheckGeneration,
    players: Map<i64, ReadycheckPlayerData>,
    id: i64,
)
    requires
        players.dom().finite(),
        previous.reacted@.dom().finite(),
    ensures
        stale_reactions(previous, players).contains(id) <==> {
            ||| previous.reacted@.dom().contains(id) && !players.dom().contains(id)
            ||| players.dom().contains(id) && !previous.reacted@.dom().contains(id)
                && !previous.lobby_ids@.contains(id) && !(players[id].group is Recent
                && !previous.declined@.contains(id))
        },
{
    let reacted = previous.reacted@.dom();
    crate::sets::finite_sets_can_be_listed(players.dom());
    crate::sets::finite_sets_can_be_listed(reacted);
    let listed = crate::sets::listing(players.dom());
    let marked = crate::sets::listing(reacted);
    assert(listed.contains(id) <==> players.dom().contains(id));
    assert(marked.contains(id) <==> reacted.contains(id));
    kept_members(marked, |x: i64| !players.dom().contains(x), id);
    kept_members(
        listed,
        |x: i64|
            !previous.lobby_ids@.contains(x) && !previous.reacted@.dom().contains(x)
                && !confirms_itself(players, previous.declined@, x),
        id,
    );
    vstd::seq_lib::lemma_seq_concat_contains_all_elements(
        departed(reacted, players.dom()),
        newcomers(previous, players),
        id,
    );
}

/// A player is held by a lobby exactly if that lobby is found to hold them; what holds another player
/// makes no difference.
pub proof fn players_are_held_by_their_own_holder(
    held: Set<i64>,
    players: Seq<i64>,
    holders: Seq<Option<LobbyKind>>,
    kind: LobbyKind,
    i: int,
    id: i64,
)
    requires
        held_players(held, players, holders, kind),
        players.no_duplicates(),
        0 <= i < players.len(),
        i < holders.len(),
    ensures
        held.contains(players[i]) <==> holders[i] == Some(kind),
        held.contains(id) ==> players.contains(id),
{
    if holders[i] == Some(kind) {
        assert(players[i] == players[i]);
    }
    if held.contains(players[i]) {
        let k = choose|k: int|
            0 <= k < players.len() && k < holders.len() && players[k] == players[i]
                && #[trigger] holders[k] == Some(kind);
        assert(k == i);
    }
    if held.contains(id) {
        let k = choose|k: int|
            0 <= k < players.len() && k < holders.len() && players[k] == id && #[trigger] holders[k]
                == Some(kind);
        assert(players[k] == id);
    }
}

} // verus!
