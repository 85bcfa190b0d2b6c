//! Sets of ids and their listing in ascending order.
use vstd::prelude::*;
use std::collections::BTreeMap;
use std::collections::BTreeSet;

verus! {

/// `v` lists the members of `s`, each once, in ascending order.
pub open spec fn lists(v: Seq<i64>, s: Set<i64>) -> bool {
    &&& forall|x: i64| #[trigger] v.contains(x) <==> s.contains(x)
    &&& forall|i: int, j: int| 0 <= i < j < v.len() ==> v[i] < v[j]
}

/// The members of a set in ascending order.
pub open spec fn listing(s: Set<i64>) -> Seq<i64> {
    choose|v: Seq<i64>| lists(v, s)
}

/// A set has one ascending listing.
pub proof fn listing_is_unique(v: Seq<i64>, w: Seq<i64>, s: Set<i64>)
    requires
        lists(v, s),
        lists(w, s),
    ensures
        v == w,
    decreases v.len(),
{
    if v.len() == 0 {
        if w.len() > 0 {
            assert(w.contains(w[0]));
            assert(v.contains(w[0]));
        }
        assert(v =~= w);
    } else {
        assert(v.contains(v.last()));
        assert(w.contains(v.last()));
        assert(w.len() > 0);
        assert(w.contains(w.last()));
        assert(v.contains(w.last()));
        let m = v.last();
        let i = choose|i: int| 0 <= i < w.len() && w[i] == m;
        let j = choose|j: int| 0 <= j < v.len() && v[j] == w.last();
        assert(w.last() == m);
        let t = s.remove(m);
        assert forall|x: i64| #[trigger] v.drop_last().contains(x) <==> t.contains(x) by {
            if v.drop_last().contains(x) {
                let k = choose|k: int| 0 <= k < v.drop_last().len() && v.drop_last()[k] == x;
                assert(v[k] == x);
                assert(v.contains(x));
            }
            if t.contains(x) {
                assert(v.contains(x));
                let k = choose|k: int| 0 <= k < v.len() && v[k] == x;
                assert(v.drop_last()[k] == x);
            }
        }
        assert forall|x: i64| #[trigger] w.drop_last().contains(x) <==> t.contains(x) by {
            if w.drop_last().contains(x) {
                let k = choose|k: int| 0 <= k < w.drop_last().len() && w.drop_last()[k] == x;
                assert(w[k] == x);
                assert(w.contains(x));
            }
            if t.contains(x) {
                assert(w.contains(x));
                let k = choose|k: int| 0 <= k < w.len() && w[k] == x;
                assert(w.drop_last()[k] == x);
            }
        }
        listing_is_unique(v.drop_last(), w.drop_last(), t);
        assert(v =~= v.drop_last().push(m));
        assert(w =~= w.drop_last().push(m));
    }
}

spec fn placed(v: Seq<i64>, a: i64) -> Seq<i64>
    decreases v.len(),
{
    if v.len() == 0 {
        seq![a]
    } else if v.last() < a {
        v.push(a)
    } else {
        placed(v.drop_last(), a).push(v.last())
    }
}

proof fn placed_in_order(v: Seq<i64>, a: i64)
    requires
        forall|i: int, j: int| 0 <= i < j < v.len() ==> v[i] < v[j],
        !v.contains(a),
    ensures
        forall|i: int, j: int| 0 <= i < j < placed(v, a).len() ==> placed(v, a)[i] < placed(v, a)[j],
        forall|x: i64| #[trigger] placed(v, a).contains(x) <==> v.contains(x) || x == a,
    decreases v.len(),
{
    let w = placed(v, a);
    if v.len() == 0 {
        assert(w[0] == a);
    } else {
        let head = v.drop_last();
        let last = v.last();
        assert(v =~= head.push(last));
        assert(v[v.len() - 1] == last);
        assert(forall|x: i64| head.contains(x) ==> x < last) by {
            assert forall|x: i64| head.contains(x) implies x < last by {
                let k = choose|k: int| 0 <= k < head.len() && head[k] == x;
                assert(v[k] < v[v.len() - 1]);
            }
        }
        assert forall|x: i64| v.contains(x) <==> head.contains(x) || x == last by {
            if head.contains(x) {
                let k = choose|k: int| 0 <= k < head.len() && head[k] == x;
                assert(v[k] == x);
            }
            if v.contains(x) {
                let k = choose|k: int| 0 <= k < v.len() && v[k] == x;
                assert(k == head.len() || head[k] == x);
            }
        }
        let part = if last < a {
            v
        } else {
            placed(head, a)
        };
        let tail = if last < a {
            a
        } else {
            last
        };
        if !(last < a) {
            placed_in_order(head, a);
        }
        assert(w == part.push(tail));
        assert forall|x: i64| #[trigger] w.contains(x) <==> v.contains(x) || x == a by {
            if part.contains(x) {
                let k = choose|k: int| 0 <= k < part.len() && part[k] == x;
                assert(w[k] == x);
            }
            assert(w[w.len() - 1] == tail);
            if w.contains(x) {
                let k = choose|k: int| 0 <= k < w.len() && w[k] == x;
                assert(k == part.len() || part[k] == x);
            }
            assert(part.contains(x) || x == tail <==> w.contains(x));
        }
        assert forall|i: int, j: int| 0 <= i < j < w.len() implies w[i] < w[j] by {
            if j == w.len() - 1 {
                assert(part.contains(part[i]));
                if last < a {
                    assert(i == v.len() - 1 || v[i] < v[v.len() - 1]);
                } else {
                    assert(head.contains(part[i]) || part[i] == a);
                }
            }
        }
    }
}

/// Every finite set has an ascending listing.
pub proof fn finite_sets_can_be_listed(s: Set<i64>)
    requires
        s.finite(),
    ensures
        lists(listing(s), s),
    decreases s.len(),
{
    if s.len() == 0 {
        assert(s =~= Set::empty());
        assert(lists(Seq::empty(), s));
    } else {
        let a = s.choose();
        let rest = s.remove(a);
        finite_sets_can_be_listed(rest);
        let v = listing(rest);
        assert(v.contains(a) <==> rest.contains(a));
        placed_in_order(v, a);
        assert(lists(placed(v, a), s)) by {
            assert forall|x: i64| #[trigger] placed(v, a).contains(x) <==> s.contains(x) by {
                assert(v.contains(x) <==> rest.contains(x));
            }
        }
    }
}

/// The next prefix of a list holds one item more: the one behind the prefix.
pub proof fn prefix_grows_by_one<A>(v: Seq<A>, i: int)
    requires
        0 <= i < v.len(),
    ensures
        forall|x: A| #[trigger] v.take(i + 1).contains(x) <==> v.take(i).contains(x) || x == v[i],
{
    let head = v.take(i);
    let next = v.take(i + 1);
    assert forall|x: A| #[trigger] next.contains(x) <==> head.contains(x) || x == v[i] by {
        if head.contains(x) {
            let k = choose|k: int| 0 <= k < head.len() && head[k] == x;
            assert(next[k] == x);
        }
        assert(next[i] == v[i]);
        if next.contains(x) {
            let k = choose|k: int| 0 <= k < next.len() && next[k] == x;
            assert(k == i || head[k] == x);
        }
    }
}

/// Lists a set in ascending order.
pub fn members(s: &BTreeSet<i64>) -> (v: Vec<i64>)
    ensures
        lists(v@, s@),
        v@ == listing(s@),
{
    broadcast use vstd::std_specs::btree::group_btree_axioms;
    broadcast use vstd::laws_cmp::group_laws_cmp;

    let mut v: Vec<i64> = Vec::new();
    for x in it: s.iter()
        invariant
            v@ == it.seq().unref().take(it.index()),
            it.seq() == vstd::std_specs::iter::IteratorSpec::remaining(&vstd::std_specs::btree::spec_btree_keys_iter(s)),
    {
        v.push(*x);
    }
    proof {
        let q = vstd::std_specs::iter::IteratorSpec::remaining(&vstd::std_specs::btree::spec_btree_keys_iter(s));
        assert(v@ =~= q.unref());
        assert(vstd::laws_cmp::obeys_cmp::<i64>());
        assert(vstd::laws_cmp::obeys_cmp::<&i64>());
        assert(vstd::std_specs::btree::increasing_seq(q));
        assert forall|i: int, j: int| 0 <= i < j < v.len() implies v@[i] < v@[j] by {
            assert(vstd::std_specs::cmp::OrdSpec::cmp_spec(&q[i], &q[j]) is Less);
            assert(*q[i] == v@[i] && *q[j] == v@[j]);
        }
        assert forall|x: i64| #[trigger] v@.contains(x) <==> s@.contains(x) by {
            assert(q.unref().to_set().contains(x) == q.unref().contains(x));
        }
        assert(lists(v@, s@));
        listing_is_unique(v@, listing(s@), s@);
    }
    v
}

/// Lists the keys of a map in ascending order.
pub fn key_list<V>(m: &BTreeMap<i64, V>) -> (v: Vec<i64>)
    ensures
        lists(v@, m@.dom()),
        v@ == listing(m@.dom()),
{
    broadcast use vstd::std_specs::btree::group_btree_axioms;
    broadcast use vstd::laws_cmp::group_laws_cmp;

    let mut v: Vec<i64> = Vec::new();
    for x in it: m.keys()
        invariant
            v@ == it.seq().unref().take(it.index()),
            it.seq() == vstd::std_specs::iter::IteratorSpec::remaining(
                &vstd::std_specs::btree::spec_keys_iter(m),
            ),
    {
        v.push(*x);
    }
    proof {
        let q = vstd::std_specs::iter::IteratorSpec::remaining(
            &vstd::std_specs::btree::spec_keys_iter(m),
        );
        assert(v@ =~= q.unref());
        assert(vstd::laws_cmp::obeys_cmp::<i64>());
        assert(vstd::laws_cmp::obeys_cmp::<&i64>());
        assert(vstd::std_specs::btree::increasing_seq(q));
        assert forall|i: int, j: int| 0 <= i < j < v.len() implies v@[i] < v@[j] by {
            assert(vstd::std_specs::cmp::OrdSpec::cmp_spec(&q[i], &q[j]) is Less);
            assert(*q[i] == v@[i] && *q[j] == v@[j]);
        }
        assert forall|x: i64| #[trigger] v@.contains(x) <==> m@.dom().contains(x) by {
            assert(q.unref().to_set().contains(x) == q.unref().contains(x));
        }
        assert(lists(v@, m@.dom()));
        listing_is_unique(v@, listing(m@.dom()), m@.dom());
    }
    v
}

/// How many members a set has.
pub fn count(s: &BTreeSet<i64>) -> (r: usize)
    ensures
        r == s@.len(),
{
    broadcast use vstd::std_specs::btree::group_btree_axioms;
    broadcast use vstd::laws_cmp::group_laws_cmp;

    s.len()
}

/// How many keys a map has.
pub fn key_count<V>(m: &BTreeMap<i64, V>) -> (r: usize)
    ensures
        r == m@.dom().len(),
{
    broadcast use vstd::std_specs::btree::group_btree_axioms;
    broadcast use vstd::laws_cmp::group_laws_cmp;

    m.len()
}

/// Whether two sets have the same members.
pub fn same_set(a: &BTreeSet<i64>, b: &BTreeSet<i64>) -> (r: bool)
    ensures
        r == (a@ == b@),
{
    let v = members(a);
    let w = members(b);
    if v.len() != w.len() {
        return false;
    }
    let mut i: usize = 0;
    while i < v.len()
        invariant
            i <= v.len(),
            v.len() == w.len(),
            v@ == listing(a@),
            w@ == listing(b@),
            v@.take(i as int) =~= w@.take(i as int),
        decreases v.len() - i,
    {
        if v[i] != w[i] {
            return false;
        }
        assert(v@.take(i + 1) =~= v@.take(i as int).push(v@[i as int]));
        assert(w@.take(i + 1) =~= w@.take(i as int).push(w@[i as int]));
        i = i + 1;
    }
    assert(v@ =~= v@.take(v@.len() as int));
    assert(w@ =~= w@.take(w@.len() as int));
    assert(a@ =~= b@) by {
        assert forall|x: i64| a@.contains(x) <==> b@.contains(x) by {
            assert(v@.contains(x) <==> a@.contains(x));
            assert(w@.contains(x) <==> b@.contains(x));
        }
    }
    true
}

/// The members of `s` that are valid Discord ids, in ascending order.
pub open spec fn snowflakes(v: Seq<i64>) -> Seq<u64> {
    v.filter(|x: i64| x >= 0).map_values(|x: i64| x as u64)
}

/// Keeps the valid Discord ids of a list, in order.
pub fn valid_ids(v: &Vec<i64>) -> (r: Vec<u64>)
    ensures
        r@ == snowflakes(v@),
{
    let ghost pred = |x: i64| x >= 0;
    let mut r: Vec<u64> = Vec::new();
    let mut i: usize = 0;
    assert(v@.take(0).filter(pred) =~= Seq::<i64>::empty()) by {
        reveal(Seq::filter);
    }
    while i < v.len()
        invariant
            i <= v.len(),
            pred == (|x: i64| x >= 0),
            r@ == v@.take(i as int).filter(pred).map_values(|x: i64| x as u64),
        decreases v.len() - i,
    {
        proof {
            let head = v@.take(i as int);
            assert(v@.take(i + 1) =~= head.push(v@[i as int]));
            assert(v@.take(i + 1).drop_last() =~= head);
            reveal(Seq::filter);
            assert(v@.take(i + 1).filter(pred) =~= if pred(v@[i as int]) {
                head.filter(pred).push(v@[i as int])
            } else {
                head.filter(pred)
            });
        }
        if v[i] >= 0 {
            r.push(v[i] as u64);
        }
        assert(r@ =~= v@.take(i + 1).filter(pred).map_values(|x: i64| x as u64));
        i = i + 1;
    }
    assert(v@.take(v@.len() as int) =~= v@);
    r
}

/// The set of a list of Discord ids.
pub fn id_set(v: &Vec<u64>) -> (r: BTreeSet<u64>)
    ensures
        r@ == v@.to_set(),
{
    let mut r: BTreeSet<u64> = BTreeSet::new();
    let mut i: usize = 0;
    while i < v.len()
        invariant
            i <= v.len(),
            r@ == v@.take(i as int).to_set(),
        decreases v.len() - i,
    {
        r.insert(v[i]);
        proof {
            prefix_grows_by_one(v@, i as int);
            assert(r@ =~= v@.take(i + 1).to_set());
        }
        i = i + 1;
    }
    assert(v@.take(v@.len() as int) =~= v@);
    r
}

/// A list holds as Discord ids exactly the ids that it holds and Discord can have issued.
pub proof fn snowflakes_are_the_valid_ids(v: Seq<i64>)
    ensures
        forall|x: u64|
            #[trigger] snowflakes(v).contains(x) <==> x <= i64::MAX && v.contains(x as i64),
    decreases v.len(),
{
    let pred = |x: i64| x >= 0;
    let unsign = |x: i64| x as u64;
    reveal(Seq::filter);
    if v.len() > 0 {
        let head = v.drop_last();
        let last = v.last();
        snowflakes_are_the_valid_ids(head);
        assert(v =~= head.push(last));
        assert forall|x: u64|
            #[trigger] snowflakes(v).contains(x) <==> x <= i64::MAX && v.contains(x as i64) by {
            assert(snowflakes(head).contains(x) <==> x <= i64::MAX && head.contains(x as i64));
            if head.contains(x as i64) {
                let k = choose|k: int| 0 <= k < head.len() && head[k] == x as i64;
                assert(v[k] == x as i64);
            }
            if v.contains(x as i64) {
                let k = choose|k: int| 0 <= k < v.len() && v[k] == x as i64;
                if k < head.len() {
                    assert(head[k] == x as i64);
                }
            }
            if last >= 0 {
                assert(snowflakes(v) =~= snowflakes(head).push(last as u64));
                let all = snowflakes(v);
                let part = snowflakes(head);
                if part.contains(x) {
                    let k = choose|k: int| 0 <= k < part.len() && part[k] == x;
                    assert(all[k] == x);
                }
                if x == last as u64 {
                    assert(all[all.len() - 1] == x);
                    assert(v[v.len() - 1] == x as i64);
                }
                if all.contains(x) {
                    let k = choose|k: int| 0 <= k < all.len() && all[k] == x;
                    assert(k == part.len() || part[k] == x);
                }
            } else {
                assert(snowflakes(v) =~= snowflakes(head));
            }
        }
    } else {
        assert(snowflakes(v) =~= Seq::<u64>::empty());
    }
}

/// `ids` holds as Discord ids exactly the members of `s` that Discord can have issued.
pub open spec fn holds_ids(ids: Set<u64>, s: Set<i64>) -> bool {
    forall|x: u64| #[trigger] ids.contains(x) <==> x <= i64::MAX && s.contains(x as i64)
}

/// The members of a set as Discord ids.
pub fn snowflake_set(s: &BTreeSet<i64>) -> (r: BTreeSet<u64>)
    ensures
        holds_ids(r@, s@),
{
    let listed = members(s);
    let ids = valid_ids(&listed);
    let r = id_set(&ids);
    proof {
        snowflakes_are_the_valid_ids(listed@);
        assert forall|x: u64| #[trigger] r@.contains(x) <==> x <= i64::MAX && s@.contains(
            x as i64,
        ) by {
            assert(r@.contains(x) <==> snowflakes(listed@).contains(x));
            assert(listed@.contains(x as i64) <==> s@.contains(x as i64));
        }
    }
    r
}

/// The members that two sets share.
pub fn common(a: &BTreeSet<i64>, b: &BTreeSet<i64>) -> (r: BTreeSet<i64>)
    ensures
        r@ == a@.intersect(b@),
{
    let listed = members(a);
    let mut r: BTreeSet<i64> = BTreeSet::new();
    let mut i: usize = 0;
    while i < listed.len()
        invariant
            i <= listed.len(),
            forall|x: i64|
                #[trigger] r@.contains(x) <==> b@.contains(x) && listed@.take(i as int).contains(x),
        decreases listed.len() - i,
    {
        let id: i64 = listed[i];
        proof {
            prefix_grows_by_one(listed@, i as int);
        }
        if b.contains(&id) {
            r.insert(id);
        }
        i = i + 1;
    }
    proof {
        assert(listed@.take(listed@.len() as int) =~= listed@);
        assert forall|x: i64| r@.contains(x) <==> a@.intersect(b@).contains(x) by {
            assert(listed@.contains(x) <==> a@.contains(x));
        }
        assert(r@ =~= a@.intersect(b@));
    }
    r
}

/// The keys of a map.
pub fn key_set<V>(m: &BTreeMap<i64, V>) -> (r: BTreeSet<i64>)
    ensures
        r@ == m@.dom(),
{
    let listed = key_list(m);
    let mut r: BTreeSet<i64> = BTreeSet::new();
    let mut i: usize = 0;
    while i < listed.len()
        invariant
            i <= listed.len(),
            forall|x: i64| #[trigger] r@.contains(x) <==> listed@.take(i as int).contains(x),
        decreases listed.len() - i,
    {
        let id: i64 = listed[i];
        proof {
            prefix_grows_by_one(listed@, i as int);
        }
        r.insert(id);
        i = i + 1;
    }
    proof {
        assert(listed@.take(listed@.len() as int) =~= listed@);
        assert forall|x: i64| r@.contains(x) <==> m@.dom().contains(x) by {
            assert(listed@.contains(x) <==> m@.dom().contains(x));
        }
        assert(r@ =~= m@.dom());
    }
    r
}

/// The members of either of two sets.
pub fn either(a: &BTreeSet<i64>, b: &BTreeSet<i64>) -> (r: BTreeSet<i64>)
    ensures
        r@ == a@.union(b@),
{
    let listed = members(b);
    let mut r = a.clone();
    let mut i: usize = 0;
    while i < listed.len()
        invariant
            i <= listed.len(),
            forall|x: i64|
                #[trigger] r@.contains(x) <==> a@.contains(x) || listed@.take(i as int).contains(x),
        decreases listed.len() - i,
    {
        let id: i64 = listed[i];
        proof {
            prefix_grows_by_one(listed@, i as int);
        }
        r.insert(id);
        i = i + 1;
    }
    proof {
        assert(listed@.take(listed@.len() as int) =~= listed@);
        assert forall|x: i64| r@.contains(x) <==> a@.union(b@).contains(x) by {
            assert(listed@.contains(x) <==> b@.contains(x));
        }
        assert(r@ =~= a@.union(b@));
    }
    r
}

} // verus!
