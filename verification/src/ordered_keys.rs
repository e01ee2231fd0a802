//! The keys of a finite `u64`-keyed map listed in increasing order, and the
//! proof that walking a `BTreeMap` visits exactly that list.

use std::collections::BTreeMap;
use vstd::prelude::*;
use vstd::std_specs::btree::spec_btree_map_iter;
use vstd::std_specs::iter::IteratorSpec;

verus! {

broadcast use vstd::std_specs::btree::group_btree_axioms, vstd::laws_cmp::group_laws_cmp;

pub open spec fn strictly_increasing(s: Seq<u64>) -> bool {
    forall|i: int, j: int| 0 <= i < j < s.len() ==> s[i] < s[j]
}

/// The keys of `m` in increasing order.
pub open spec fn sorted_keys<V>(m: Map<u64, V>) -> Seq<u64> {
    choose|s: Seq<u64>| strictly_increasing(s) && s.to_set() == m.dom()
}

proof fn lemma_increasing_last_is_max(s: Seq<u64>, x: u64)
    requires
        strictly_increasing(s),
        s.len() > 0,
        s.to_set().contains(x),
    ensures
        x <= s.last(),
{
    let i = choose|i: int| 0 <= i < s.len() && s[i] == x;
    assert(s.contains(x));
}

proof fn lemma_drop_last_set(s: Seq<u64>)
    requires
        strictly_increasing(s),
        s.len() > 0,
    ensures
        s.drop_last().to_set() == s.to_set().remove(s.last()),
{
    assert forall|x: u64| s.drop_last().to_set().contains(x) <==> s.to_set().remove(
        s.last(),
    ).contains(x) by {
        if s.drop_last().to_set().contains(x) {
            assert(s.drop_last().contains(x));
            let i = choose|i: int| 0 <= i < s.drop_last().len() && s.drop_last()[i] == x;
            assert(s[i] == x);
            assert(s.contains(x));
            assert(x != s.last());
        }
        if s.to_set().remove(s.last()).contains(x) {
            assert(s.contains(x));
            let i = choose|i: int| 0 <= i < s.len() && s[i] == x;
            assert(i != s.len() - 1);
            assert(s.drop_last()[i] == x);
            assert(s.drop_last().contains(x));
        }
    }
    assert(s.drop_last().to_set() =~= s.to_set().remove(s.last()));
}

/// Two increasing key lists with the same members are the same list.
pub proof fn lemma_increasing_unique(a: Seq<u64>, b: Seq<u64>)
    requires
        strictly_increasing(a),
        strictly_increasing(b),
        a.to_set() == b.to_set(),
    ensures
        a == b,
    decreases a.len(),
{
    if a.len() == 0 {
        if b.len() > 0 {
            assert(b.contains(b[0]));
            assert(b.to_set().contains(b[0]));
            assert(a.to_set().contains(b[0]));
            assert(a.contains(b[0]));
        }
        assert(a =~= b);
    } else {
        assert(a.contains(a.last()));
        assert(b.to_set().contains(a.last()));
        if b.len() == 0 {
            assert(b.contains(a.last()));
        }
        assert(b.contains(b.last()));
        assert(a.to_set().contains(b.last()));
        lemma_increasing_last_is_max(a, b.last());
        lemma_increasing_last_is_max(b, a.last());
        lemma_drop_last_set(a);
        lemma_drop_last_set(b);
        lemma_increasing_unique(a.drop_last(), b.drop_last());
        assert(a =~= b.drop_last().push(b.last()));
        assert(b =~= b.drop_last().push(b.last()));
    }
}

/// Any increasing list of exactly the map's keys is its sorted key list.
pub proof fn lemma_sorted_keys_is<V>(m: Map<u64, V>, s: Seq<u64>)
    requires
        strictly_increasing(s),
        s.to_set() == m.dom(),
    ensures
        sorted_keys(m) == s,
{
    let t = sorted_keys(m);
    assert(strictly_increasing(t) && t.to_set() == m.dom());
    lemma_increasing_unique(t, s);
}

proof fn lemma_walk_keys_increasing<V>(m: &BTreeMap<u64, V>, walk: Seq<(&u64, &V)>)
    requires
        walk == IteratorSpec::remaining(&spec_btree_map_iter(m)),
        vstd::std_specs::btree::key_obeys_cmp_spec::<u64>() ==> vstd::std_specs::btree::increasing_seq(
            walk.map_values(|p: (&u64, &V)| *p.0),
        ),
    ensures
        strictly_increasing(walk.map_values(|p: (&u64, &V)| *p.0)),
{
    let ks = walk.map_values(|p: (&u64, &V)| *p.0);
    assert forall|i: int, j: int| 0 <= i < j < ks.len() implies ks[i] < ks[j] by {
        assert(vstd::std_specs::cmp::OrdSpec::cmp_spec(&ks[i], &ks[j]) is Less);
    }
}

/// The keys of a `BTreeMap`, in the order its iterator yields them.
pub fn ordered_keys<V>(m: &BTreeMap<u64, V>) -> (keys: Vec<u64>)
    ensures
        keys@ == sorted_keys(m@),
        strictly_increasing(keys@),
        keys@.to_set() == m@.dom(),
{
    let mut keys: Vec<u64> = Vec::new();
    let probe = m.iter();
    let ghost walk = IteratorSpec::remaining(&spec_btree_map_iter(m));
    proof {
        lemma_walk_keys_increasing(m, walk);
    }
    for kv in it: m.iter()
        invariant
            it.seq() == walk,
            strictly_increasing(walk.map_values(|p: (&u64, &V)| *p.0)),
            keys@ == walk.take(it.index()).map_values(|p: (&u64, &V)| *p.0),
    {
        proof {
            assert(walk.take(it.index() + 1) =~= walk.take(it.index()).push(kv));
        }
        keys.push(*kv.0);
        proof {
            assert(keys@ =~= walk.take(it.index() + 1).map_values(|p: (&u64, &V)| *p.0));
        }
    }
    proof {
        assert(walk.take(walk.len() as int) =~= walk);
        let ks = walk.map_values(|p: (&u64, &V)| *p.0);
        assert(keys@ == ks);
        assert(ks.to_set() =~= m@.dom()) by {
            assert forall|k: u64| ks.to_set().contains(k) <==> m@.dom().contains(k) by {
                if ks.to_set().contains(k) {
                    assert(ks.contains(k));
                    let i = choose|i: int| 0 <= i < ks.len() && ks[i] == k;
                    assert(m@.contains_key(*walk[i].0));
                }
                if m@.dom().contains(k) {
                    assert(walk.contains((&k, &m@[k])));
                    let i = choose|i: int| 0 <= i < walk.len() && walk[i] == (&k, &m@[k]);
                    assert(ks[i] == k);
                    assert(ks.contains(k));
                }
            }
        }
        lemma_sorted_keys_is(m@, ks);
    }
    keys
}

} // verus!
