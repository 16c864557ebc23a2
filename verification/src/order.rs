//! Maps by index, walked in ascending order.
use std::collections::BTreeMap;
use vstd::prelude::*;
use vstd::std_specs::cmp::OrdSpec;
use vstd::std_specs::iter::IteratorSpec;

verus! {

/// `keys` lists the members of `indices`, each once, in ascending order.
pub open spec fn lists_ascending(keys: Seq<usize>, indices: Set<usize>) -> bool {
    &&& keys.to_set() == indices
    &&& forall|i: int, j: int| 0 <= i < j < keys.len() ==> keys[i] < keys[j]
}

/// The members of a set of indices in ascending order.
pub open spec fn in_order(indices: Set<usize>) -> Seq<usize> {
    choose|keys: Seq<usize>| lists_ascending(keys, indices)
}

/// The values of a map by index, in ascending order of their indices.
pub open spec fn values_in_order<V>(map: Map<usize, V>) -> Seq<V> {
    in_order(map.dom()).map_values(|key: usize| map[key])
}

/// A set of indices has one ascending list.
pub proof fn lemma_in_order(keys: Seq<usize>, indices: Set<usize>)
    requires
        lists_ascending(keys, indices),
    ensures
        in_order(indices) == keys,
{
    lemma_ascending_unique(keys, in_order(indices));
}

proof fn lemma_ascending_unique(a: Seq<usize>, b: Seq<usize>)
    requires
        a.to_set() == b.to_set(),
        forall|i: int, j: int| 0 <= i < j < a.len() ==> a[i] < a[j],
        forall|i: int, j: int| 0 <= i < j < b.len() ==> b[i] < b[j],
    ensures
        a == b,
    decreases a.len(),
{
    if a.len() == 0 || b.len() == 0 {
        if a.len() > 0 {
            assert(b.to_set().contains(a[0]));
        }
        if b.len() > 0 {
            assert(a.to_set().contains(b[0]));
        }
        assert(a =~= b);
    } else {
        let x = a.last();
        let y = b.last();
        assert(a.to_set().contains(a[a.len() - 1]));
        assert(b.to_set().contains(b[b.len() - 1]));
        assert(b.to_set().contains(x) && a.to_set().contains(y));
        assert(x == y);
        let (c, d) = (a.drop_last(), b.drop_last());
        assert forall|k: usize| c.to_set().contains(k) <==> d.to_set().contains(k) by {
            if c.to_set().contains(k) {
                let i = choose|i: int| 0 <= i < c.len() && c[i] == k;
                assert(a[i] == k);
                assert(a.to_set().contains(k));
                let j = choose|j: int| 0 <= j < b.len() && b[j] == k;
                assert(d[j] == k);
            }
            if d.to_set().contains(k) {
                let i = choose|i: int| 0 <= i < d.len() && d[i] == k;
                assert(b[i] == k);
                assert(b.to_set().contains(k));
                let j = choose|j: int| 0 <= j < a.len() && a[j] == k;
                assert(c[j] == k);
            }
        }
        assert(c.to_set() =~= d.to_set());
        lemma_ascending_unique(c, d);
        assert(a =~= c.push(x));
        assert(b =~= d.push(y));
    }
}

/// The members of a set of indices below `n`, in ascending order.
spec fn members_below(indices: Set<usize>, n: nat) -> Seq<usize>
    decreases n,
{
    if n == 0 {
        Seq::empty()
    } else {
        let before = members_below(indices, (n - 1) as nat);
        if indices.contains((n - 1) as usize) {
            before.push((n - 1) as usize)
        } else {
            before
        }
    }
}

proof fn lemma_members_below(indices: Set<usize>, n: nat)
    requires
        n <= usize::MAX + 1,
    ensures
        ({
            let keys = members_below(indices, n);
            &&& forall|i: int|
                0 <= i < keys.len() ==> (#[trigger] keys[i]) < n && indices.contains(keys[i])
            &&& forall|i: int, j: int| 0 <= i < j < keys.len() ==> keys[i] < keys[j]
            &&& forall|key: usize| key < n && #[trigger] indices.contains(key) ==> keys.contains(key)
        }),
    decreases n,
{
    if n > 0 {
        let before = members_below(indices, (n - 1) as nat);
        let keys = members_below(indices, n);
        let last = (n - 1) as usize;
        lemma_members_below(indices, (n - 1) as nat);
        assert forall|key: usize| key < n && #[trigger] indices.contains(key) implies keys.contains(
            key,
        ) by {
            if key == last {
                assert(keys[keys.len() - 1] == key);
            } else {
                assert(before.contains(key));
                let i = choose|i: int| 0 <= i < before.len() && before[i] == key;
                assert(keys[i] == key);
            }
        }
    }
}

/// Every set of indices has an ascending list.
pub proof fn lemma_in_order_lists(indices: Set<usize>)
    ensures
        lists_ascending(in_order(indices), indices),
{
    let n = (usize::MAX + 1) as nat;
    let keys = members_below(indices, n);
    lemma_members_below(indices, n);
    assert(keys.to_set() =~= indices);
    assert(lists_ascending(keys, indices));
}

/// No index has no order.
pub proof fn lemma_in_order_empty()
    ensures
        in_order(Set::empty()) == Seq::<usize>::empty(),
{
    assert(Seq::<usize>::empty().to_set() =~= Set::empty());
    lemma_in_order(Seq::empty(), Set::empty());
}

/// The keys of a map in ascending order.
pub fn sorted_keys<V>(map: &BTreeMap<usize, V>) -> (keys: Vec<usize>)
    ensures
        lists_ascending(keys@, map@.dom()),
        keys@ == in_order(map@.dom()),
{
    let mut keys: Vec<usize> = Vec::new();
    let entries = map.iter();
    let ghost all = entries.remaining();
    let ghost first = |entry: (&usize, &V)| *entry.0;
    for entry in it: entries
        invariant
            it.seq() == all,
            first == (|entry: (&usize, &V)| *entry.0),
            keys@ == all.take(it.index()).map_values(first),
    {
        keys.push(*entry.0);
        assert(keys@ =~= all.take(it.index() + 1).map_values(first));
    }
    proof {
        assert(keys@ =~= all.map_values(first));
        assert forall|i: int, j: int| 0 <= i < j < keys@.len() implies keys@[i] < keys@[j] by {
            assert(keys@[i].cmp_spec(&keys@[j]) is Less);
        }
        assert forall|key: usize| keys@.to_set().contains(key) <==> map@.dom().contains(key) by {
            if keys@.to_set().contains(key) {
                let i = choose|i: int| 0 <= i < keys@.len() && keys@[i] == key;
                assert(map@.contains_key(*all[i].0));
            }
            if map@.contains_key(key) {
                let i = choose|i: int| 0 <= i < all.len() && all[i] == (&key, &map@[key]);
                assert(keys@[i] == key);
            }
        }
        assert(keys@.to_set() =~= map@.dom());
        lemma_in_order(keys@, map@.dom());
    }
    keys
}

/// Two ascending lists merged into one, an index in both lists once.
fn merged(a: &Vec<usize>, b: &Vec<usize>) -> (keys: Vec<usize>)
    requires
        lists_ascending(a@, a@.to_set()),
        lists_ascending(b@, b@.to_set()),
    ensures
        lists_ascending(keys@, a@.to_set().union(b@.to_set())),
{
    let mut keys: Vec<usize> = Vec::new();
    let mut i: usize = 0;
    let mut j: usize = 0;
    while i < a.len() || j < b.len()
        invariant
            i <= a@.len(),
            j <= b@.len(),
            lists_ascending(a@, a@.to_set()),
            lists_ascending(b@, b@.to_set()),
            forall|k: int, l: int| 0 <= k < l < keys@.len() ==> keys@[k] < keys@[l],
            i < a@.len() ==> forall|k: int| 0 <= k < keys@.len() ==> keys@[k] < a@[i as int],
            j < b@.len() ==> forall|k: int| 0 <= k < keys@.len() ==> keys@[k] < b@[j as int],
            forall|k: int| 0 <= k < i ==> keys@.contains(#[trigger] a@[k]),
            forall|k: int| 0 <= k < j ==> keys@.contains(#[trigger] b@[k]),
            forall|k: int|
                0 <= k < keys@.len() ==> a@.contains(#[trigger] keys@[k]) || b@.contains(keys@[k]),
        decreases a@.len() - i + b@.len() - j,
    {
        let next = if j == b.len() || (i < a.len() && a[i] < b[j]) {
            a[i]
        } else {
            b[j]
        };
        let ghost was = keys@;
        keys.push(next);
        proof {
            assert forall|key: usize| was.contains(key) implies keys@.contains(key) by {
                let k = choose|k: int| 0 <= k < was.len() && was[k] == key;
                assert(keys@[k] == key);
            }
            assert(keys@[was.len() as int] == next);
        }
        if i < a.len() && a[i] == next {
            i += 1;
        }
        if j < b.len() && b[j] == next {
            j += 1;
        }
    }
    proof {
        let both = a@.to_set().union(b@.to_set());
        assert forall|key: usize| both.contains(key) implies keys@.to_set().contains(key) by {
            if a@.contains(key) {
                let k = choose|k: int| 0 <= k < a@.len() && a@[k] == key;
                assert(keys@.contains(a@[k]));
            } else {
                let k = choose|k: int| 0 <= k < b@.len() && b@[k] == key;
                assert(keys@.contains(b@[k]));
            }
        }
        assert(keys@.to_set() =~= both);
    }
    keys
}

/// The keys of two maps in ascending order, a key of both once.
pub fn sorted_union<V, W>(a: &BTreeMap<usize, V>, b: &BTreeMap<usize, W>) -> (keys: Vec<usize>)
    ensures
        lists_ascending(keys@, a@.dom().union(b@.dom())),
        keys@ == in_order(a@.dom().union(b@.dom())),
{
    let keys = merged(&sorted_keys(a), &sorted_keys(b));
    proof {
        lemma_in_order(keys@, a@.dom().union(b@.dom()));
    }
    keys
}

/// Indices in order are each index once, the smaller before the larger, and values follow their
/// indices.
pub proof fn law_order_is_ascending<V>(map: Map<usize, V>, index: usize)
    ensures
        ({
            let keys = in_order(map.dom());
            &&& keys.contains(index) <==> map.contains_key(index)
            &&& forall|i: int, j: int| 0 <= i < j < keys.len() ==> keys[i] < keys[j]
            &&& values_in_order(map).len() == keys.len()
            &&& forall|i: int|
                0 <= i < keys.len() ==> #[trigger] values_in_order(map)[i] == map[keys[i]]
        }),
{
    lemma_in_order_lists(map.dom());
    let keys = in_order(map.dom());
    assert(keys.to_set().contains(index) <==> map.dom().contains(index));
}

} // verus!
