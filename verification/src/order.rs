//! Sort keys and the stable sort that lines values up with a time axis.

use vstd::prelude::*;
use crate::text::bytes_le;
use crate::text::lemma_bytes_le_total;
use crate::text::lemma_bytes_le_transitive;

verus! {

/// What a value is ordered by: a number, or a text taken as its bytes.
pub enum SortKey {
    Number(int),
    Text(Seq<u8>),
}

/// `a` sorts at or before `b`. Numbers go by size, texts by bytes, numbers before texts.
pub open spec fn key_le(a: SortKey, b: SortKey) -> bool {
    match a {
        SortKey::Number(x) => match b {
            SortKey::Number(y) => x <= y,
            SortKey::Text(_) => true,
        },
        SortKey::Text(x) => match b {
            SortKey::Number(_) => false,
            SortKey::Text(y) => bytes_le(x, y),
        },
    }
}

/// Any two keys are ordered one way or the other.
pub proof fn lemma_key_le_total(a: SortKey, b: SortKey)
    ensures
        key_le(a, b) || key_le(b, a),
{
    if let SortKey::Text(x) = a {
        if let SortKey::Text(y) = b {
            lemma_bytes_le_total(x, y);
        }
    }
}

/// The order of keys is transitive.
pub proof fn lemma_key_le_transitive(a: SortKey, b: SortKey, c: SortKey)
    requires
        key_le(a, b),
        key_le(b, c),
    ensures
        key_le(a, c),
{
    if let SortKey::Text(x) = a {
        if let SortKey::Text(y) = b {
            if let SortKey::Text(z) = c {
                lemma_bytes_le_transitive(x, y, z);
            }
        }
    }
}

/// A value with a sort key, and a test of that key's order that runs.
pub trait Keyed {
    spec fn sort_key(&self) -> SortKey;

    fn key_at_most(&self, other: &Self) -> (b: bool)
        ensures
            b == key_le(self.sort_key(), other.sort_key()),
    ;
}

/// The keys of a sequence of values, in the same order.
pub open spec fn keys_of<T: Keyed>(s: Seq<T>) -> Seq<SortKey> {
    Seq::new(s.len(), |i: int| s[i].sort_key())
}

/// Where a new key goes into `order`, a list of positions in `keys`: behind the
/// last position whose key sorts at or before the new one.
pub open spec fn insert_position(keys: Seq<SortKey>, order: Seq<int>, key: SortKey) -> int
    decreases order.len(),
{
    if order.len() == 0 || key_le(keys[order.last()], key) {
        order.len() as int
    } else {
        insert_position(keys, order.drop_last(), key)
    }
}

/// The order in which a stable sort puts the positions of `keys`: entry `k` is
/// the position in `keys` of the key that comes out `k`-th.
pub open spec fn sort_order(keys: Seq<SortKey>) -> Seq<int>
    decreases keys.len(),
{
    if keys.len() == 0 {
        Seq::empty()
    } else {
        let earlier = sort_order(keys.drop_last());
        earlier.insert(insert_position(keys, earlier, keys.last()), keys.len() - 1)
    }
}

/// `s` sorted by key, values of equal key staying in the order they had.
pub open spec fn stable_sorted<T: Keyed>(s: Seq<T>) -> Seq<T> {
    sort_order(keys_of(s)).map_values(|i: int| s[i])
}

/// `order` lists every position of `keys` exactly once.
pub open spec fn is_permutation_of_positions(order: Seq<int>, n: nat) -> bool {
    &&& order.len() == n
    &&& forall|k: int| 0 <= k < n ==> 0 <= #[trigger] order[k] < n
    &&& forall|k1: int, k2: int| 0 <= k1 < k2 < n ==> order[k1] != order[k2]
    &&& forall|i: int| 0 <= i < n ==> #[trigger] order.contains(i)
}

/// `order` walks `keys` in ascending order, and positions of equal key in
/// ascending position.
pub open spec fn is_stable_ascending(keys: Seq<SortKey>, order: Seq<int>) -> bool {
    forall|k1: int, k2: int|
        0 <= k1 < k2 < order.len() ==> {
            &&& key_le(keys[#[trigger] order[k1]], keys[#[trigger] order[k2]])
            &&& key_le(keys[order[k2]], keys[order[k1]]) ==> order[k1] < order[k2]
        }
}

/// What `insert_position` returns: every later entry sorts strictly behind the
/// new key, and the entry just before it does not.
pub proof fn lemma_insert_position(keys: Seq<SortKey>, order: Seq<int>, key: SortKey)
    ensures
        0 <= insert_position(keys, order, key) <= order.len(),
        forall|j: int|
            insert_position(keys, order, key) <= j < order.len() ==> !key_le(
                keys[#[trigger] order[j]],
                key,
            ),
        insert_position(keys, order, key) > 0 ==> key_le(
            keys[order[insert_position(keys, order, key) - 1]],
            key,
        ),
    decreases order.len(),
{
    if order.len() > 0 && !key_le(keys[order.last()], key) {
        let front = order.drop_last();
        lemma_insert_position(keys, front, key);
        let p = insert_position(keys, front, key);
        assert forall|j: int| p <= j < order.len() implies !key_le(
            keys[#[trigger] order[j]],
            key,
        ) by {
            if j < front.len() {
                assert(front[j] == order[j]);
            }
        }
    }
}

/// The position with those two properties is the one `insert_position` returns.
pub proof fn lemma_insert_position_unique(
    keys: Seq<SortKey>,
    order: Seq<int>,
    key: SortKey,
    p: int,
)
    requires
        0 <= p <= order.len(),
        forall|j: int| p <= j < order.len() ==> !key_le(keys[#[trigger] order[j]], key),
        p > 0 ==> key_le(keys[order[p - 1]], key),
    ensures
        insert_position(keys, order, key) == p,
    decreases order.len(),
{
    if order.len() > 0 && !key_le(keys[order.last()], key) {
        let front = order.drop_last();
        assert forall|j: int| p <= j < front.len() implies !key_le(
            keys[#[trigger] front[j]],
            key,
        ) by {
            assert(front[j] == order[j]);
        }
        lemma_insert_position_unique(keys, front, key, p);
    }
}

/// The sort order of `keys` lists every position once, in ascending order of
/// key, and keeps positions of equal key in their order.
pub proof fn lemma_sort_order(keys: Seq<SortKey>)
    ensures
        is_permutation_of_positions(sort_order(keys), keys.len()),
        is_stable_ascending(keys, sort_order(keys)),
    decreases keys.len(),
{
    if keys.len() > 0 {
        let n = keys.len() - 1;
        let front = keys.drop_last();
        let earlier = sort_order(front);
        let key = keys.last();
        let p = insert_position(keys, earlier, key);
        let order = sort_order(keys);
        lemma_sort_order(front);
        lemma_insert_position(keys, earlier, key);
        assert(order == earlier.insert(p, n));
        assert forall|k: int| 0 <= k < n implies keys[#[trigger] earlier[k]] == front[earlier[k]] by {}
        assert forall|i: int| 0 <= i < keys.len() implies #[trigger] order.contains(i) by {
            if i == n {
                assert(order[p] == n);
            } else {
                assert(earlier.contains(i));
                let k0 = choose|k: int| 0 <= k < n && earlier[k] == i;
                if k0 >= p {
                    assert(order[k0 + 1] == i);
                }
            }
        }
        assert forall|k1: int, k2: int| 0 <= k1 < k2 < order.len() implies {
            &&& key_le(keys[#[trigger] order[k1]], keys[#[trigger] order[k2]])
            &&& key_le(keys[order[k2]], keys[order[k1]]) ==> order[k1] < order[k2]
        } by {
            if k2 == p && k1 < p - 1 {
                // an entry before the new one sorts at or before the entry just before it
                lemma_key_le_transitive(keys[earlier[k1]], keys[earlier[p - 1]], key);
            } else if k1 == p {
                // an entry behind the new one does not sort at or before it
                lemma_key_le_total(key, keys[earlier[k2 - 1]]);
            }
        }
    }
}

/// No other order does the same: an order that lists every position once,
/// ascends by key and keeps positions of equal key in their order is the sort
/// order.
pub proof fn lemma_sort_order_unique(keys: Seq<SortKey>, order: Seq<int>)
    requires
        is_permutation_of_positions(order, keys.len()),
        is_stable_ascending(keys, order),
    ensures
        order == sort_order(keys),
    decreases keys.len(),
{
    if keys.len() > 0 {
        let n = keys.len() - 1;
        let front = keys.drop_last();
        assert(order.contains(n));
        let p = choose|p: int| 0 <= p < order.len() && order[p] == n;
        let rest = order.remove(p);
        assert forall|i: int| 0 <= i < n implies #[trigger] rest.contains(i) by {
            assert(order.contains(i));
            let k = choose|k: int| 0 <= k < order.len() && order[k] == i;
            if k < p {
                assert(rest[k] == i);
            } else {
                assert(rest[k - 1] == i);
            }
        }
        // without its last position the order is the sort order of the earlier keys
        assert forall|k: int| 0 <= k < n implies 0 <= #[trigger] rest[k] < n by {
            assert(rest[k] == order[if k < p { k } else { k + 1 }]);
        }
        assert forall|k1: int, k2: int| 0 <= k1 < k2 < rest.len() implies {
            &&& rest[k1] != rest[k2]
            &&& key_le(front[#[trigger] rest[k1]], front[#[trigger] rest[k2]])
            &&& key_le(front[rest[k2]], front[rest[k1]]) ==> rest[k1] < rest[k2]
        } by {
            assert(rest[k1] == order[if k1 < p { k1 } else { k1 + 1 }]);
            assert(rest[k2] == order[if k2 < p { k2 } else { k2 + 1 }]);
        }
        lemma_sort_order_unique(front, rest);
        // and the last position stands where the sort puts it
        assert forall|j: int| p <= j < rest.len() implies !key_le(
            keys[#[trigger] rest[j]],
            keys.last(),
        ) by {
            assert(rest[j] == order[j + 1]);
        }
        lemma_insert_position_unique(keys, rest, keys.last(), p);
    }
}

/// Sorting keeps the length.
pub proof fn lemma_stable_sorted_len<T: Keyed>(s: Seq<T>)
    ensures
        stable_sorted(s).len() == s.len(),
{
    lemma_sort_order(keys_of(s));
}

/// Sorting drops no value: each value of `s` stands somewhere in the sorted
/// sequence.
pub proof fn lemma_stable_sorted_keeps<T: Keyed>(s: Seq<T>, i: int) -> (k: int)
    requires
        0 <= i < s.len(),
    ensures
        0 <= k < s.len(),
        stable_sorted(s).len() == s.len(),
        sort_order(keys_of(s))[k] == i,
        stable_sorted(s)[k] == s[i],
{
    let order = sort_order(keys_of(s));
    lemma_sort_order(keys_of(s));
    assert(order.contains(i));
    choose|k: int| 0 <= k < order.len() && order[k] == i
}

/// Sorting adds no value: each value of the sorted sequence is one of `s`.
pub proof fn lemma_stable_sorted_from<T: Keyed>(s: Seq<T>, k: int) -> (i: int)
    requires
        0 <= k < s.len(),
    ensures
        0 <= i < s.len(),
        stable_sorted(s).len() == s.len(),
        i == sort_order(keys_of(s))[k],
        stable_sorted(s)[k] == s[i],
{
    lemma_sort_order(keys_of(s));
    sort_order(keys_of(s))[k]
}

/// Two sequences whose keys agree position by position are sorted alike: what
/// stood at one position in both stands at one position in both afterwards.
pub proof fn lemma_sorted_alike<A: Keyed, B: Keyed>(a: Seq<A>, b: Seq<B>, k: int) -> (i: int)
    requires
        a.len() == b.len(),
        forall|j: int| 0 <= j < a.len() ==> (#[trigger] a[j]).sort_key() == b[j].sort_key(),
        0 <= k < a.len(),
    ensures
        0 <= i < a.len(),
        stable_sorted(a)[k] == a[i],
        stable_sorted(b)[k] == b[i],
{
    assert(keys_of(a) =~= keys_of(b));
    lemma_sort_order(keys_of(a));
    sort_order(keys_of(a))[k]
}

/// Numbers that ascend strictly and stay below their count are the positions
/// themselves.
proof fn lemma_ascending_below_count(f: Seq<int>, k: int)
    requires
        forall|j: int| 0 <= j < f.len() ==> 0 <= #[trigger] f[j] < f.len(),
        forall|j1: int, j2: int| 0 <= j1 < j2 < f.len() ==> #[trigger] f[j1] < #[trigger] f[j2],
        0 <= k < f.len(),
    ensures
        f[k] == k,
{
    lemma_ascending_from_below(f, k);
    lemma_ascending_from_above(f, k);
}

proof fn lemma_ascending_from_below(f: Seq<int>, k: int)
    requires
        forall|j: int| 0 <= j < f.len() ==> 0 <= #[trigger] f[j] < f.len(),
        forall|j1: int, j2: int| 0 <= j1 < j2 < f.len() ==> #[trigger] f[j1] < #[trigger] f[j2],
        0 <= k < f.len(),
    ensures
        f[k] >= k,
    decreases k,
{
    if k > 0 {
        lemma_ascending_from_below(f, k - 1);
    }
}

proof fn lemma_ascending_from_above(f: Seq<int>, k: int)
    requires
        forall|j: int| 0 <= j < f.len() ==> 0 <= #[trigger] f[j] < f.len(),
        forall|j1: int, j2: int| 0 <= j1 < j2 < f.len() ==> #[trigger] f[j1] < #[trigger] f[j2],
        0 <= k < f.len(),
    ensures
        f[k] <= k,
    decreases f.len() - k,
{
    if k < f.len() - 1 {
        lemma_ascending_from_above(f, k + 1);
    }
}

/// The keys of `s` are the numbers from 0 up to its length, each once.
pub open spec fn keyed_by_position_numbers<T: Keyed>(s: Seq<T>) -> bool {
    &&& forall|j: int|
        0 <= j < s.len() ==> (#[trigger] s[j]).sort_key() is Number && 0 <= s[j].sort_key()->Number_0
            < s.len()
    &&& forall|j1: int, j2: int|
        0 <= j1 < j2 < s.len() ==> (#[trigger] s[j1]).sort_key() != (#[trigger] s[j2]).sort_key()
}

/// Where the keys are the numbers from 0 up to the length, each once, sorting
/// puts every value at the position that its key names.
pub proof fn lemma_sorted_to_own_number<T: Keyed>(s: Seq<T>, i: int)
    requires
        keyed_by_position_numbers(s),
        0 <= i < s.len(),
    ensures
        stable_sorted(s).len() == s.len(),
        stable_sorted(s)[s[i].sort_key()->Number_0] == s[i],
{
    let keys = keys_of(s);
    let order = sort_order(keys);
    lemma_sort_order(keys);
    let f = Seq::new(s.len(), |k: int| keys[order[k]]->Number_0);
    // the keys come out in strictly ascending order: no two are equal
    assert forall|k1: int, k2: int| 0 <= k1 < k2 < f.len() implies #[trigger] f[k1] < #[trigger] f[k2] by {
        assert(order[k1] != order[k2]);
        assert(s[order[k1]].sort_key() != s[order[k2]].sort_key());
    }
    assert forall|k: int| 0 <= k < f.len() implies 0 <= #[trigger] f[k] < f.len() by {
        assert(s[order[k]].sort_key() is Number);
    }
    let k = lemma_stable_sorted_keeps(s, i);
    lemma_ascending_below_count(f, k);
}

/// Sorting one more value: the new value goes in at `p`, behind every value
/// that sorts at or before it.
proof fn lemma_stable_sorted_push<T: Keyed>(s: Seq<T>, x: T, p: int)
    requires
        0 <= p <= s.len(),
        forall|j: int|
            p <= j < s.len() ==> !key_le(
                (#[trigger] stable_sorted(s)[j]).sort_key(),
                x.sort_key(),
            ),
        p > 0 ==> key_le(stable_sorted(s)[p - 1].sort_key(), x.sort_key()),
    ensures
        stable_sorted(s.push(x)) == stable_sorted(s).insert(p, x),
{
    let keys = keys_of(s.push(x));
    let earlier = sort_order(keys_of(s));
    assert(keys.drop_last() =~= keys_of(s));
    lemma_sort_order(keys_of(s));
    assert forall|j: int| 0 <= j < s.len() implies keys[#[trigger] earlier[j]] == stable_sorted(
        s,
    )[j].sort_key() by {}
    lemma_insert_position_unique(keys, earlier, x.sort_key(), p);
}

/// Sorts `v` by key. The sort is stable: values of equal key keep their order.
pub fn sort_by_key<T: Keyed>(v: Vec<T>) -> (r: Vec<T>)
    ensures
        r@ == stable_sorted(v@),
{
    let mut out: Vec<T> = Vec::new();
    for x in it: v
        invariant
            it.seq() == v@,
            out@ == stable_sorted(v@.take(it.index() as int)),
    {
        let ghost done = v@.take(it.index() as int);
        proof {
            lemma_stable_sorted_len(done);
        }
        let mut p: usize = out.len();
        while p > 0 && !out[p - 1].key_at_most(&x)
            invariant
                p <= out.len(),
                forall|j: int|
                    p <= j < out.len() ==> !key_le((#[trigger] out@[j]).sort_key(), x.sort_key()),
            decreases p,
        {
            p -= 1;
        }
        proof {
            lemma_stable_sorted_push(done, x, p as int);
            assert(v@.take(it.index() + 1) =~= done.push(x));
        }
        out.insert(p, x);
    }
    assert(v@.take(v@.len() as int) =~= v@);
    out
}

} // verus!
