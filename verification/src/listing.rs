//! Lists of what the state holds, oldest first.

use std::collections::HashMap;

use vstd::prelude::*;
use vstd::std_specs::iter::IteratorSpec;

use crate::state::AppState;
use crate::types::{Campaign, Timestamp, UserProfile};

verus! {

broadcast use vstd::std_specs::hash::group_hash_axioms;

/// What lists can be put in order by.
pub trait Ordered: Sized {
    /// Whether this value may stand before the other.
    spec fn may_precede(self, other: Self) -> bool;

    /// Of two values at least one may stand before the other.
    proof fn lemma_total(a: Self, b: Self)
        ensures
            a.may_precede(b) || b.may_precede(a),
    ;

    /// What may stand before a value may stand before all that the value may stand before.
    proof fn lemma_transitive(a: Self, b: Self, c: Self)
        requires
            a.may_precede(b),
            b.may_precede(c),
        ensures
            a.may_precede(c),
    ;

    /// Whether this value may stand before the other.
    fn precedes(&self, other: &Self) -> (r: bool)
        ensures
            r == self.may_precede(*other),
    ;
}

impl Ordered for Timestamp {
    open spec fn may_precede(self, other: Self) -> bool {
        self.at_most(other)
    }

    proof fn lemma_total(a: Self, b: Self) {
    }

    proof fn lemma_transitive(a: Self, b: Self, c: Self) {
    }

    fn precedes(&self, other: &Self) -> (r: bool) {
        self.is_at_most(other)
    }
}

/// Whether `keys` holds each key of a map once, and nothing else.
pub open spec fn lists_keys<V>(keys: Seq<u128>, map: Map<u128, V>) -> bool {
    &&& keys.no_duplicates()
    &&& keys.to_set() == map.dom()
}

/// Whether each value of a list may stand before those after it.
pub open spec fn in_order<T: Ordered>(list: Seq<T>) -> bool {
    forall|i: int, j: int|
        0 <= i < j < list.len() ==> (#[trigger] list[i]).may_precede(#[trigger] list[j])
}

/// The keys of a map, in the order in which the map hands them out.
pub fn keys_of<V>(map: &HashMap<u128, V>) -> (r: Vec<u128>)
    ensures
        lists_keys(r@, map@),
{
    let mut r: Vec<u128> = Vec::new();
    let keys = map.keys();
    let ghost all = keys.remaining().unref();
    assert(all.no_duplicates()) by {
        let refs = keys.remaining();
        assert forall|i: int, j: int|
            0 <= i < all.len() && 0 <= j < all.len() && i != j implies all[i] != all[j] by {
            assert(refs[i] != refs[j]);
        }
    }
    for key in it: keys
        invariant
            r@ == all.take(it.index()),
            it.seq().unref() == all,
    {
        assert(*key == all[it.index()]);
        r.push(*key);
        assert(all.take(it.index() + 1) =~= all.take(it.index()).push(all[it.index()]));
    }
    assert(all.take(all.len() as int) =~= all);
    r
}

/// Whether `order` is an order of the numbers below `n`: each of them once.
pub open spec fn orders_indices(order: Seq<usize>, n: nat) -> bool {
    &&& order.len() == n
    &&& order.no_duplicates()
    &&& forall|i: int| 0 <= i < order.len() ==> #[trigger] order[i] < n
}

/// The values of a list in an order of their indices.
pub open spec fn arranged<T>(order: Seq<usize>, list: Seq<T>) -> Seq<T> {
    order.map_values(|k: usize| list[k as int])
}

/// Puts an index into an order of the indices below it, behind those whose values may stand before
/// its own.
fn insert_in_order<T: Ordered>(order: &mut Vec<usize>, list: &Vec<T>, k: usize)
    requires
        k < list@.len(),
        orders_indices(old(order)@, k as nat),
        in_order(arranged(old(order)@, list@)),
    ensures
        orders_indices(final(order)@, (k + 1) as nat),
        in_order(arranged(final(order)@, list@)),
{
    let ghost before = order@;
    let mut pos: usize = 0;
    while pos < order.len() && list[order[pos]].precedes(&list[k])
        invariant
            pos <= order.len(),
            order@ == before,
            k < list@.len(),
            orders_indices(before, k as nat),
            forall|i: int| 0 <= i < pos ==> list@[#[trigger] before[i] as int].may_precede(
                list@[k as int],
            ),
        decreases order.len() - pos,
    {
        pos = pos + 1;
    }
    order.insert(pos, k);
    proof {
        let after = order@;
        let old_list = arranged(before, list@);
        let new_list = arranged(after, list@);
        let source = |n: int|
            if n < pos {
                n
            } else {
                n - 1
            };
        assert forall|i: int, j: int| 0 <= i < j < new_list.len() implies (
        #[trigger] new_list[i]).may_precede(#[trigger] new_list[j]) by {
            if i != pos && j != pos {
                assert(new_list[i] == old_list[source(i)]);
                assert(new_list[j] == old_list[source(j)]);
            } else if j == pos {
                assert(new_list[i] == list@[before[i] as int]);
            } else {
                assert(new_list[j] == old_list[j - 1]);
                let next = old_list[pos as int];
                assert(next == list@[before[pos as int] as int]);
                T::lemma_total(list@[k as int], next);
                if j - 1 > pos {
                    T::lemma_transitive(list@[k as int], next, old_list[j - 1]);
                }
            }
        }
        assert forall|i: int, j: int|
            0 <= i < after.len() && 0 <= j < after.len() && i != j implies after[i] != after[j] by {
            if i != pos && j != pos {
                assert(after[i] == before[source(i)]);
                assert(after[j] == before[source(j)]);
            }
        }
    }
}

/// The indices of a list, in the order of its values.
pub fn order_of<T: Ordered>(list: &Vec<T>) -> (r: Vec<usize>)
    ensures
        orders_indices(r@, list@.len()),
        in_order(arranged(r@, list@)),
{
    let mut order: Vec<usize> = Vec::new();
    let mut k: usize = 0;
    while k < list.len()
        invariant
            k <= list.len(),
            orders_indices(order@, k as nat),
            in_order(arranged(order@, list@)),
        decreases list.len() - k,
    {
        insert_in_order(&mut order, list, k);
        k = k + 1;
    }
    order
}

/// Every index is somewhere in an order of the indices.
pub(crate) proof fn lemma_order_covers(order: Seq<usize>, n: nat, k: int)
    requires
        orders_indices(order, n),
        0 <= k < n,
        n <= usize::MAX,
    ensures
        order.contains(k as usize),
{
    let all = Set::new(|x: usize| x < n);
    order.unique_seq_to_set();
    assert(order.to_set().subset_of(all));
    lemma_indices_below(n);
    vstd::set_lib::lemma_subset_equality(order.to_set(), all);
    assert(all.contains(k as usize));
}

/// There are `n` indices below `n`.
proof fn lemma_indices_below(n: nat)
    requires
        n <= usize::MAX,
    ensures
        Set::new(|x: usize| x < n).finite(),
        Set::new(|x: usize| x < n).len() == n,
    decreases n,
{
    let all = Set::new(|x: usize| x < n);
    if n == 0 {
        assert(all =~= Set::empty());
    } else {
        let fewer = Set::new(|x: usize| x < n - 1);
        lemma_indices_below((n - 1) as nat);
        assert(fewer =~= Set::new(|x: usize| x < (n - 1) as nat));
        assert(all =~= fewer.insert((n - 1) as usize));
    }
}

/// A list of keys stays one when it is put into another order.
proof fn lemma_reordered_keys<V>(keys: Seq<u128>, order: Seq<usize>, map: Map<u128, V>)
    requires
        lists_keys(keys, map),
        orders_indices(order, keys.len()),
        keys.len() <= usize::MAX,
    ensures
        lists_keys(arranged(order, keys), map),
{
    let reordered = arranged(order, keys);
    assert forall|i: int, j: int|
        0 <= i < reordered.len() && 0 <= j < reordered.len() && i != j implies reordered[i]
        != reordered[j] by {
        assert(order[i] != order[j]);
    }
    assert(reordered.to_set() =~= map.dom()) by {
        assert forall|key: u128| reordered.to_set().contains(key) <==> map.dom().contains(key) by {
            if reordered.to_set().contains(key) {
                let i = choose|i: int| 0 <= i < reordered.len() && reordered[i] == key;
                assert(keys[order[i] as int] == key);
                assert(keys.to_set().contains(key));
            }
            if map.dom().contains(key) {
                assert(keys.to_set().contains(key));
                let k = choose|k: int| 0 <= k < keys.len() && keys[k] == key;
                lemma_order_covers(order, keys.len(), k);
                let i = choose|i: int| 0 <= i < order.len() && order[i] == k as usize;
                assert(reordered[i] == key);
            }
        }
    }
}

/// What is kept under an identifier of its own, since a point in time.
pub trait Kept: Sized {
    spec fn key(self) -> u128;

    spec fn since(self) -> Timestamp;

    fn kept_since(&self) -> (r: Timestamp)
        ensures
            r == self.since(),
    ;
}

impl Kept for UserProfile {
    open spec fn key(self) -> u128 {
        self.id
    }

    open spec fn since(self) -> Timestamp {
        self.created_at
    }

    fn kept_since(&self) -> (r: Timestamp) {
        self.created_at
    }
}

impl Kept for Campaign {
    open spec fn key(self) -> u128 {
        self.id
    }

    open spec fn since(self) -> Timestamp {
        self.created_at
    }

    fn kept_since(&self) -> (r: Timestamp) {
        self.created_at
    }
}

/// The identifiers of what a list holds.
pub open spec fn list_keys<T: Kept>(list: Seq<&T>) -> Seq<u128> {
    list.map_values(|item: &T| item.key())
}

/// Since when is kept what a list holds.
pub open spec fn list_times<T: Kept>(list: Seq<&T>) -> Seq<Timestamp> {
    list.map_values(|item: &T| item.since())
}

/// All that a map holds, the earliest first.
fn oldest_first<T: Kept>(map: &HashMap<u128, T>) -> (r: Vec<&T>)
    requires
        forall|key: u128| #[trigger] map@.contains_key(key) ==> map@[key].key() == key,
    ensures
        lists_keys(list_keys(r@), map@),
        forall|i: int| 0 <= i < r@.len() ==> *(#[trigger] r@[i]) == map@[r@[i].key()],
        in_order(list_times(r@)),
{
    let keys: Vec<u128> = keys_of(map);
    assert forall|i: int| 0 <= i < keys@.len() implies map@.contains_key(#[trigger] keys@[i]) by {
        assert(keys@.to_set().contains(keys@[i]));
    }
    let mut times: Vec<Timestamp> = Vec::new();
    let mut k: usize = 0;
    while k < keys.len()
        invariant
            k <= keys.len(),
            forall|i: int| 0 <= i < keys@.len() ==> map@.contains_key(#[trigger] keys@[i]),
            times@.len() == k,
            forall|i: int| 0 <= i < k ==> #[trigger] times@[i] == map@[keys@[i]].since(),
        decreases keys.len() - k,
    {
        assert(map@.contains_key(keys@[k as int]));
        match map.get(&keys[k]) {
            Some(item) => times.push(item.kept_since()),
            None => vstd::pervasive::unreached(),
        }
        k = k + 1;
    }
    let order: Vec<usize> = order_of(&times);
    let mut r: Vec<&T> = Vec::new();
    let mut n: usize = 0;
    while n < order.len()
        invariant
            n <= order.len(),
            forall|i: int| 0 <= i < keys@.len() ==> map@.contains_key(#[trigger] keys@[i]),
            orders_indices(order@, keys@.len()),
            r@.len() == n,
            forall|i: int| 0 <= i < n ==> *(#[trigger] r@[i]) == map@[keys@[order@[i] as int]],
        decreases order.len() - n,
    {
        assert(order@[n as int] < keys@.len());
        assert(map@.contains_key(keys@[order@[n as int] as int]));
        match map.get(&keys[order[n]]) {
            Some(item) => r.push(item),
            None => vstd::pervasive::unreached(),
        }
        n = n + 1;
    }
    proof {
        lemma_reordered_keys(keys@, order@, map@);
        assert forall|i: int| 0 <= i < r@.len() implies (#[trigger] r@[i]).key()
            == keys@[order@[i] as int] && r@[i].since() == times@[order@[i] as int] by {
            assert(map@.contains_key(keys@[order@[i] as int]));
        }
        assert(list_keys(r@) =~= arranged(order@, keys@));
        assert(list_times(r@) =~= arranged(order@, times@));
    }
    r
}

impl AppState {
    /// All users, the earliest created first.
    pub fn list_profiles(&self) -> (r: Vec<&UserProfile>)
        requires
            self.well_formed(),
        ensures
            lists_keys(list_keys(r@), self@.users),
            forall|i: int| 0 <= i < r@.len() ==> (#[trigger] r@[i])@ == self@.users[r@[i].id],
            in_order(list_times(r@)),
    {
        assert(self@.users.dom() =~= self.users@.dom());
        assert forall|id: u128| #[trigger]
            self.users@.contains_key(id) implies self.users@[id].key() == id by {
            assert(self@.users.contains_key(id));
        }
        let r: Vec<&UserProfile> = oldest_first(&self.users);
        proof {
            assert forall|i: int| 0 <= i < r@.len() implies (#[trigger] r@[i])@
                == self@.users[r@[i].id] by {
                assert(list_keys(r@)[i] == r@[i].id);
                assert(list_keys(r@).to_set().contains(r@[i].id));
            }
        }
        r
    }

    /// All campaigns, the earliest created first.
    pub fn list_campaigns(&self) -> (r: Vec<&Campaign>)
        requires
            self.well_formed(),
        ensures
            lists_keys(list_keys(r@), self@.campaigns),
            forall|i: int| 0 <= i < r@.len() ==> (#[trigger] r@[i])@ == self@.campaigns[r@[i].id],
            in_order(list_times(r@)),
    {
        assert(self@.campaigns.dom() =~= self.campaigns@.dom());
        assert forall|id: u128| #[trigger]
            self.campaigns@.contains_key(id) implies self.campaigns@[id].key() == id by {
            assert(self@.campaigns.contains_key(id));
        }
        let r: Vec<&Campaign> = oldest_first(&self.campaigns);
        proof {
            assert forall|i: int| 0 <= i < r@.len() implies (#[trigger] r@[i])@
                == self@.campaigns[r@[i].id] by {
                assert(list_keys(r@)[i] == r@[i].id);
                assert(list_keys(r@).to_set().contains(r@[i].id));
            }
        }
        r
    }
}

} // verus!
