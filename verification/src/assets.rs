use vstd::prelude::*;

use crate::text::{
    lemma_lex_less_irreflexive, lemma_lex_less_total, lemma_lex_less_transitive, lex_less,
    str_less,
};

verus! {

/// An asset in the launcher (a mod, soundpack or tileset).
///
/// Implementations answer both queries as pure functions of the asset: the
/// results are `third_party` and `asset_id` of the asset, whenever asked.
/// Implementations are verified against these contracts.
pub trait Asset {
    /// Whether the asset is third-party.
    spec fn third_party(&self) -> bool;

    /// The asset's ID.
    spec fn asset_id(&self) -> Seq<char>;

    /// Returns `true` if the asset is third-party.
    fn is_third_party(&self) -> (b: bool)
        ensures
            b == self.third_party(),
    ;

    /// Returns the ID of the asset.
    fn id(&self) -> (s: &str)
        ensures
            s@ == self.asset_id(),
    ;
}

/// A listed asset: its ID, its display name, and whether it is third-party.
#[derive(Debug)]
pub struct AssetListing {
    pub id: String,
    pub name: String,
    pub third_party: bool,
}

impl Asset for AssetListing {
    open spec fn third_party(&self) -> bool {
        self.third_party
    }

    open spec fn asset_id(&self) -> Seq<char> {
        self.id@
    }

    fn is_third_party(&self) -> (b: bool) {
        self.third_party
    }

    fn id(&self) -> (s: &str) {
        self.id.as_str()
    }
}

/// `a` sorts strictly before `b`: third-party assets first, then by ID.
pub open spec fn asset_before<T: Asset>(a: T, b: T) -> bool {
    (a.third_party() && !b.third_party()) || (a.third_party() == b.third_party() && lex_less(
        a.asset_id(),
        b.asset_id(),
    ))
}

/// `a` and `b` have the same sort key.
pub open spec fn same_key<T: Asset>(a: T, b: T) -> bool {
    a.third_party() == b.third_party() && a.asset_id() == b.asset_id()
}

/// `perm` lists each index below `n` exactly once.
pub open spec fn is_permutation(perm: Seq<int>, n: nat) -> bool {
    &&& perm.len() == n
    &&& forall|k: int| 0 <= k < n ==> 0 <= #[trigger] perm[k] < n
    &&& forall|a: int, b: int| 0 <= a < b < n ==> perm[a] != perm[b]
}

/// `s` is `orig` reordered by `perm`, sorted by the asset order, and keeps
/// assets with equal keys in their original order.
pub open spec fn stable_sort_of<T: Asset>(s: Seq<T>, orig: Seq<T>, perm: Seq<int>) -> bool {
    &&& s.len() == orig.len()
    &&& is_permutation(perm, orig.len())
    &&& forall|k: int| 0 <= k < s.len() ==> #[trigger] s[k] == orig[perm[k]]
    &&& forall|a: int, b: int| 0 <= a < b < s.len() ==> !asset_before(s[b], s[a])
    &&& forall|a: int, b: int|
        0 <= a < b < s.len() && #[trigger] same_key(s[a], s[b]) ==> perm[a] < perm[b]
}

proof fn lemma_key_order<T: Asset>(a: T, b: T, c: T)
    ensures
        !asset_before(a, a),
        asset_before(a, b) ==> !asset_before(b, a),
        !asset_before(a, b) && !asset_before(b, a) ==> same_key(a, b),
        !asset_before(b, a) && !asset_before(c, b) ==> !asset_before(c, a),
        asset_before(a, b) && !asset_before(c, b) ==> asset_before(a, c),
        !asset_before(b, a) && asset_before(b, c) ==> asset_before(a, c),
{
    lex_facts(a.asset_id(), b.asset_id(), c.asset_id());
    lex_facts(a.asset_id(), c.asset_id(), b.asset_id());
    lex_facts(b.asset_id(), a.asset_id(), c.asset_id());
    lex_facts(b.asset_id(), c.asset_id(), a.asset_id());
    lex_facts(c.asset_id(), a.asset_id(), b.asset_id());
    lex_facts(c.asset_id(), b.asset_id(), a.asset_id());
    lex_facts(a.asset_id(), b.asset_id(), a.asset_id());
    lex_facts(b.asset_id(), a.asset_id(), b.asset_id());
}

proof fn lex_facts(x: Seq<char>, y: Seq<char>, z: Seq<char>)
    ensures
        !lex_less(x, x),
        lex_less(x, y) || lex_less(y, x) || x == y,
        lex_less(x, y) && lex_less(y, z) ==> lex_less(x, z),
{
    lemma_lex_less_irreflexive(x);
    lemma_lex_less_total(x, y);
    if lex_less(x, y) && lex_less(y, z) {
        lemma_lex_less_transitive(x, y, z);
    }
}

fn before<T: Asset>(a: &T, b: &T) -> (res: bool)
    ensures
        res == asset_before(*a, *b),
{
    let ta = a.is_third_party();
    let tb = b.is_third_party();
    if ta && !tb {
        true
    } else if ta == tb {
        str_less(a.id(), b.id())
    } else {
        false
    }
}

/// Sorts assets in place: third-party assets first, then by ID in ascending
/// order; assets with equal keys keep their relative order.
pub fn sort_assets<T: Asset>(items: &mut [T])
    ensures
        exists|perm: Seq<int>| stable_sort_of(final(items)@, old(items)@, perm),
{
    let ghost orig = items@;
    let n = items.len();
    let ghost mut perm: Seq<int> = Seq::new(n as nat, |k: int| k);
    if n == 0 {
        assert(stable_sort_of(items@, orig, perm));
        return;
    }
    let mut i: usize = 1;
    while i < n
        invariant
            n == items@.len(),
            n == orig.len(),
            1 <= i <= n,
            is_permutation(perm, n as nat),
            forall|k: int| 0 <= k < n ==> #[trigger] items@[k] == orig[perm[k]],
            forall|k: int| i <= k < n ==> #[trigger] perm[k] == k,
            forall|k: int| 0 <= k < i ==> #[trigger] perm[k] < i,
            forall|a: int, b: int| 0 <= a < b < i ==> !asset_before(items@[b], items@[a]),
            forall|a: int, b: int|
                0 <= a < b < i && #[trigger] same_key(items@[a], items@[b]) ==> perm[a] < perm[b],
        decreases n - i,
    {
        let mut j: usize = i;
        while j > 0 && before(&items[j], &items[j - 1])
            invariant
                n == items@.len(),
                n == orig.len(),
                1 <= i < n,
                j <= i,
                is_permutation(perm, n as nat),
                forall|k: int| 0 <= k < n ==> #[trigger] items@[k] == orig[perm[k]],
                forall|k: int| i < k < n ==> #[trigger] perm[k] == k,
                perm[j as int] == i,
                forall|k: int| 0 <= k <= i && k != j ==> #[trigger] perm[k] < i,
                forall|a: int, b: int|
                    0 <= a < b <= i && a != j && b != j ==> !asset_before(items@[b], items@[a]),
                forall|b: int| j < b <= i ==> asset_before(items@[j as int], #[trigger] items@[b]),
                forall|a: int, b: int|
                    0 <= a < b <= i && a != j && b != j && #[trigger] same_key(items@[a], items@[b])
                        ==> perm[a] < perm[b],
            decreases j,
        {
            let ghost before_swap = items@;
            items.swap(j - 1, j);
            proof {
                let pj = perm[j as int];
                let pj1 = perm[j - 1];
                perm = perm.update(j - 1, pj).update(j as int, pj1);
                assert forall|b: int| j - 1 < b <= i implies asset_before(
                    items@[j - 1],
                    #[trigger] items@[b],
                ) by {
                    if b == j {
                        assert(items@[b] == before_swap[j - 1]);
                    } else {
                        lemma_key_order(before_swap[j as int], before_swap[j - 1], before_swap[b]);
                    }
                }
                assert forall|a: int, b: int|
                    0 <= a < b <= i && a != j - 1 && b != j - 1 implies !asset_before(
                    items@[b],
                    items@[a],
                ) by {
                    if a == j {
                        lemma_key_order(before_swap[j - 1], before_swap[b], before_swap[j as int]);
                    } else if b == j {
                        assert(items@[b] == before_swap[j - 1]);
                    }
                }
                assert forall|a: int, b: int|
                    0 <= a < b <= i && a != j - 1 && b != j - 1 && #[trigger] same_key(
                        items@[a],
                        items@[b],
                    ) implies perm[a] < perm[b] by {
                    if a == j {
                        lemma_key_order(items@[a], items@[b], items@[b]);
                    }
                }
            }
            j = j - 1;
        }
        proof {
            assert forall|a: int, b: int|
                0 <= a < b < i + 1 implies !asset_before(items@[b], items@[a]) by {
                if a == j {
                    lemma_key_order(items@[a], items@[b], items@[b]);
                } else if b == j {
                    if a < j - 1 {
                        lemma_key_order(items@[a], items@[j - 1], items@[b]);
                    }
                }
            }
            assert forall|a: int, b: int|
                0 <= a < b < i + 1 && #[trigger] same_key(items@[a], items@[b]) implies perm[a]
                < perm[b] by {
                if a == j {
                    lemma_key_order(items@[a], items@[b], items@[b]);
                }
            }
        }
        i = i + 1;
    }
    assert(stable_sort_of(items@, orig, perm));
}

} // verus!
