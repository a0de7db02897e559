//! The order of the store's keys, and why a list in that order is the
//! only one of its kind.

use crate::store::{bytes_lt, wallets_listed, StoreState};
use vstd::prelude::*;
use vstd::utf8::{encode_utf8, encode_utf8_decode_utf8};

verus! {

/// No key comes before itself.
pub proof fn key_order_is_irreflexive(a: Seq<u8>)
    ensures
        !bytes_lt(a, a),
{
}

/// What comes before a key comes before all that the key comes before.
pub proof fn key_order_is_transitive(a: Seq<u8>, b: Seq<u8>, c: Seq<u8>)
    requires
        bytes_lt(a, b),
        bytes_lt(b, c),
    ensures
        bytes_lt(a, c),
{
    let k1 = choose|k: int|
        0 <= k <= a.len() && k < b.len() && #[trigger] a.subrange(0, k) == b.subrange(0, k) && (k
            == a.len() || a[k] < b[k]);
    let k2 = choose|k: int|
        0 <= k <= b.len() && k < c.len() && #[trigger] b.subrange(0, k) == c.subrange(0, k) && (k
            == b.len() || b[k] < c[k]);
    let k = if k1 <= k2 {
        k1
    } else {
        k2
    };
    assert forall|i: int| 0 <= i < k implies a[i] == c[i] by {
        assert(a.subrange(0, k1)[i] == b.subrange(0, k1)[i]);
        assert(b.subrange(0, k2)[i] == c.subrange(0, k2)[i]);
    }
    assert(a.subrange(0, k) =~= c.subrange(0, k));
    if k1 < k2 {
        assert(b.subrange(0, k2)[k1] == c.subrange(0, k2)[k1]);
    } else if k2 < k1 {
        assert(a.subrange(0, k1)[k2] == b.subrange(0, k1)[k2]);
    }
    assert(k == a.len() || a[k] < c[k]);
}

/// Of two keys that differ one comes before the other.
pub proof fn key_order_is_total(a: Seq<u8>, b: Seq<u8>)
    requires
        a != b,
    ensures
        bytes_lt(a, b) || bytes_lt(b, a),
{
    assert(a.subrange(0, 0) =~= b.subrange(0, 0));
    keys_differ_somewhere(a, b, 0);
}

proof fn keys_differ_somewhere(a: Seq<u8>, b: Seq<u8>, k: int)
    requires
        a != b,
        0 <= k <= a.len(),
        k <= b.len(),
        a.subrange(0, k) == b.subrange(0, k),
    ensures
        bytes_lt(a, b) || bytes_lt(b, a),
    decreases a.len() - k,
{
    if k == a.len() {
        if k == b.len() {
            assert(a.subrange(0, k) =~= a);
            assert(b.subrange(0, k) =~= b);
        }
    } else if k == b.len() {
        assert(b.subrange(0, k) == a.subrange(0, k));
    } else if a[k] < b[k] {
    } else if b[k] < a[k] {
        assert(b.subrange(0, k) == a.subrange(0, k));
    } else {
        assert(a.subrange(0, k + 1) =~= a.subrange(0, k).push(a[k]));
        assert(b.subrange(0, k + 1) =~= b.subrange(0, k).push(b[k]));
        keys_differ_somewhere(a, b, k + 1);
    }
}

/// Whether each key of a list comes before all that follow it.
pub open spec fn ascending(keys: Seq<Seq<u8>>) -> bool {
    forall|i: int, j: int|
        0 <= i < j < keys.len() ==> bytes_lt(#[trigger] keys[i], #[trigger] keys[j])
}

/// Two ascending lists of the same keys are the same list.
pub proof fn ascending_lists_agree(v: Seq<Seq<u8>>, w: Seq<Seq<u8>>)
    requires
        ascending(v),
        ascending(w),
        forall|i: int| 0 <= i < v.len() ==> w.contains(#[trigger] v[i]),
        forall|j: int| 0 <= j < w.len() ==> v.contains(#[trigger] w[j]),
    ensures
        v == w,
    decreases v.len(),
{
    if v.len() == 0 {
        if w.len() > 0 {
            assert(v.contains(w[0]));
        }
        assert(v =~= w);
    } else if w.len() == 0 {
        assert(w.contains(v[0]));
    } else {
        assert(w.contains(v[0]));
        assert(v.contains(w[0]));
        let j = choose|j: int| 0 <= j < w.len() && w[j] == v[0];
        let i = choose|i: int| 0 <= i < v.len() && v[i] == w[0];
        if j > 0 && i > 0 {
            key_order_is_transitive(v[0], v[i], w[j]);
            key_order_is_irreflexive(v[0]);
        }
        assert(v[0] == w[0]);
        let vt = v.subrange(1, v.len() as int);
        let wt = w.subrange(1, w.len() as int);
        assert forall|a: int| 0 <= a < vt.len() implies wt.contains(#[trigger] vt[a]) by {
            assert(w.contains(v[a + 1]));
            let b = choose|b: int| 0 <= b < w.len() && w[b] == v[a + 1];
            if b == 0 {
                key_order_is_irreflexive(v[0]);
            }
            assert(wt[b - 1] == vt[a]);
        }
        assert forall|b: int| 0 <= b < wt.len() implies vt.contains(#[trigger] wt[b]) by {
            assert(v.contains(w[b + 1]));
            let a = choose|a: int| 0 <= a < v.len() && v[a] == w[b + 1];
            if a == 0 {
                key_order_is_irreflexive(w[0]);
            }
            assert(vt[a - 1] == wt[b]);
        }
        assert(ascending(vt)) by {
            assert forall|a: int, b: int| 0 <= a < b < vt.len() implies bytes_lt(
                #[trigger] vt[a],
                #[trigger] vt[b],
            ) by {
                assert(bytes_lt(v[a + 1], v[b + 1]));
            }
        }
        assert(ascending(wt)) by {
            assert forall|a: int, b: int| 0 <= a < b < wt.len() implies bytes_lt(
                #[trigger] wt[a],
                #[trigger] wt[b],
            ) by {
                assert(bytes_lt(w[a + 1], w[b + 1]));
            }
        }
        ascending_lists_agree(vt, wt);
        assert(v =~= seq![v[0]] + vt);
        assert(w =~= seq![w[0]] + wt);
    }
}

/// The wallets of an id are one list and no other: two lists that both
/// name each address of the wallet index once, in the order of the
/// store's keys, are the same.
pub proof fn wallet_list_is_unique(
    s: StoreState,
    id: u64,
    first: Seq<Seq<char>>,
    second: Seq<Seq<char>>,
)
    requires
        wallets_listed(s, id, first),
        wallets_listed(s, id, second),
    ensures
        first == second,
{
    let v = first.map_values(|a: Seq<char>| encode_utf8(a));
    let w = second.map_values(|a: Seq<char>| encode_utf8(a));
    assert forall|i: int| 0 <= i < v.len() implies w.contains(#[trigger] v[i]) by {
        assert(s.id_to_address.contains_key((id, encode_utf8(first[i]))));
        let j = choose|j: int|
            0 <= j < second.len() && encode_utf8(#[trigger] second[j]) == encode_utf8(first[i]);
        assert(w[j] == v[i]);
    }
    assert forall|j: int| 0 <= j < w.len() implies v.contains(#[trigger] w[j]) by {
        assert(s.id_to_address.contains_key((id, encode_utf8(second[j]))));
        let i = choose|i: int|
            0 <= i < first.len() && encode_utf8(#[trigger] first[i]) == encode_utf8(second[j]);
        assert(v[i] == w[j]);
    }
    assert(ascending(v)) by {
        assert forall|i: int, j: int| 0 <= i < j < v.len() implies bytes_lt(
            #[trigger] v[i],
            #[trigger] v[j],
        ) by {
            assert(bytes_lt(encode_utf8(first[i]), encode_utf8(first[j])));
        }
    }
    assert(ascending(w)) by {
        assert forall|i: int, j: int| 0 <= i < j < w.len() implies bytes_lt(
            #[trigger] w[i],
            #[trigger] w[j],
        ) by {
            assert(bytes_lt(encode_utf8(second[i]), encode_utf8(second[j])));
        }
    }
    ascending_lists_agree(v, w);
    assert(first.len() == second.len());
    assert forall|i: int| 0 <= i < first.len() implies first[i] == second[i] by {
        assert(v[i] == w[i]);
        encode_utf8_decode_utf8(first[i]);
        encode_utf8_decode_utf8(second[i]);
    }
    assert(first =~= second);
}

} // verus!
