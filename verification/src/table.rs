use vstd::prelude::*;
use crate::address::{Address, address_eq};

verus! {

/// The value stored under the first entry whose address matches `key`.
pub open spec fn pairs_lookup<T>(s: Seq<(Address, T)>, key: Seq<u8>) -> Option<T>
    decreases s.len(),
{
    if s.len() == 0 {
        None
    } else if s[0].0@ == key {
        Some(s[0].1)
    } else {
        pairs_lookup(s.drop_first(), key)
    }
}

/// The table with the value under `key` replaced by `v`; unchanged when no
/// entry has that key.
pub open spec fn pairs_set<T>(s: Seq<(Address, T)>, key: Seq<u8>, v: T) -> Seq<(Address, T)>
    decreases s.len(),
{
    if s.len() == 0 {
        s
    } else if s[0].0@ == key {
        seq![(s[0].0, v)] + s.drop_first()
    } else {
        seq![s[0]] + pairs_set(s.drop_first(), key, v)
    }
}

/// No two entries share an address.
pub open spec fn distinct_keys<T>(s: Seq<(Address, T)>) -> bool {
    forall|i: int, j: int| 0 <= i < j < s.len() ==> s[i].0@ != s[j].0@
}

/// A lookup misses exactly when no entry carries the key.
pub proof fn lemma_lookup_none_iff<T>(s: Seq<(Address, T)>, key: Seq<u8>)
    ensures
        pairs_lookup(s, key) is None <==> (forall|i: int| 0 <= i < s.len() ==> s[i].0@ != key),
    decreases s.len(),
{
    if s.len() == 0 {
    } else {
        lemma_lookup_none_iff(s.drop_first(), key);
        assert forall|i: int| 0 <= i < s.drop_first().len() implies s.drop_first()[i] == s[i + 1] by {}
        if s[0].0@ != key && pairs_lookup(s.drop_first(), key) is None {
            assert forall|i: int| 0 <= i < s.len() implies s[i].0@ != key by {
                if i > 0 {
                    assert(s.drop_first()[i - 1].0@ != key);
                }
            }
        }
        if forall|i: int| 0 <= i < s.len() ==> s[i].0@ != key {
            assert forall|i: int| 0 <= i < s.drop_first().len() implies s.drop_first()[i].0@ != key by {
                assert(s[i + 1].0@ != key);
            }
        }
    }
}

/// A lookup returns the value at the first index whose key matches.
pub proof fn lemma_lookup_first<T>(s: Seq<(Address, T)>, key: Seq<u8>, i: int)
    requires
        0 <= i < s.len(),
        s[i].0@ == key,
        forall|j: int| 0 <= j < i ==> s[j].0@ != key,
    ensures
        pairs_lookup(s, key) == Some(s[i].1),
    decreases i,
{
    if i == 0 {
    } else {
        assert(s[0].0@ != key);
        assert(s.drop_first()[i - 1] == s[i]);
        assert forall|j: int| 0 <= j < i - 1 implies s.drop_first()[j].0@ != key by {
            assert(s.drop_first()[j] == s[j + 1]);
        }
        lemma_lookup_first(s.drop_first(), key, i - 1);
    }
}

/// Replacing the value at the first index whose key matches is exactly
/// `pairs_set` on that key.
pub proof fn lemma_set_is_update<T>(s: Seq<(Address, T)>, i: int, v: T)
    requires
        0 <= i < s.len(),
        forall|j: int| 0 <= j < i ==> s[j].0@ != s[i].0@,
    ensures
        pairs_set(s, s[i].0@, v) =~= s.update(i, (s[i].0, v)),
    decreases i,
{
    let key = s[i].0@;
    if i == 0 {
        assert(pairs_set(s, key, v) =~= s.update(0, (s[0].0, v)));
    } else {
        assert(s[0].0@ != key);
        assert(s.drop_first()[i - 1] == s[i]);
        assert forall|j: int| 0 <= j < i - 1 implies s.drop_first()[j].0@ != key by {
            assert(s.drop_first()[j] == s[j + 1]);
        }
        lemma_set_is_update(s.drop_first(), i - 1, v);
        assert(pairs_set(s, key, v) == seq![s[0]] + pairs_set(s.drop_first(), key, v));
        assert(pairs_set(s, key, v) =~= s.update(i, (s[i].0, v)));
    }
}

/// How `pairs_set` changes lookups: the written key reads back as the new
/// value (when present at all); every other key is untouched.
pub proof fn lemma_lookup_set<T>(s: Seq<(Address, T)>, key: Seq<u8>, v: T, k2: Seq<u8>)
    ensures
        pairs_lookup(pairs_set(s, key, v), k2) == (if k2 == key {
            if pairs_lookup(s, key) is Some {
                Some(v)
            } else {
                None::<T>
            }
        } else {
            pairs_lookup(s, k2)
        }),
    decreases s.len(),
{
    if s.len() == 0 {
    } else if s[0].0@ == key {
        let t = seq![(s[0].0, v)] + s.drop_first();
        assert(pairs_set(s, key, v) == t);
        assert(t[0] == (s[0].0, v));
        assert(t.drop_first() =~= s.drop_first());
    } else {
        let t = seq![s[0]] + pairs_set(s.drop_first(), key, v);
        assert(pairs_set(s, key, v) == t);
        assert(t[0] == s[0]);
        assert(t.drop_first() =~= pairs_set(s.drop_first(), key, v));
        lemma_lookup_set(s.drop_first(), key, v, k2);
    }
}

/// Appending a fresh entry: lookups of present keys are unchanged; the new key
/// becomes readable.
pub proof fn lemma_lookup_push<T>(s: Seq<(Address, T)>, p: (Address, T), k: Seq<u8>)
    ensures
        pairs_lookup(s.push(p), k) == (if pairs_lookup(s, k) is Some {
            pairs_lookup(s, k)
        } else if p.0@ == k {
            Some(p.1)
        } else {
            None::<T>
        }),
    decreases s.len(),
{
    if s.len() == 0 {
        assert(s.push(p).len() == 1);
        assert(s.push(p)[0] == p);
        assert(s.push(p).drop_first() =~= Seq::<(Address, T)>::empty());
        if p.0@ == k {
            assert(pairs_lookup(s.push(p), k) == Some(p.1));
        } else {
            assert(pairs_lookup(s.push(p), k) == pairs_lookup(s.push(p).drop_first(), k));
            assert(pairs_lookup(s.push(p), k) is None);
        }
        assert(pairs_lookup(s, k) is None);
    } else {
        assert(s.push(p)[0] == s[0]);
        assert(s.push(p).drop_first() =~= s.drop_first().push(p));
        lemma_lookup_push(s.drop_first(), p, k);
        if s[0].0@ == k {
            assert(pairs_lookup(s.push(p), k) == Some(s[0].1));
            assert(pairs_lookup(s, k) == Some(s[0].1));
        } else {
            assert(pairs_lookup(s.push(p), k) == pairs_lookup(s.drop_first().push(p), k));
            assert(pairs_lookup(s, k) == pairs_lookup(s.drop_first(), k));
        }
    }
}

/// Index of the first entry carrying the given address, if any.
pub fn pairs_find<T>(v: &Vec<(Address, T)>, key: &Address) -> (r: Option<usize>)
    ensures
        match r {
            Some(i) => i < v.len() && v@[i as int].0@ == key@ && (forall|j: int|
                0 <= j < i ==> v@[j].0@ != key@) && pairs_lookup(v@, key@) == Some(
                v@[i as int].1,
            ),
            None => pairs_lookup(v@, key@) is None,
        },
{
    let mut i: usize = 0;
    while i < v.len()
        invariant
            i <= v.len(),
            forall|j: int| 0 <= j < i ==> v@[j].0@ != key@,
        decreases v.len() - i,
    {
        let p = &v[i];
        if address_eq(&p.0, key) {
            proof {
                lemma_lookup_first(v@, key@, i as int);
            }
            return Some(i);
        }
        i += 1;
    }
    proof {
        lemma_lookup_none_iff(v@, key@);
    }
    None
}

} // verus!
