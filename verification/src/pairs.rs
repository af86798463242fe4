//! Ordered lists of keyed entries in which no key occurs twice, and the map
//! that such a list stands for.
use vstd::prelude::*;

verus! {

/// No two entries have the same key.
pub open spec fn keys_distinct<V>(s: Seq<(String, V)>) -> bool {
    forall|i: int, j: int| 0 <= i < j < s.len() ==> #[trigger] s[i].0@ != #[trigger] s[j].0@
}

/// The map of a list of entries; a later entry wins over an earlier one.
pub open spec fn pairs_map<V: View>(s: Seq<(String, V)>) -> Map<Seq<char>, V::V>
    decreases s.len(),
{
    if s.len() == 0 {
        Map::empty()
    } else {
        pairs_map(s.drop_last()).insert(s.last().0@, s.last().1@)
    }
}

/// With distinct keys, the map holds exactly the entries.
pub proof fn lemma_pairs_map<V: View>(s: Seq<(String, V)>)
    requires
        keys_distinct(s),
    ensures
        forall|i: int| 0 <= i < s.len() ==> #[trigger] pairs_map(s).contains_key(s[i].0@) && pairs_map(s)[s[i].0@] == s[i].1@,
        forall|k: Seq<char>| pairs_map(s).contains_key(k) ==> exists|i: int| 0 <= i < s.len() && #[trigger] s[i].0@ == k,
        pairs_map(s).dom().finite(),
        pairs_map(s).dom().len() == s.len(),
    decreases s.len(),
{
    if s.len() > 0 {
        let t = s.drop_last();
        assert(keys_distinct(t));
        lemma_pairs_map(t);
        let last = s.last();
        assert(!pairs_map(t).contains_key(last.0@)) by {
            if pairs_map(t).contains_key(last.0@) {
                let i = choose|i: int| 0 <= i < t.len() && #[trigger] t[i].0@ == last.0@;
                assert(s[i].0@ == s[s.len() - 1].0@);
            }
        }
        assert forall|i: int| 0 <= i < s.len() implies #[trigger] pairs_map(s).contains_key(s[i].0@) && pairs_map(s)[s[i].0@] == s[i].1@ by {
            if i < s.len() - 1 {
                assert(s[i] == t[i]);
                assert(s[i].0@ != last.0@);
            }
        }
        assert forall|k: Seq<char>| pairs_map(s).contains_key(k) implies exists|i: int| 0 <= i < s.len() && #[trigger] s[i].0@ == k by {
            if k != last.0@ {
                let i = choose|i: int| 0 <= i < t.len() && #[trigger] t[i].0@ == k;
                assert(s[i] == t[i]);
            } else {
                assert(s[s.len() - 1].0@ == k);
            }
        }
    }
}

/// The position of the entry with key `key`, if any.
pub fn find_key<V>(s: &Vec<(String, V)>, key: &String) -> (res: Option<usize>)
    ensures
        match res {
            Some(i) => i < s@.len() && s@[i as int].0@ == key@,
            None => forall|i: int| 0 <= i < s@.len() ==> #[trigger] s@[i].0@ != key@,
        },
{
    let mut i: usize = 0;
    while i < s.len()
        invariant
            i <= s@.len(),
            forall|j: int| 0 <= j < i ==> #[trigger] s@[j].0@ != key@,
        decreases s@.len() - i,
    {
        if s[i].0 == *key {
            return Some(i);
        }
        i = i + 1;
    }
    None
}

/// Sets the value of `key`: replaces the entry with that key where there is
/// one, else appends an entry.
pub fn upsert<V: View>(s: &mut Vec<(String, V)>, key: String, value: V)
    requires
        keys_distinct(old(s)@),
    ensures
        keys_distinct(final(s)@),
        pairs_map(final(s)@) == pairs_map(old(s)@).insert(key@, value@),
{
    let ghost old_s = s@;
    let ghost k = key@;
    let ghost v = value@;
    proof {
        lemma_pairs_map(old_s);
    }
    match find_key(s, &key) {
        Some(i) => {
            s[i] = (key, value);
            proof {
                let new_s = s@;
                assert(keys_distinct(new_s)) by {
                    assert forall|a: int, b: int| 0 <= a < b < new_s.len() implies #[trigger] new_s[a].0@ != #[trigger] new_s[b].0@ by {
                        if a == i {
                            assert(old_s[a].0@ != old_s[b].0@);
                        } else if b == i {
                            assert(old_s[a].0@ != old_s[b].0@);
                        } else {
                            assert(old_s[a].0@ != old_s[b].0@);
                        }
                    }
                }
                lemma_pairs_map(new_s);
                assert(pairs_map(new_s) =~= pairs_map(old_s).insert(k, v)) by {
                    assert forall|key2: Seq<char>| #[trigger] pairs_map(new_s).contains_key(key2) <==> pairs_map(old_s).insert(k, v).contains_key(key2) by {
                        if pairs_map(new_s).contains_key(key2) {
                            let j = choose|j: int| 0 <= j < new_s.len() && #[trigger] new_s[j].0@ == key2;
                            if j != i {
                                assert(old_s[j] == new_s[j]);
                            }
                        }
                        if pairs_map(old_s).contains_key(key2) && key2 != k {
                            let j = choose|j: int| 0 <= j < old_s.len() && #[trigger] old_s[j].0@ == key2;
                            assert(old_s[j] == new_s[j]);
                        }
                        if key2 == k {
                            assert(new_s[i as int].0@ == k);
                        }
                    }
                    assert forall|key2: Seq<char>| #[trigger] pairs_map(new_s).contains_key(key2) implies pairs_map(new_s)[key2] == pairs_map(old_s).insert(k, v)[key2] by {
                        let j = choose|j: int| 0 <= j < new_s.len() && #[trigger] new_s[j].0@ == key2;
                        if j != i {
                            assert(old_s[j] == new_s[j]);
                            assert(key2 != k);
                        }
                    }
                }
            }
        },
        None => {
            s.push((key, value));
            proof {
                let new_s = s@;
                assert(new_s.drop_last() =~= old_s);
                assert(keys_distinct(new_s)) by {
                    assert forall|a: int, b: int| 0 <= a < b < new_s.len() implies #[trigger] new_s[a].0@ != #[trigger] new_s[b].0@ by {
                        if b == new_s.len() - 1 {
                            assert(old_s[a].0@ != k);
                        } else {
                            assert(old_s[a].0@ != old_s[b].0@);
                        }
                    }
                }
            }
        },
    }
}

} // verus!

verus! {

/// `dst` lists, in order, what `rel` relates to each element of `src` that
/// `ok` accepts; the others are left out.
pub open spec fn filter_related<A, B>(
    src: Seq<A>,
    dst: Seq<B>,
    ok: spec_fn(A) -> bool,
    rel: spec_fn(A, B) -> bool,
) -> bool
    decreases src.len(),
{
    if src.len() == 0 {
        dst.len() == 0
    } else if ok(src.last()) {
        dst.len() > 0 && rel(src.last(), dst.last()) && filter_related(src.drop_last(), dst.drop_last(), ok, rel)
    } else {
        filter_related(src.drop_last(), dst, ok, rel)
    }
}

/// A filtered list is no longer than its source.
pub proof fn lemma_filter_related_len<A, B>(
    src: Seq<A>,
    dst: Seq<B>,
    ok: spec_fn(A) -> bool,
    rel: spec_fn(A, B) -> bool,
)
    requires
        filter_related(src, dst, ok, rel),
    ensures
        dst.len() <= src.len(),
    decreases src.len(),
{
    if src.len() > 0 {
        if ok(src.last()) {
            lemma_filter_related_len(src.drop_last(), dst.drop_last(), ok, rel);
        } else {
            lemma_filter_related_len(src.drop_last(), dst, ok, rel);
        }
    }
}

/// Extends a filtered list by the next element of the source: kept where `ok`
/// accepts it, left out otherwise.
pub proof fn lemma_filter_related_step<A, B>(
    src: Seq<A>,
    dst: Seq<B>,
    i: int,
    ok: spec_fn(A) -> bool,
    rel: spec_fn(A, B) -> bool,
    next: B,
)
    requires
        0 <= i < src.len(),
        filter_related(src.subrange(0, i), dst, ok, rel),
    ensures
        ok(src[i]) && rel(src[i], next) ==> filter_related(src.subrange(0, i + 1), dst.push(next), ok, rel),
        !ok(src[i]) ==> filter_related(src.subrange(0, i + 1), dst, ok, rel),
{
    let s = src.subrange(0, i + 1);
    assert(s.drop_last() =~= src.subrange(0, i));
    assert(s.last() == src[i]);
    assert(dst.push(next).drop_last() =~= dst);
}

} // verus!

verus! {

/// The elements of `v` in reverse order, so that popping yields them in order.
pub fn reversed<T>(v: Vec<T>) -> (res: Vec<T>)
    ensures
        res@.len() == v@.len(),
        forall|i: int| 0 <= i < v@.len() ==> #[trigger] res@[i] == v@[v@.len() - 1 - i],
{
    let ghost s = v@;
    let mut v = v;
    let mut res: Vec<T> = Vec::new();
    while v.len() > 0
        invariant
            v@.len() + res@.len() == s.len(),
            v@ == s.subrange(0, v@.len() as int),
            forall|i: int| 0 <= i < res@.len() ==> #[trigger] res@[i] == s[s.len() - 1 - i],
        decreases v@.len(),
    {
        let x = v.pop().unwrap();
        res.push(x);
    }
    res
}

} // verus!
