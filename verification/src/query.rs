//! The query that a rule leaves: the pairs whose key the rule reserves,
//! written out again as `key=value` joined by `&`.

use vstd::prelude::*;

verus! {

/// The pairs whose key is one of `keys`, in the order in which they stand
/// and with their duplicates.
pub open spec fn retained(pairs: Seq<(Seq<char>, Seq<char>)>, keys: Seq<Seq<char>>) -> Seq<
    (Seq<char>, Seq<char>),
> {
    pairs.filter(|pair: (Seq<char>, Seq<char>)| keys.contains(pair.0))
}

/// One pair as it is written into a query: `key=value`.
pub open spec fn pair_text(pair: (Seq<char>, Seq<char>)) -> Seq<char> {
    pair.0 + seq!['='] + pair.1
}

/// The pairs written out one after the other, with `&` between them.
pub open spec fn joined(pairs: Seq<(Seq<char>, Seq<char>)>) -> Seq<char>
    decreases pairs.len(),
{
    if pairs.len() == 0 {
        Seq::empty()
    } else if pairs.len() == 1 {
        pair_text(pairs[0])
    } else {
        joined(pairs.drop_last()) + seq!['&'] + pair_text(pairs.last())
    }
}

/// The query text that is left of `pairs` when only `keys` are reserved.
pub open spec fn reserved_query(pairs: Seq<(Seq<char>, Seq<char>)>, keys: Seq<Seq<char>>) -> Seq<
    char,
> {
    joined(retained(pairs, keys))
}

/// Retaining is a projection: what was retained once is retained whole.
pub proof fn lemma_retained_twice(pairs: Seq<(Seq<char>, Seq<char>)>, keys: Seq<Seq<char>>)
    ensures
        retained(retained(pairs, keys), keys) == retained(pairs, keys),
    decreases pairs.len(),
{
    let keep = |pair: (Seq<char>, Seq<char>)| keys.contains(pair.0);
    if pairs.len() == 0 {
        reveal(Seq::filter);
    } else {
        let front = pairs.drop_last();
        let last = pairs.last();
        lemma_retained_twice(front, keys);
        assert(pairs == front.push(last));
        front.lemma_filter_push(last, keep);
        if keep(last) {
            front.filter(keep).lemma_filter_push(last, keep);
        }
    }
}

/// No pair survives an empty list of keys.
pub proof fn lemma_retained_none(pairs: Seq<(Seq<char>, Seq<char>)>)
    ensures
        retained(pairs, Seq::empty()) == Seq::<(Seq<char>, Seq<char>)>::empty(),
        reserved_query(pairs, Seq::empty()) == Seq::<char>::empty(),
    decreases pairs.len(),
{
    let keys = Seq::<Seq<char>>::empty();
    let keep = |pair: (Seq<char>, Seq<char>)| keys.contains(pair.0);
    if pairs.len() == 0 {
        reveal(Seq::filter);
    } else {
        lemma_retained_none(pairs.drop_last());
        assert(pairs == pairs.drop_last().push(pairs.last()));
        pairs.drop_last().lemma_filter_push(pairs.last(), keep);
    }
}

/// Whether `key` is one of `keys`.
pub fn is_reserved(keys: &Vec<String>, key: &String) -> (r: bool)
    ensures
        r == keys.deep_view().contains(key@),
{
    let mut i: usize = 0;
    while i < keys.len()
        invariant
            i <= keys.len(),
            forall|j: int| 0 <= j < i ==> keys.deep_view()[j] != key@,
        decreases keys.len() - i,
    {
        if keys[i] == *key {
            assert(keys.deep_view()[i as int] == key@);
            return true;
        }
        i += 1;
    }
    false
}

/// Writes out the pairs whose key is reserved: `key=value`, joined by `&`,
/// in the order in which they came.
pub fn reserve_pairs(pairs: &Vec<(String, String)>, keys: &Vec<String>) -> (r: String)
    ensures
        r@ == reserved_query(pairs.deep_view(), keys.deep_view()),
{
    let ghost all = pairs.deep_view();
    let ghost wanted = keys.deep_view();
    let mut out = String::new();
    let mut first = true;
    let mut i: usize = 0;
    proof {
        reveal(Seq::filter);
        assert(all.take(0) =~= Seq::empty());
    }
    while i < pairs.len()
        invariant
            i <= pairs.len(),
            all == pairs.deep_view(),
            wanted == keys.deep_view(),
            out@ == reserved_query(all.take(i as int), wanted),
            first == (retained(all.take(i as int), wanted).len() == 0),
        decreases pairs.len() - i,
    {
        let pair = &pairs[i];
        let ghost before = all.take(i as int);
        let ghost kept = retained(before, wanted);
        proof {
            assert(all.take(i + 1) == before.push(all[i as int]));
            before.lemma_filter_push(
                all[i as int],
                |pair: (Seq<char>, Seq<char>)| wanted.contains(pair.0),
            );
            assert(all[i as int] == (pair.0@, pair.1@));
        }
        if is_reserved(keys, &pair.0) {
            proof {
                reveal_strlit("&");
                reveal_strlit("=");
                assert(kept.push(all[i as int]).drop_last() == kept);
            }
            if !first {
                out.append("&");
            }
            out.append(pair.0.as_str());
            out.append("=");
            out.append(pair.1.as_str());
            first = false;
            assert(out@ == joined(kept.push(all[i as int])));
        }
        i += 1;
    }
    proof {
        assert(all.take(i as int) == all);
    }
    out
}

} // verus!
