//! Tables of amounts keyed by `K`, kept as a sequence of entries with
//! pairwise distinct keys; a key without an entry holds the amount 0.
use crate::amount::Amount;
use vstd::prelude::*;

verus! {

/// No two entries share a key.
pub open spec fn keys_unique<K>(s: Seq<(K, Amount)>) -> bool {
    forall|i: int, j: int| 0 <= i < j < s.len() ==> s[i].0 != s[j].0
}

/// The amount held under key `k`, 0 where no entry has that key.
pub open spec fn amount_at<K>(s: Seq<(K, Amount)>, k: K) -> nat
    decreases s.len(),
{
    if s.len() == 0 {
        0
    } else if s.last().0 == k {
        s.last().1@
    } else {
        amount_at(s.drop_last(), k)
    }
}

/// The sum of the amounts of all entries.
pub open spec fn total_of<K>(s: Seq<(K, Amount)>) -> nat
    decreases s.len(),
{
    if s.len() == 0 {
        0
    } else {
        total_of(s.drop_last()) + s.last().1@
    }
}

/// The amount under an entry's key is that entry's amount.
pub proof fn lemma_amount_at_index<K>(s: Seq<(K, Amount)>, i: int)
    requires
        keys_unique(s),
        0 <= i < s.len(),
    ensures
        amount_at(s, s[i].0) == s[i].1@,
    decreases s.len(),
{
    if i < s.len() - 1 {
        assert(s.drop_last()[i] == s[i]);
        lemma_amount_at_index(s.drop_last(), i);
    }
}

/// A key that no entry has holds 0.
pub proof fn lemma_amount_at_absent<K>(s: Seq<(K, Amount)>, k: K)
    requires
        forall|i: int| 0 <= i < s.len() ==> s[i].0 != k,
    ensures
        amount_at(s, k) == 0,
    decreases s.len(),
{
    if s.len() > 0 {
        lemma_amount_at_absent(s.drop_last(), k);
    }
}

/// Appending an entry under a new key sets that key and keeps the others.
pub proof fn lemma_push<K>(s: Seq<(K, Amount)>, k: K, v: Amount)
    requires
        keys_unique(s),
        forall|i: int| 0 <= i < s.len() ==> s[i].0 != k,
    ensures
        keys_unique(s.push((k, v))),
        total_of(s.push((k, v))) == total_of(s) + v@,
        forall|x: K|
            #![trigger amount_at(s.push((k, v)), x)]
            amount_at(s.push((k, v)), x) == if x == k {
                v@
            } else {
                amount_at(s, x)
            },
{
    assert(s.push((k, v)).drop_last() =~= s);
}

/// Replacing the amount of entry `i` sets its key and keeps the others, and
/// changes the total by the difference.
pub proof fn lemma_update<K>(s: Seq<(K, Amount)>, i: int, v: Amount)
    requires
        keys_unique(s),
        0 <= i < s.len(),
    ensures
        keys_unique(s.update(i, (s[i].0, v))),
        total_of(s.update(i, (s[i].0, v))) == total_of(s) - s[i].1@ + v@,
        forall|x: K|
            #![trigger amount_at(s.update(i, (s[i].0, v)), x)]
            amount_at(s.update(i, (s[i].0, v)), x) == if x == s[i].0 {
                v@
            } else {
                amount_at(s, x)
            },
{
    let t = s.update(i, (s[i].0, v));
    assert forall|x: K| amount_at(t, x) == if x == s[i].0 {
        v@
    } else {
        amount_at(s, x)
    } by {
        lemma_update_at(s, i, v, x);
    }
    lemma_update_total(s, i, v);
}

proof fn lemma_update_at<K>(s: Seq<(K, Amount)>, i: int, v: Amount, x: K)
    requires
        keys_unique(s),
        0 <= i < s.len(),
    ensures
        amount_at(s.update(i, (s[i].0, v)), x) == if x == s[i].0 {
            v@
        } else {
            amount_at(s, x)
        },
    decreases s.len(),
{
    let t = s.update(i, (s[i].0, v));
    if i == s.len() - 1 {
        assert(t.drop_last() =~= s.drop_last());
    } else {
        assert(t.drop_last() =~= s.drop_last().update(i, (s[i].0, v)));
        assert(s.drop_last()[i] == s[i]);
        lemma_update_at(s.drop_last(), i, v, x);
    }
}

proof fn lemma_update_total<K>(s: Seq<(K, Amount)>, i: int, v: Amount)
    requires
        0 <= i < s.len(),
    ensures
        total_of(s.update(i, (s[i].0, v))) == total_of(s) - s[i].1@ + v@,
    decreases s.len(),
{
    let t = s.update(i, (s[i].0, v));
    if i == s.len() - 1 {
        assert(t.drop_last() =~= s.drop_last());
    } else {
        assert(t.drop_last() =~= s.drop_last().update(i, (s[i].0, v)));
        assert(s.drop_last()[i] == s[i]);
        lemma_update_total(s.drop_last(), i, v);
    }
}

/// The amounts under two distinct keys together do not exceed the total.
pub proof fn lemma_two_within_total<K>(s: Seq<(K, Amount)>, a: K, b: K)
    requires
        a != b,
    ensures
        amount_at(s, a) + amount_at(s, b) <= total_of(s),
    decreases s.len(),
{
    if s.len() > 0 {
        lemma_two_within_total(s.drop_last(), a, b);
        lemma_one_within_total(s.drop_last(), a);
        lemma_one_within_total(s.drop_last(), b);
    }
}

/// The amount under any key does not exceed the total.
pub proof fn lemma_one_within_total<K>(s: Seq<(K, Amount)>, a: K)
    ensures
        amount_at(s, a) <= total_of(s),
    decreases s.len(),
{
    if s.len() > 0 {
        lemma_one_within_total(s.drop_last(), a);
    }
}

} // verus!
