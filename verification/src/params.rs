//! Parameters as pairs of name and value, and the canonical parameter string.

use crate::encoding::percent_encode;
use crate::encoding::percent_encoded;
use crate::ordering::lemma_pair_order_total;
use crate::ordering::pair_before_or_equal;
use crate::ordering::pair_le;
use crate::ordering::pair_order;
use crate::ordering::TextPair;
use vstd::prelude::*;
use vstd::relations::sorted_by;
use vstd::seq_lib::lemma_sorted_unique;
use vstd::seq_lib::to_multiset_build;
use vstd::seq_lib::to_multiset_contains;
use vstd::seq_lib::to_multiset_insert;
use vstd::seq_lib::to_multiset_len;
use vstd::seq_lib::to_multiset_remove;
use vstd::string::*;
use vstd::utf8::encode_utf8;

verus! {

/// The texts that a list of parameters holds, pair by pair.
pub open spec fn pairs_of(params: Seq<(String, String)>) -> Seq<TextPair> {
    Seq::new(params.len(), |i: int| (params[i].0@, params[i].1@))
}

/// The percent-encoded form of a text: the encoding of its UTF-8 octets.
pub open spec fn encoded_text(s: Seq<char>) -> Seq<char> {
    percent_encoded(encode_utf8(s))
}

/// A pair with its name and its value encoded, each on its own.
pub open spec fn encoded_pair(p: TextPair) -> TextPair {
    (encoded_text(p.0), encoded_text(p.1))
}

/// The pairs of a list, each encoded, in the order of the list.
pub open spec fn encoded_pairs(pairs: Seq<TextPair>) -> Seq<TextPair> {
    Seq::new(pairs.len(), |i: int| encoded_pair(pairs[i]))
}

/// The encoded pairs in ascending order.
pub open spec fn canonical_pairs(pairs: Seq<TextPair>) -> Seq<TextPair> {
    encoded_pairs(pairs).sort_by(pair_order())
}

/// One pair written out: the name, `open`, the value, `close`.
pub open spec fn rendered_pair(p: TextPair, open: Seq<char>, close: Seq<char>) -> Seq<char> {
    p.0 + open + p.1 + close
}

/// The pairs written out one after the other, with `sep` between two of
/// them and nothing after the last.
pub open spec fn rendered_pairs(
    pairs: Seq<TextPair>,
    open: Seq<char>,
    close: Seq<char>,
    sep: Seq<char>,
) -> Seq<char>
    decreases pairs.len(),
{
    if pairs.len() == 0 {
        Seq::empty()
    } else if pairs.len() == 1 {
        rendered_pair(pairs[0], open, close)
    } else {
        rendered_pairs(pairs.drop_last(), open, close, sep) + sep + rendered_pair(
            pairs.last(),
            open,
            close,
        )
    }
}

/// The canonical parameter string: every name and value encoded, the pairs
/// sorted, each written `name=value`, joined by `&`.
pub open spec fn canonical_parameter_text(pairs: Seq<TextPair>) -> Seq<char> {
    rendered_pairs(canonical_pairs(pairs), seq!['='], Seq::empty(), seq!['&'])
}

/// Encodes the name and the value of every parameter.
pub fn encode_pairs(params: &Vec<(String, String)>) -> (out: Vec<(String, String)>)
    ensures
        pairs_of(out@) == encoded_pairs(pairs_of(params@)),
{
    let mut out: Vec<(String, String)> = Vec::new();
    let mut i: usize = 0;
    while i < params.len()
        invariant
            i <= params@.len(),
            out@.len() == i,
            forall|k: int|
                0 <= k < i ==> (#[trigger] out@[k]).0@ == encoded_text(params@[k].0@) && out@[k].1@
                    == encoded_text(params@[k].1@),
        decreases params@.len() - i,
    {
        let name = percent_encode(params[i].0.as_str());
        let value = percent_encode(params[i].1.as_str());
        out.push((name, value));
        i += 1;
    }
    proof {
        assert(pairs_of(out@) =~= encoded_pairs(pairs_of(params@)));
    }
    out
}

/// Puts `item` into a sorted list at its place.
fn insert_sorted(list: &mut Vec<(String, String)>, item: (String, String))
    requires
        sorted_by(pairs_of(old(list)@), pair_order()),
    ensures
        sorted_by(pairs_of(final(list)@), pair_order()),
        pairs_of(final(list)@).to_multiset() == pairs_of(old(list)@).to_multiset().insert(
            (item.0@, item.1@),
        ),
{
    let ghost before = pairs_of(list@);
    let ghost it: TextPair = (item.0@, item.1@);
    let mut j: usize = 0;
    while j < list.len() && pair_before_or_equal(&list[j], &item)
        invariant
            j <= list@.len(),
            list@ == old(list)@,
            before == pairs_of(list@),
            it == (item.0@, item.1@),
            forall|k: int| 0 <= k < j ==> pair_le(#[trigger] before[k], it),
        decreases list@.len() - j,
    {
        j += 1;
    }
    list.insert(j, item);
    proof {
        let after = pairs_of(list@);
        assert(after =~= before.insert(j as int, it));
        to_multiset_insert(before, j as int, it);
        lemma_pair_order_total();
        assert forall|a: int, b: int| 0 <= a < b < after.len() implies #[trigger] pair_order()(
            after[a],
            after[b],
        ) by {
            if b < j {
                assert(pair_order()(before[a], before[b]));
            } else if b == j {
                assert(pair_le(before[a], it));
            } else if a == j {
                // `it` comes before `before[j]`, which comes before all that follow
                assert(!pair_le(before[j as int], it));
                assert(pair_order()(before[j as int], it) || pair_order()(it, before[j as int]));
                if b - 1 > j {
                    assert(pair_order()(before[j as int], before[b - 1]));
                    assert(pair_order()(it, before[j as int]) && pair_order()(
                        before[j as int],
                        before[b - 1],
                    ) ==> pair_order()(it, before[b - 1]));
                }
            } else if a < j {
                assert(pair_order()(before[a], before[b - 1]));
            } else {
                assert(pair_order()(before[a - 1], before[b - 1]));
            }
        }
    }
}

/// Sorts pairs in ascending order of name and, for one name, of value.
pub fn sort_pairs(pairs: Vec<(String, String)>) -> (out: Vec<(String, String)>)
    ensures
        pairs_of(out@) == pairs_of(pairs@).sort_by(pair_order()),
{
    let ghost given = pairs_of(pairs@);
    let mut rest = pairs;
    let mut out: Vec<(String, String)> = Vec::new();
    proof {
        assert(pairs_of(out@) =~= Seq::<TextPair>::empty());
        assert(given.skip(given.len() as int) =~= Seq::<TextPair>::empty());
        assert(given.take(given.len() as int) =~= given);
    }
    while rest.len() > 0
        invariant
            pairs_of(rest@) == given.take(rest@.len() as int),
            rest@.len() <= given.len(),
            sorted_by(pairs_of(out@), pair_order()),
            pairs_of(out@).to_multiset() == given.skip(rest@.len() as int).to_multiset(),
        decreases rest@.len(),
    {
        let ghost n = rest@.len() as int;
        let ghost prev = rest@;
        let item = rest.pop().unwrap();
        proof {
            assert(pairs_of(prev)[n - 1] == (item.0@, item.1@));
            assert(given.take(n)[n - 1] == given[n - 1]);
        }
        insert_sorted(&mut out, item);
        proof {
            let it = given[n - 1];
            assert(pairs_of(rest@) =~= given.take(n - 1)) by {
                assert forall|k: int| 0 <= k < n - 1 implies pairs_of(rest@)[k] == given.take(
                    n - 1,
                )[k] by {
                    assert(pairs_of(prev)[k] == given.take(n)[k]);
                }
            }
            assert(given.skip(n - 1) =~= given.skip(n).insert(0, it));
            to_multiset_insert(given.skip(n), 0, it);
        }
    }
    proof {
        assert(given.skip(0) =~= given);
        lemma_pair_order_total();
        given.lemma_sort_by_ensures(pair_order());
        lemma_sorted_unique(pairs_of(out@), given.sort_by(pair_order()), pair_order());
    }
    out
}

/// Writes the pairs out one after the other: each as its name, `open`, its
/// value and `close`, with `sep` between two pairs.
pub fn render_pairs(pairs: &Vec<(String, String)>, open: &str, close: &str, sep: &str) -> (out:
    String)
    ensures
        out@ == rendered_pairs(pairs_of(pairs@), open@, close@, sep@),
{
    let ghost all = pairs_of(pairs@);
    let mut out = String::new();
    let mut i: usize = 0;
    while i < pairs.len()
        invariant
            i <= pairs@.len(),
            all == pairs_of(pairs@),
            out@ == rendered_pairs(all.take(i as int), open@, close@, sep@),
        decreases pairs@.len() - i,
    {
        let ghost so_far = out@;
        if i > 0 {
            out.append(sep);
        }
        out.append(pairs[i].0.as_str());
        out.append(open);
        out.append(pairs[i].1.as_str());
        out.append(close);
        proof {
            let next = all.take(i + 1);
            assert(next.drop_last() == all.take(i as int));
            assert(next.last() == all[i as int]);
            let one = rendered_pair(all[i as int], open@, close@);
            if i > 0 {
                assert(out@ == so_far + sep@ + one);
            } else {
                assert(so_far == Seq::<char>::empty());
                assert(out@ == one);
            }
        }
        i += 1;
    }
    proof {
        assert(all.take(i as int) == all);
    }
    out
}

/// Builds the canonical parameter string of a list of parameters, given in
/// any order and not yet encoded.
pub fn canonical_parameter_string(params: &Vec<(String, String)>) -> (out: String)
    ensures
        out@ == canonical_parameter_text(pairs_of(params@)),
{
    let sorted = sort_pairs(encode_pairs(params));
    proof {
        reveal_strlit("=");
        reveal_strlit("");
        reveal_strlit("&");
        assert("="@ == seq!['=']);
        assert(""@ == Seq::<char>::empty());
        assert("&"@ == seq!['&']);
    }
    render_pairs(&sorted, "=", "", "&")
}

/// Mapping every element of two lists that hold the same elements, in
/// whatever order, gives two lists that hold the same elements.
pub proof fn lemma_encoded_pairs_of_permutation(p: Seq<TextPair>, q: Seq<TextPair>)
    requires
        p.to_multiset() == q.to_multiset(),
    ensures
        encoded_pairs(p).to_multiset() == encoded_pairs(q).to_multiset(),
    decreases p.len(),
{
    to_multiset_len(p);
    to_multiset_len(q);
    if p.len() == 0 {
        assert(encoded_pairs(p) =~= encoded_pairs(q));
    } else {
        let a = p.last();
        let shorter = p.drop_last();
        assert(p == shorter.push(a));
        to_multiset_build(shorter, a);
        to_multiset_contains(q, a);
        assert(q.contains(a));
        let j = choose|j: int| 0 <= j < q.len() && q[j] == a;
        let without = q.remove(j);
        to_multiset_remove(q, j);
        assert(shorter.to_multiset() =~= without.to_multiset());
        lemma_encoded_pairs_of_permutation(shorter, without);
        assert(encoded_pairs(p) =~= encoded_pairs(shorter).push(encoded_pair(a)));
        assert(encoded_pairs(q) =~= encoded_pairs(without).insert(j, encoded_pair(a)));
        to_multiset_build(encoded_pairs(shorter), encoded_pair(a));
        to_multiset_insert(encoded_pairs(without), j, encoded_pair(a));
    }
}

/// The canonical parameter string does not depend on the order in which
/// the parameters are given: two lists that hold the same pairs, each as
/// often as the other, have the same canonical string.
pub proof fn lemma_canonical_text_of_permutation(p: Seq<TextPair>, q: Seq<TextPair>)
    requires
        p.to_multiset() == q.to_multiset(),
    ensures
        canonical_pairs(p) == canonical_pairs(q),
        canonical_parameter_text(p) == canonical_parameter_text(q),
{
    lemma_encoded_pairs_of_permutation(p, q);
    lemma_pair_order_total();
    encoded_pairs(p).lemma_sort_by_ensures(pair_order());
    encoded_pairs(q).lemma_sort_by_ensures(pair_order());
    lemma_sorted_unique(canonical_pairs(p), canonical_pairs(q), pair_order());
}

} // verus!
