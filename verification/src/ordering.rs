//! The byte-wise order in which encoded parameters are sorted.

use vstd::prelude::*;
use vstd::string::*;
use vstd::relations::total_ordering;
use vstd::utf8::encode_utf8;
use vstd::utf8::encode_utf8_decode_utf8;

verus! {

/// A name and a value, each as a text.
pub type TextPair = (Seq<char>, Seq<char>);

/// Lexicographic order on sequences of octets: the first octet that differs
/// decides, and a proper prefix comes first.
pub open spec fn octets_le(a: Seq<u8>, b: Seq<u8>) -> bool
    decreases a.len(),
{
    if a.len() == 0 {
        true
    } else if b.len() == 0 {
        false
    } else if a[0] != b[0] {
        a[0] < b[0]
    } else {
        octets_le(a.drop_first(), b.drop_first())
    }
}

/// The order of two pairs: by the octets of the name, and for one name by
/// the octets of the value.
pub open spec fn pair_le(x: TextPair, y: TextPair) -> bool {
    if x.0 != y.0 {
        octets_le(encode_utf8(x.0), encode_utf8(y.0))
    } else {
        octets_le(encode_utf8(x.1), encode_utf8(y.1))
    }
}

/// `pair_le` as a relation.
pub open spec fn pair_order() -> spec_fn(TextPair, TextPair) -> bool {
    |x: TextPair, y: TextPair| pair_le(x, y)
}

/// Every sequence comes before or equals itself.
pub proof fn lemma_octets_le_reflexive(a: Seq<u8>)
    ensures
        octets_le(a, a),
    decreases a.len(),
{
    if a.len() > 0 {
        lemma_octets_le_reflexive(a.drop_first());
    }
}

/// Two sequences that each come before or equal the other are equal.
pub proof fn lemma_octets_le_antisymmetric(a: Seq<u8>, b: Seq<u8>)
    requires
        octets_le(a, b),
        octets_le(b, a),
    ensures
        a == b,
    decreases a.len(),
{
    if a.len() == 0 {
        assert(b.len() == 0);
        assert(a =~= b);
    } else {
        lemma_octets_le_antisymmetric(a.drop_first(), b.drop_first());
        assert(a =~= seq![a[0]] + a.drop_first());
        assert(b =~= seq![b[0]] + b.drop_first());
    }
}

/// The order passes on: from `a` to `b` and from `b` to `c` gives from `a`
/// to `c`.
pub proof fn lemma_octets_le_transitive(a: Seq<u8>, b: Seq<u8>, c: Seq<u8>)
    requires
        octets_le(a, b),
        octets_le(b, c),
    ensures
        octets_le(a, c),
    decreases a.len(),
{
    if a.len() > 0 && a[0] == b[0] && b[0] == c[0] {
        lemma_octets_le_transitive(a.drop_first(), b.drop_first(), c.drop_first());
    }
}

/// Of two sequences one comes before the other or equals it.
pub proof fn lemma_octets_le_connected(a: Seq<u8>, b: Seq<u8>)
    ensures
        octets_le(a, b) || octets_le(b, a),
    decreases a.len(),
{
    if a.len() > 0 && b.len() > 0 && a[0] == b[0] {
        lemma_octets_le_connected(a.drop_first(), b.drop_first());
    }
}

/// Two texts with the same UTF-8 octets are the same text.
pub proof fn lemma_utf8_injective(s: Seq<char>, t: Seq<char>)
    requires
        encode_utf8(s) == encode_utf8(t),
    ensures
        s == t,
{
    encode_utf8_decode_utf8(s);
    encode_utf8_decode_utf8(t);
}

/// The order of pairs is total: reflexive, antisymmetric, transitive, and
/// any two pairs are comparable.
pub proof fn lemma_pair_order_total()
    ensures
        total_ordering(pair_order()),
{
    let r = pair_order();
    assert forall|x: TextPair| #[trigger] r(x, x) by {
        lemma_octets_le_reflexive(encode_utf8(x.1));
    }
    assert forall|x: TextPair, y: TextPair| #[trigger] r(x, y) && #[trigger] r(y, x) implies x
        == y by {
        if x.0 != y.0 {
            lemma_octets_le_antisymmetric(encode_utf8(x.0), encode_utf8(y.0));
            lemma_utf8_injective(x.0, y.0);
        } else {
            lemma_octets_le_antisymmetric(encode_utf8(x.1), encode_utf8(y.1));
            lemma_utf8_injective(x.1, y.1);
        }
    }
    assert forall|x: TextPair, y: TextPair, z: TextPair| #[trigger]
        r(x, y) && #[trigger] r(y, z) implies r(x, z) by {
        if x.0 != y.0 && y.0 != z.0 {
            lemma_octets_le_transitive(encode_utf8(x.0), encode_utf8(y.0), encode_utf8(z.0));
            if x.0 == z.0 {
                lemma_octets_le_antisymmetric(encode_utf8(x.0), encode_utf8(y.0));
                lemma_utf8_injective(x.0, y.0);
            }
        } else if x.0 == y.0 && y.0 == z.0 {
            lemma_octets_le_transitive(encode_utf8(x.1), encode_utf8(y.1), encode_utf8(z.1));
        }
    }
    assert forall|x: TextPair, y: TextPair| #[trigger] r(x, y) || #[trigger] r(y, x) by {
        lemma_octets_le_connected(encode_utf8(x.0), encode_utf8(y.0));
        lemma_octets_le_connected(encode_utf8(x.1), encode_utf8(y.1));
    }
}

} // verus!

verus! {

/// Tests whether `a` comes before `b` or equals it, octet by octet.
pub fn octets_before_or_equal(a: &[u8], b: &[u8]) -> (r: bool)
    ensures
        r == octets_le(a@, b@),
{
    let mut i: usize = 0;
    proof {
        assert(a@.skip(0) == a@);
        assert(b@.skip(0) == b@);
    }
    while i < a.len() && i < b.len()
        invariant
            i <= a@.len(),
            i <= b@.len(),
            octets_le(a@, b@) == octets_le(a@.skip(i as int), b@.skip(i as int)),
        decreases a@.len() - i,
    {
        if a[i] != b[i] {
            return a[i] < b[i];
        }
        proof {
            assert(a@.skip(i as int).drop_first() == a@.skip(i + 1));
            assert(b@.skip(i as int).drop_first() == b@.skip(i + 1));
        }
        i += 1;
    }
    i == a.len()
}

/// Tests whether the pair `x` comes before the pair `y` or equals it.
pub fn pair_before_or_equal(x: &(String, String), y: &(String, String)) -> (r: bool)
    ensures
        r == pair_le((x.0@, x.1@), (y.0@, y.1@)),
{
    if x.0 == y.0 {
        octets_before_or_equal(x.1.as_str().as_bytes(), y.1.as_str().as_bytes())
    } else {
        octets_before_or_equal(x.0.as_str().as_bytes(), y.0.as_str().as_bytes())
    }
}

} // verus!
