//! The order of identifiers: that of their octets, read from the first octet
//! on, as words are ordered in a dictionary.

use std::cmp::Ordering;
use vstd::prelude::*;

verus! {

/// How `a` stands to `b` in the dictionary order of octet sequences: the first
/// place at which they differ decides, and a sequence that ends there comes
/// before one that goes on.
pub open spec fn octets_order(a: Seq<u8>, b: Seq<u8>) -> Ordering
    decreases a.len(),
{
    if a.len() == 0 {
        if b.len() == 0 {
            Ordering::Equal
        } else {
            Ordering::Less
        }
    } else if b.len() == 0 {
        Ordering::Greater
    } else if a[0] < b[0] {
        Ordering::Less
    } else if a[0] > b[0] {
        Ordering::Greater
    } else {
        octets_order(a.drop_first(), b.drop_first())
    }
}

/// The order seen from the other side.
pub open spec fn reversed(o: Ordering) -> Ordering {
    match o {
        Ordering::Less => Ordering::Greater,
        Ordering::Equal => Ordering::Equal,
        Ordering::Greater => Ordering::Less,
    }
}

/// Two sequences stand as equal exactly when they are the same sequence.
pub proof fn lemma_order_equal(a: Seq<u8>, b: Seq<u8>)
    ensures
        octets_order(a, b) == Ordering::Equal <==> a == b,
    decreases a.len(),
{
    if a.len() > 0 && b.len() > 0 {
        lemma_order_equal(a.drop_first(), b.drop_first());
        if a[0] == b[0] && a.drop_first() == b.drop_first() {
            assert(a =~= seq![a[0]] + a.drop_first());
            assert(b =~= seq![b[0]] + b.drop_first());
        }
    } else if a.len() == 0 && b.len() == 0 {
        assert(a =~= b);
    }
}

/// Swapping the two sequences reverses the order.
pub proof fn lemma_order_reversed(a: Seq<u8>, b: Seq<u8>)
    ensures
        octets_order(b, a) == reversed(octets_order(a, b)),
    decreases a.len(),
{
    if a.len() > 0 && b.len() > 0 {
        lemma_order_reversed(a.drop_first(), b.drop_first());
    }
}

/// What comes before something that comes before a third comes before the
/// third, and likewise with equal steps in between.
pub proof fn lemma_order_transitive(a: Seq<u8>, b: Seq<u8>, c: Seq<u8>)
    requires
        octets_order(a, b) != Ordering::Greater,
        octets_order(b, c) != Ordering::Greater,
    ensures
        octets_order(a, c) != Ordering::Greater,
        octets_order(a, c) == Ordering::Equal ==> octets_order(a, b) == Ordering::Equal
            && octets_order(b, c) == Ordering::Equal,
    decreases a.len(),
{
    if a.len() > 0 && b.len() > 0 && c.len() > 0 {
        if a[0] == b[0] && b[0] == c[0] {
            lemma_order_transitive(a.drop_first(), b.drop_first(), c.drop_first());
        }
    }
}

} // verus!
