//! The order in which counters are listed: by object name, then by type id,
//! then by stat id. Names are ordered as their UTF-8 bytes are, byte by
//! byte, a prefix before what it is a prefix of.

use vstd::prelude::*;
use vstd::string::StringSliceAdditionalSpecFns;
use vstd::utf8::{decode_utf8, encode_utf8, encode_utf8_decode_utf8};

verus! {

/// How one value stands to another.
#[derive(Debug, Clone, Copy, PartialEq, Eq, Structural)]
pub enum Order {
    Less,
    Equal,
    Greater,
}

/// How the bytes of `a` from `from` on stand to those of `b` from `from` on.
pub open spec fn spec_order_from(a: Seq<u8>, b: Seq<u8>, from: int) -> Order
    decreases a.len() - from,
{
    if from < 0 {
        Order::Equal
    } else if from >= a.len() {
        if from >= b.len() {
            Order::Equal
        } else {
            Order::Less
        }
    } else if from >= b.len() {
        Order::Greater
    } else if a[from] < b[from] {
        Order::Less
    } else if a[from] > b[from] {
        Order::Greater
    } else {
        spec_order_from(a, b, from + 1)
    }
}

/// How the byte string `a` stands to `b`.
pub open spec fn spec_bytes_order(a: Seq<u8>, b: Seq<u8>) -> Order {
    spec_order_from(a, b, 0)
}

/// The order turned round.
pub open spec fn spec_reverse(order: Order) -> Order {
    match order {
        Order::Less => Order::Greater,
        Order::Equal => Order::Equal,
        Order::Greater => Order::Less,
    }
}

/// Byte strings that stand equal from `from` on are the same from there on.
pub proof fn lemma_order_equal(a: Seq<u8>, b: Seq<u8>, from: int)
    requires
        0 <= from <= a.len(),
        from <= b.len(),
        spec_order_from(a, b, from) == Order::Equal,
    ensures
        a.len() == b.len(),
        forall|i: int| from <= i < a.len() ==> a[i] == b[i],
    decreases a.len() - from,
{
    if from < a.len() && from < b.len() {
        lemma_order_equal(a, b, from + 1);
    }
}

/// A byte string stands equal to itself.
pub proof fn lemma_order_reflexive(a: Seq<u8>, from: int)
    requires
        0 <= from,
    ensures
        spec_order_from(a, a, from) == Order::Equal,
    decreases a.len() - from,
{
    if from < a.len() {
        lemma_order_reflexive(a, from + 1);
    }
}

/// Swapping the two byte strings turns the order round.
pub proof fn lemma_order_reverse(a: Seq<u8>, b: Seq<u8>, from: int)
    requires
        0 <= from,
    ensures
        spec_order_from(b, a, from) == spec_reverse(spec_order_from(a, b, from)),
    decreases a.len() - from,
{
    if from < a.len() && from < b.len() && a[from] == b[from] {
        lemma_order_reverse(a, b, from + 1);
    }
}

/// The order of byte strings is transitive.
pub proof fn lemma_order_transitive(a: Seq<u8>, b: Seq<u8>, c: Seq<u8>, from: int)
    requires
        0 <= from,
        spec_order_from(a, b, from) != Order::Greater,
        spec_order_from(b, c, from) != Order::Greater,
    ensures
        spec_order_from(a, c, from) != Order::Greater,
        spec_order_from(a, b, from) == Order::Less || spec_order_from(b, c, from) == Order::Less
            ==> spec_order_from(a, c, from) == Order::Less,
    decreases a.len() - from,
{
    if from < a.len() && from < b.len() && from < c.len() && a[from] == b[from] && b[from]
        == c[from] {
        lemma_order_transitive(a, b, c, from + 1);
    }
}

/// Compares two byte strings.
pub fn bytes_order(a: &[u8], b: &[u8]) -> (order: Order)
    ensures
        order == spec_bytes_order(a@, b@),
{
    let mut i: usize = 0;
    while i < a.len() && i < b.len()
        invariant
            i <= a.len(),
            i <= b.len(),
            spec_bytes_order(a@, b@) == spec_order_from(a@, b@, i as int),
        decreases a.len() - i,
    {
        if a[i] < b[i] {
            return Order::Less;
        }
        if a[i] > b[i] {
            return Order::Greater;
        }
        i += 1;
    }
    if i < b.len() {
        Order::Less
    } else if i < a.len() {
        Order::Greater
    } else {
        Order::Equal
    }
}

/// How the name `a` stands to the name `b`: as their UTF-8 bytes do.
pub open spec fn spec_name_order(a: Seq<char>, b: Seq<char>) -> Order {
    spec_bytes_order(encode_utf8(a), encode_utf8(b))
}

/// Names that stand equal are the same name.
pub proof fn lemma_name_order_equal(a: Seq<char>, b: Seq<char>)
    ensures
        spec_name_order(a, b) == Order::Equal <==> a == b,
{
    if spec_name_order(a, b) == Order::Equal {
        lemma_order_equal(encode_utf8(a), encode_utf8(b), 0);
        assert(encode_utf8(a) =~= encode_utf8(b));
        encode_utf8_decode_utf8(a);
        encode_utf8_decode_utf8(b);
        assert(decode_utf8(encode_utf8(a)) == a);
        assert(decode_utf8(encode_utf8(b)) == b);
    }
    if a == b {
        lemma_order_reflexive(encode_utf8(a), 0);
    }
}

/// Compares two names.
pub fn name_order(a: &str, b: &str) -> (order: Order)
    ensures
        order == spec_name_order(a@, b@),
{
    bytes_order(a.as_bytes(), b.as_bytes())
}

/// How the number `a` stands to `b`.
pub open spec fn spec_number_order(a: u32, b: u32) -> Order {
    if a < b {
        Order::Less
    } else if a > b {
        Order::Greater
    } else {
        Order::Equal
    }
}

} // verus!
