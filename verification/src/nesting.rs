//! How deep a YAML text can be nested, judged from its bytes alone.
//!
//! The YAML parser calls itself once for each level of nesting, and the
//! documents it builds are copied, compared and dropped level by level too,
//! so that a text nested some hundreds of levels deep asks for more stack
//! than a thread has by default. The bound here is computed before the
//! parser is called. It rests on four facts about the text:
//!
//! - A block collection is opened by a `-`, a `?`, or a key with its `:`,
//!   and it is indented to the column of that indicator or key. A block
//!   collection inside another is indented further. So there are no more
//!   block collections open at once than one more than the greatest column
//!   at which one of the three indicators stands.
//! - Every flow collection is opened by a `[` or a `{`.
//! - A sequence can stand as the value of a block mapping's key without
//!   indentation of its own, and a pair can stand in a flow sequence without
//!   braces of its own: each collection counted above can bring one more.
//! - An alias `*` stands for a copy of what its anchor holds, which can have
//!   aliases in it again: each alias can put one more such text's depth
//!   below the place where it stands.

use vstd::prelude::*;

verus! {

/// The deepest nesting that is handed to the YAML parser. Four hundred
/// levels take well under the two mebibytes of stack that a thread has by
/// default; six hundred and more come close to it.
pub const MAX_NESTING: usize = 400;

/// Whether the byte is one of the indicators `-`, `?` and `:` that open a
/// block collection.
pub open spec fn spec_is_block_indicator(b: u8) -> bool {
    b == 0x2D || b == 0x3F || b == 0x3A
}

/// Whether the byte is `[` or `{`, which open a flow collection.
pub open spec fn spec_is_flow_opener(b: u8) -> bool {
    b == 0x5B || b == 0x7B
}

/// Whether the byte is `*`, which marks an alias.
pub open spec fn spec_is_alias(b: u8) -> bool {
    b == 0x2A
}

/// The column of the byte at `k`: the number of bytes between it and the
/// line feed before it, or the start of the text.
pub open spec fn spec_column(bytes: Seq<u8>, k: int) -> int
    decreases k,
{
    if k <= 0 {
        0
    } else if bytes[k - 1] == 0x0A {
        0
    } else {
        spec_column(bytes, k - 1) + 1
    }
}

/// One more than the greatest column at which a block indicator stands
/// among the first `k` bytes; zero where there is none.
pub open spec fn spec_block_bound(bytes: Seq<u8>, k: int) -> int
    decreases k,
{
    if k <= 0 {
        0
    } else if spec_is_block_indicator(bytes[k - 1]) && spec_column(bytes, k - 1) + 1
        > spec_block_bound(bytes, k - 1) {
        spec_column(bytes, k - 1) + 1
    } else {
        spec_block_bound(bytes, k - 1)
    }
}

/// Number of flow openers among the first `k` bytes.
pub open spec fn spec_flow_openers(bytes: Seq<u8>, k: int) -> int
    decreases k,
{
    if k <= 0 {
        0
    } else {
        spec_flow_openers(bytes, k - 1) + if spec_is_flow_opener(bytes[k - 1]) {
            1int
        } else {
            0int
        }
    }
}

/// Number of alias marks among the first `k` bytes.
pub open spec fn spec_aliases(bytes: Seq<u8>, k: int) -> int
    decreases k,
{
    if k <= 0 {
        0
    } else {
        spec_aliases(bytes, k - 1) + if spec_is_alias(bytes[k - 1]) {
            1int
        } else {
            0int
        }
    }
}

/// A bound on how deep the text is nested: twice the collections that can
/// be open at once, block and flow, for the text itself and once more for
/// each alias.
pub open spec fn spec_nesting_bound(bytes: Seq<u8>) -> int {
    2 * (spec_block_bound(bytes, bytes.len() as int) + spec_flow_openers(
        bytes,
        bytes.len() as int,
    )) * (spec_aliases(bytes, bytes.len() as int) + 1)
}

/// Whether the text's nesting bound is within `MAX_NESTING`.
pub open spec fn spec_within_nesting_limit(bytes: Seq<u8>) -> bool {
    spec_nesting_bound(bytes) <= MAX_NESTING
}

/// The three counts are none of them negative, and none is more than the
/// number of bytes counted.
pub proof fn lemma_counts_in_range(bytes: Seq<u8>, k: int)
    requires
        0 <= k <= bytes.len(),
    ensures
        0 <= spec_column(bytes, k) <= k,
        0 <= spec_block_bound(bytes, k) <= k,
        0 <= spec_flow_openers(bytes, k) <= k,
        0 <= spec_aliases(bytes, k) <= k,
    decreases k,
{
    if k > 0 {
        lemma_counts_in_range(bytes, k - 1);
    }
}

/// A text of any length is within the limit if it has no flow opener and
/// no alias mark, and none of its block indicators stands beyond the two
/// hundredth column of its line.
pub proof fn lemma_ordinary_texts_are_within_the_limit(bytes: Seq<u8>)
    requires
        spec_block_bound(bytes, bytes.len() as int) <= 200,
        spec_flow_openers(bytes, bytes.len() as int) == 0,
        spec_aliases(bytes, bytes.len() as int) == 0,
    ensures
        spec_within_nesting_limit(bytes),
{
    let open = spec_block_bound(bytes, bytes.len() as int);
    assert(2 * (open + 0) * (0 + 1) == 2 * open) by (nonlinear_arith);
}

/// Says whether the text's nesting bound is within `MAX_NESTING`.
pub fn within_nesting_limit(bytes: &[u8]) -> (within: bool)
    ensures
        within == spec_within_nesting_limit(bytes@),
{
    let mut column: usize = 0;
    let mut block: usize = 0;
    let mut flow: usize = 0;
    let mut aliases: usize = 0;
    let mut k: usize = 0;
    while k < bytes.len()
        invariant
            k <= bytes.len(),
            column == spec_column(bytes@, k as int),
            block == spec_block_bound(bytes@, k as int),
            flow == spec_flow_openers(bytes@, k as int),
            aliases == spec_aliases(bytes@, k as int),
        decreases bytes.len() - k,
    {
        proof {
            lemma_counts_in_range(bytes@, k as int);
        }
        let b = bytes[k];
        if (b == 0x2D || b == 0x3F || b == 0x3A) && column + 1 > block {
            block = column + 1;
        }
        if b == 0x5B || b == 0x7B {
            flow = flow + 1;
        }
        if b == 0x2A {
            aliases = aliases + 1;
        }
        if b == 0x0A {
            column = 0;
        } else {
            column = column + 1;
        }
        k += 1;
    }
    let open: u128 = block as u128 + flow as u128;
    let copies: u128 = aliases as u128 + 1;
    if open == 0 {
        assert(2 * open * copies == 0) by (nonlinear_arith)
            requires
                open == 0,
        ;
        true
    } else if open > MAX_NESTING as u128 || copies > MAX_NESTING as u128 {
        assert(2 * open * copies > MAX_NESTING) by (nonlinear_arith)
            requires
                open >= 1,
                copies >= 1,
                open > MAX_NESTING || copies > MAX_NESTING,
        ;
        false
    } else {
        assert(2 * open * copies <= 2 * 400 * 400) by (nonlinear_arith)
            requires
                0 <= open <= 400,
                0 <= copies <= 400,
        ;
        2 * open * copies <= MAX_NESTING as u128
    }
}

} // verus!
