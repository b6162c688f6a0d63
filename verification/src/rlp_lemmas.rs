//! Why the encoding can be read back: numbers are determined by their bytes,
//! and a header tells where its payload ends.

use crate::rlp::{be_bytes, be_fixed, lemma_be_bytes_len, rlp_bytes, rlp_header, rlp_u64};
use vstd::prelude::*;

verus! {

/// Two byte strings that start with parts of the same length and are equal
/// as a whole are equal part by part.
pub proof fn lemma_concat_split(a1: Seq<u8>, b1: Seq<u8>, a2: Seq<u8>, b2: Seq<u8>)
    requires
        a1 + b1 == a2 + b2,
        a1.len() == a2.len(),
    ensures
        a1 == a2,
        b1 == b2,
{
    let whole1 = a1 + b1;
    let whole2 = a2 + b2;
    assert(a1 =~= whole1.subrange(0, a1.len() as int));
    assert(a2 =~= whole2.subrange(0, a2.len() as int));
    assert(b1 =~= whole1.subrange(a1.len() as int, whole1.len() as int));
    assert(b2 =~= whole2.subrange(a2.len() as int, whole2.len() as int));
}

/// Numbers with the same big-endian bytes are the same number.
pub proof fn lemma_be_bytes_injective(n1: nat, n2: nat)
    requires
        be_bytes(n1) == be_bytes(n2),
    ensures
        n1 == n2,
    decreases n1,
{
    if n1 == 0 || n2 == 0 {
        assert(be_bytes(n1).len() == be_bytes(n2).len());
        if n1 != 0 {
            assert(be_bytes(n1).len() == be_bytes(n1 / 256).len() + 1);
        }
        if n2 != 0 {
            assert(be_bytes(n2).len() == be_bytes(n2 / 256).len() + 1);
        }
    } else {
        let s1 = be_bytes(n1 / 256).push((n1 % 256) as u8);
        let s2 = be_bytes(n2 / 256).push((n2 % 256) as u8);
        assert(s1 == s2);
        assert(s1.last() == s2.last());
        assert(s1.drop_last() =~= be_bytes(n1 / 256));
        assert(s2.drop_last() =~= be_bytes(n2 / 256));
        lemma_be_bytes_injective(n1 / 256, n2 / 256);
    }
}

/// What is left of a number above its `width` lowest bytes.
pub open spec fn above(n: nat, width: nat) -> nat
    decreases width,
{
    if width == 0 {
        n
    } else {
        above(n / 256, (width - 1) as nat)
    }
}

/// Numbers with the same lowest bytes and the same rest above them are the
/// same number.
pub proof fn lemma_be_fixed_injective(n1: nat, n2: nat, width: nat)
    requires
        be_fixed(n1, width) == be_fixed(n2, width),
        above(n1, width) == above(n2, width),
    ensures
        n1 == n2,
    decreases width,
{
    if width > 0 {
        let w = (width - 1) as nat;
        let s1 = be_fixed(n1 / 256, w).push((n1 % 256) as u8);
        let s2 = be_fixed(n2 / 256, w).push((n2 % 256) as u8);
        assert(s1 == s2);
        assert(s1.last() == s2.last());
        assert(s1.drop_last() =~= be_fixed(n1 / 256, w));
        assert(s2.drop_last() =~= be_fixed(n2 / 256, w));
        lemma_be_fixed_injective(n1 / 256, n2 / 256, w);
    }
}

/// Nothing is left of zero.
pub proof fn lemma_above_zero(width: nat)
    ensures
        above(0, width) == 0,
    decreases width,
{
    if width > 0 {
        assert(0nat / 256 == 0);
        lemma_above_zero((width - 1) as nat);
    }
}

/// Nothing is left of a 64-bit number above eight bytes or more.
pub proof fn lemma_above_u64(n: u64, width: nat)
    requires
        width >= 8,
    ensures
        above(n as nat, width) == 0,
{
    let n0 = n as nat;
    let n1 = n0 / 256;
    let n2 = n1 / 256;
    let n3 = n2 / 256;
    let n4 = n3 / 256;
    let n5 = n4 / 256;
    let n6 = n5 / 256;
    let n7 = n6 / 256;
    let n8 = n7 / 256;
    assert(n8 == 0);
    let w = (width - 8) as nat;
    lemma_above_zero(w);
    assert(above(n7, (w + 1) as nat) == above(n8, w));
    assert(above(n6, (w + 2) as nat) == above(n7, (w + 1) as nat));
    assert(above(n5, (w + 3) as nat) == above(n6, (w + 2) as nat));
    assert(above(n4, (w + 4) as nat) == above(n5, (w + 3) as nat));
    assert(above(n3, (w + 5) as nat) == above(n4, (w + 4) as nat));
    assert(above(n2, (w + 6) as nat) == above(n3, (w + 5) as nat));
    assert(above(n1, (w + 7) as nat) == above(n2, (w + 6) as nat));
    assert(above(n0, (w + 8) as nat) == above(n1, (w + 7) as nat));
}

/// 64-bit numbers with the same bytes at a width of eight or more are the
/// same number.
pub proof fn lemma_be_fixed_u64_injective(n1: u64, n2: u64, width: nat)
    requires
        width >= 8,
        be_fixed(n1 as nat, width) == be_fixed(n2 as nat, width),
    ensures
        n1 == n2,
{
    lemma_above_u64(n1, width);
    lemma_above_u64(n2, width);
    lemma_be_fixed_injective(n1 as nat, n2 as nat, width);
}

/// A header tells the length of its payload: where two headers, each
/// followed by anything, give the same bytes, the lengths are the same, and
/// so is what follows.
pub proof fn lemma_header_split(list: bool, n1: nat, n2: nat, rest1: Seq<u8>, rest2: Seq<u8>)
    requires
        n1 <= u64::MAX,
        n2 <= u64::MAX,
        rlp_header(list, n1) + rest1 == rlp_header(list, n2) + rest2,
    ensures
        n1 == n2,
        rest1 == rest2,
{
    let h1 = rlp_header(list, n1);
    let h2 = rlp_header(list, n2);
    let whole1 = h1 + rest1;
    let whole2 = h2 + rest2;
    lemma_be_bytes_len(n1 as u64);
    lemma_be_bytes_len(n2 as u64);
    assert(whole1[0] == h1[0]);
    assert(whole2[0] == h2[0]);
    let l1 = be_bytes(n1).len();
    let l2 = be_bytes(n2).len();
    if n1 > 55 && n2 > 55 {
        assert(l1 == l2);
        assert(be_bytes(n1) =~= whole1.subrange(1, 1 + l1 as int));
        assert(be_bytes(n2) =~= whole2.subrange(1, 1 + l2 as int));
        lemma_be_bytes_injective(n1, n2);
    }
    assert(n1 == n2);
    lemma_concat_split(h1, rest1, h2, rest2);
}

/// A byte string of two bytes or more can be read back from the front of
/// what its encoding starts.
pub proof fn lemma_bytes_split(data1: Seq<u8>, data2: Seq<u8>, rest1: Seq<u8>, rest2: Seq<u8>)
    requires
        2 <= data1.len() <= u64::MAX,
        2 <= data2.len() <= u64::MAX,
        rlp_bytes(data1) + rest1 == rlp_bytes(data2) + rest2,
    ensures
        data1 == data2,
        rest1 == rest2,
{
    assert(rlp_bytes(data1) + rest1 =~= rlp_header(false, data1.len()) + (data1 + rest1));
    assert(rlp_bytes(data2) + rest2 =~= rlp_header(false, data2.len()) + (data2 + rest2));
    lemma_header_split(false, data1.len(), data2.len(), data1 + rest1, data2 + rest2);
    lemma_concat_split(data1, rest1, data2, rest2);
}

/// Numbers with the same encoding are the same number.
pub proof fn lemma_rlp_u64_injective(n1: u64, n2: u64)
    requires
        rlp_u64(n1) == rlp_u64(n2),
    ensures
        n1 == n2,
{
    lemma_be_bytes_len(n1);
    lemma_be_bytes_len(n2);
    let b1 = be_bytes(n1 as nat);
    let b2 = be_bytes(n2 as nat);
    let single1 = b1.len() == 1 && b1[0] < 0x80;
    let single2 = b2.len() == 1 && b2[0] < 0x80;
    if single1 && single2 {
        lemma_be_bytes_injective(n1 as nat, n2 as nat);
    } else if !single1 && !single2 {
        lemma_header_split(false, b1.len(), b2.len(), b1, b2);
        lemma_be_bytes_injective(n1 as nat, n2 as nat);
    } else if single1 {
        assert(rlp_u64(n1).len() == 1);
        assert(rlp_u64(n2).len() == 1 + b2.len());
        assert(b2.len() == 0);
        assert(rlp_u64(n2)[0] == 0x80);
        assert(rlp_u64(n1)[0] == b1[0]);
    } else {
        assert(rlp_u64(n2).len() == 1);
        assert(rlp_u64(n1).len() == 1 + b1.len());
        assert(b1.len() == 0);
        assert(rlp_u64(n1)[0] == 0x80);
        assert(rlp_u64(n2)[0] == b2[0]);
    }
}

} // verus!
